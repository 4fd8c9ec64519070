use vstd::prelude::*;

verus! {

/// One match of the anchored signature pattern: the matched text, which is a
/// prefix of the input, and the function name its named group captured.
#[verifier::ext_equal]
pub struct SigMatchView {
    pub prefix: Seq<char>,
    pub name: Seq<char>,
}

/// What the anchored signature pattern makes of one source text: the matched
/// prefix and the captured function name, or nothing when the pattern does
/// not match at the start of the text.
pub uninterp spec fn fn_sig_match_of(s: Seq<char>) -> Option<SigMatchView>;

/// Relies on regex::Regex::captures with the fixed pattern
/// `^(\s*fn\s+(?<function_name>\w+)\s*\(.*?\)\s*(->\s*.*)?\{)`: matching is a
/// pure function of the haystack, the pattern is anchored at the start of the
/// haystack, so the whole match is a prefix of it, and the named group
/// captures the function identifier.
#[verifier::external_body]
pub fn find_fn_signature(source: &String) -> (r: Option<(String, String)>)
    ensures
        (r is Some) == (fn_sig_match_of(source@) is Some),
        r matches Some(m) ==> (fn_sig_match_of(source@) == Some(
            SigMatchView { prefix: m.0@, name: m.1@ },
        ) && m.0@.len() <= source@.len() && m.0@ == source@.subrange(0, m.0@.len() as int)),
{
    let re = regex::Regex::new(r"^(\s*fn\s+(?<function_name>\w+)\s*\(.*?\)\s*(->\s*.*)?\{)")
        .unwrap();
    re.captures(source.as_str()).map(|c| (c[0].to_string(), c["function_name"].to_string()))
}

} // verus!
