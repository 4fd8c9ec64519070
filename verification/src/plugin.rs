pub mod insert_hello;
pub mod macro_plugin;
pub mod plugin;
