pub mod builtin;
pub mod import;
