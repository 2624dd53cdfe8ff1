pub mod backend;
pub mod decoder;
pub mod file;
pub mod instruction;
pub mod platform;
