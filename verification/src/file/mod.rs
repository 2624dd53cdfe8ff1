pub mod data;
pub mod parser;
pub mod view;
