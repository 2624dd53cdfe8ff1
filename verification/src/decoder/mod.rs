pub mod import;
pub mod inst;
pub mod opcode;
pub mod ref_known;
pub mod ref_unknown;
