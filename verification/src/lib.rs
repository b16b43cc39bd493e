pub mod registers;
pub mod features;
pub mod address;
pub mod attributes;
pub mod encoding;
pub mod assembler;
pub mod operands;
pub mod simd;
pub mod instructions;
pub mod nops;
pub mod label;
pub mod instruction;
pub mod laws;
