//! A disassembler core for CHIP-8 program images.
//!
//! A program image is a sequence of bytes. Consecutive byte pairs form
//! big-endian 16-bit instruction words; every word decodes to exactly one
//! [`instruction::Instruction`], and every instruction renders to one line of
//! a listing.

pub mod decode;
pub mod fields;
pub mod instruction;
pub mod loader;
pub mod mnemonic;
pub mod report;
pub mod text;
