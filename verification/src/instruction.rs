//! The record that decoding a word gives, and its line of text.

use vstd::prelude::*;
use crate::mnemonic::{mnemonic, mnemonic_of, Mnemonic};
use crate::text::{push_upper_hex4, upper_hex4};

verus! {

/// One decoded instruction word.
#[derive(Debug)]
pub struct Instruction {
    /// The word itself.
    pub opcode: u16,
    /// The short code of the instruction class.
    pub name: String,
    /// The summary of the instruction class.
    pub description: String,
    /// The operand text.
    pub decoded: String,
}

/// What an [`Instruction`] holds, as plain values.
pub ghost struct InstructionText {
    pub opcode: u16,
    pub name: Seq<char>,
    pub description: Seq<char>,
    pub decoded: Seq<char>,
}

impl View for Instruction {
    type V = InstructionText;

    open spec fn view(&self) -> InstructionText {
        InstructionText {
            opcode: self.opcode,
            name: self.name@,
            description: self.description@,
            decoded: self.decoded@,
        }
    }
}

impl InstructionText {
    /// The line of an instruction: the word in at least four hexadecimal
    /// digits, ` - `, then the short code, the summary and the operand text
    /// with a tab between them.
    pub open spec fn line(self) -> Seq<char> {
        upper_hex4(self.opcode as nat) + " - "@ + self.name + "\t"@ + self.description + "\t"@
            + self.decoded
    }
}

/// The record of a word read as an instruction of class `m`.
pub open spec fn rendered(m: Mnemonic, opcode: u16) -> InstructionText {
    InstructionText {
        opcode,
        name: m.name_text(),
        description: m.description_text(),
        decoded: m.operands_text(opcode),
    }
}

impl InstructionText {
    /// Whether the record's texts are those of its word: the short code and
    /// summary of the word's class, and the class's operand text for the
    /// word. Every decoded record is like that; one put together by hand
    /// need not be.
    pub open spec fn consistent(self) -> bool {
        self == rendered(mnemonic_of(self.opcode), self.opcode)
    }
}

impl Instruction {
    /// Puts a record together from its four parts.
    pub fn new(opcode: u16, name: &str, description: &str, decoded: String) -> (instruction:
        Instruction)
        ensures
            instruction.opcode == opcode,
            instruction.name@ == name@,
            instruction.description@ == description@,
            instruction.decoded@ == decoded@,
    {
        Instruction {
            opcode: opcode,
            name: String::from_str(name),
            description: String::from_str(description),
            decoded: decoded,
        }
    }

    /// The instruction class of the record's word.
    pub fn mnemonic(&self) -> (m: Mnemonic)
        ensures
            m == mnemonic_of(self.opcode),
    {
        mnemonic(self.opcode)
    }

    /// The record's line of text.
    pub fn to_string(&self) -> (line: String)
        ensures
            line@ == self@.line(),
    {
        let mut line = String::new();
        push_upper_hex4(&mut line, self.opcode as u64);
        line.append(" - ");
        line.append(self.name.as_str());
        line.append("\t");
        line.append(self.description.as_str());
        line.append("\t");
        line.append(self.decoded.as_str());
        assert(line@ =~= self@.line());
        line
    }
}

} // verus!
