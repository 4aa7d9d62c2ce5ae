//! The closed set of instruction classes and the dispatch from a word to
//! its class.
//!
//! The top nibble of a word selects a family. In the families `0`, `8`, `E`
//! and `F` a second field selects the class: the low byte in `0`, `E` and
//! `F`, the low nibble in `8`. A second field that selects nothing gives
//! [`Mnemonic::Unknown`]; family `0` has no such word, since every word in it
//! that is neither `00E0` nor `00EE` is a machine routine call. The families
//! `5` and `9` do not look at their low nibble, and no family looks at the
//! register index `X`: in family `0` the word `01E0` clears the screen as
//! `00E0` does.

use vstd::prelude::*;
use crate::fields::{family_of, lemma_field_ranges, n_of, nn_of, nnn_of, x_of, y_of};
use crate::text::{decimal, upper_hex, upper_hex4};

verus! {

/// An instruction class.
#[derive(Debug, Clone, Copy, PartialEq, Eq, Hash, Structural)]
pub enum Mnemonic {
    /// `0NNN`: run the machine routine at `NNN`.
    Sys,
    /// `00E0`: clear the screen.
    ClearScreen,
    /// `00EE`: return from a subroutine.
    Return,
    /// `1NNN`: jump to `NNN`.
    Jump,
    /// `2NNN`: call the subroutine at `NNN`.
    Call,
    /// `3XNN`: skip the next instruction if `VX` equals `NN`.
    SkipEqualImmediate,
    /// `4XNN`: skip the next instruction if `VX` differs from `NN`.
    SkipNotEqualImmediate,
    /// `5XY0`: skip the next instruction if `VX` equals `VY`.
    SkipEqualRegister,
    /// `6XNN`: set `VX` to `NN`.
    SetImmediate,
    /// `7XNN`: add `NN` to `VX`.
    AddImmediate,
    /// `8XY0`: copy one register to the other.
    Copy,
    /// `8XY1`: bitwise OR of `VX` and `VY`.
    Or,
    /// `8XY2`: bitwise AND of `VX` and `VY`.
    And,
    /// `8XY3`: bitwise XOR of `VX` and `VY`.
    Xor,
    /// `8XY4`: add `VY` to `VX`, with carry.
    AddRegister,
    /// `8XY5`: subtract `VY` from `VX`, with borrow.
    Subtract,
    /// `8XY6`: shift right by one bit.
    ShiftRight,
    /// `8XY7`: subtract `VX` from `VY`, with borrow.
    SubtractReversed,
    /// `8XYE`: shift left by one bit.
    ShiftLeft,
    /// `9XY0`: skip the next instruction if `VX` differs from `VY`.
    SkipNotEqualRegister,
    /// `ANNN`: set the index register to `NNN`.
    SetIndex,
    /// `BNNN`: jump to `NNN` plus `V0`.
    JumpOffset,
    /// `CXNN`: set `VX` to a random byte masked by `NN`.
    Random,
    /// `DXYN`: draw a sprite of `N` rows at (`VX`, `VY`).
    Draw,
    /// `EX9E`: skip the next instruction if the key in `VX` is down.
    SkipKeyPressed,
    /// `EXA1`: skip the next instruction if the key in `VX` is up.
    SkipKeyNotPressed,
    /// `FX07`: read the delay timer.
    ReadDelay,
    /// `FX0A`: wait for a key press.
    WaitKey,
    /// `FX15`: set the delay timer.
    SetDelay,
    /// `FX18`: set the sound timer.
    SetSound,
    /// `FX1E`: add `VX` to the index register.
    AddIndex,
    /// `FX29`: point the index register at the font sprite of a digit.
    FontAddress,
    /// `FX33`: store the decimal digits of `VX`.
    StoreDecimal,
    /// `FX55`: store the registers `V0` to `VX`.
    StoreRegisters,
    /// `FX65`: load the registers `V0` to `VX`.
    LoadRegisters,
    /// A word that is no instruction.
    Unknown,
}

impl Mnemonic {
    /// The short code of the class, four characters long.
    pub open spec fn name_text(self) -> Seq<char> {
        match self {
            Mnemonic::Sys => "0NNN"@,
            Mnemonic::ClearScreen => "00E0"@,
            Mnemonic::Return => "00EE"@,
            Mnemonic::Jump => "1NNN"@,
            Mnemonic::Call => "2NNN"@,
            Mnemonic::SkipEqualImmediate => "3XNN"@,
            Mnemonic::SkipNotEqualImmediate => "4XNN"@,
            Mnemonic::SkipEqualRegister => "5XY0"@,
            Mnemonic::SetImmediate => "6XNN"@,
            Mnemonic::AddImmediate => "7XNN"@,
            Mnemonic::Copy => "8XY0"@,
            Mnemonic::Or => "8XY1"@,
            Mnemonic::And => "8XY2"@,
            Mnemonic::Xor => "8XY3"@,
            Mnemonic::AddRegister => "8XY4"@,
            Mnemonic::Subtract => "8XY5"@,
            Mnemonic::ShiftRight => "8XY6"@,
            Mnemonic::SubtractReversed => "8XY7"@,
            Mnemonic::ShiftLeft => "8XYE"@,
            Mnemonic::SkipNotEqualRegister => "9XY0"@,
            Mnemonic::SetIndex => "ANNN"@,
            Mnemonic::JumpOffset => "BNNN"@,
            Mnemonic::Random => "CXNN"@,
            Mnemonic::Draw => "DXYN"@,
            Mnemonic::SkipKeyPressed => "EX9E"@,
            Mnemonic::SkipKeyNotPressed => "EXA1"@,
            Mnemonic::ReadDelay => "FX07"@,
            Mnemonic::WaitKey => "FX0A"@,
            Mnemonic::SetDelay => "FX15"@,
            Mnemonic::SetSound => "FX18"@,
            Mnemonic::AddIndex => "FX1E"@,
            Mnemonic::FontAddress => "FX29"@,
            Mnemonic::StoreDecimal => "FX33"@,
            Mnemonic::StoreRegisters => "FX55"@,
            Mnemonic::LoadRegisters => "FX65"@,
            Mnemonic::Unknown => "????"@,
        }
    }

    /// The summary of the class.
    pub open spec fn description_text(self) -> Seq<char> {
        match self {
            Mnemonic::Sys => "EXECUTE NNN"@,
            Mnemonic::ClearScreen => "CLEAR SCREEN"@,
            Mnemonic::Return => "RETURN FROM SUBROUTINE"@,
            Mnemonic::Jump => "JUMP TO NNN"@,
            Mnemonic::Call => "CALL NNN"@,
            Mnemonic::SkipEqualImmediate => "SKIPIF VX==NN"@,
            Mnemonic::SkipNotEqualImmediate => "SKIPIF VX!=NN"@,
            Mnemonic::SkipEqualRegister => "SKIPIF VX=VY"@,
            Mnemonic::SetImmediate => "SET VX=NN"@,
            Mnemonic::AddImmediate => "ADD VX=VX+NN"@,
            Mnemonic::Copy => "STORE VX IN VY"@,
            Mnemonic::Or => "SET VX TO VX|VY"@,
            Mnemonic::And => "SET VX TO VX&VY"@,
            Mnemonic::Xor => "SET VX TO VX^VY"@,
            Mnemonic::AddRegister => "SET VX TO VX+VY"@,
            Mnemonic::Subtract => "SET VX TO VX-VY"@,
            Mnemonic::ShiftRight => "SET VX TO VY>>1"@,
            Mnemonic::SubtractReversed => "SET VX TO VY-VX"@,
            Mnemonic::ShiftLeft => "SET VX TO VY<<1"@,
            Mnemonic::SkipNotEqualRegister => "SKIPIF VX!=VY"@,
            Mnemonic::SetIndex => "SET I=NNN"@,
            Mnemonic::JumpOffset => "JUMP TO NNN+V0"@,
            Mnemonic::Random => "VX=RAND() & NN"@,
            Mnemonic::Draw => "DRAW VX, VY, N"@,
            Mnemonic::SkipKeyPressed => "SKIPIF VX==KEY"@,
            Mnemonic::SkipKeyNotPressed => "SKIPIF VX=!KEY"@,
            Mnemonic::ReadDelay => "STORE VX IN DELAY TIMER"@,
            Mnemonic::WaitKey => "STORE VX TO KEY PRESS"@,
            Mnemonic::SetDelay => "SET DELAY TO VX"@,
            Mnemonic::SetSound => "SET SOUND TO VX"@,
            Mnemonic::AddIndex => "ADD VX TO I"@,
            Mnemonic::FontAddress => "SET I TO HEX AT VX"@,
            Mnemonic::StoreDecimal => "STORE BCD OF VX AT I"@,
            Mnemonic::StoreRegisters => "STORE V0..VX AT I"@,
            Mnemonic::LoadRegisters => "LOAD V0..VX FROM I"@,
            Mnemonic::Unknown => "UNKNOWN OP"@,
        }
    }

    /// The operand text of a word read as an instruction of this class.
    ///
    /// Addresses, immediates and the register indices of the families `0`
    /// to `D` are written in hexadecimal. The target of `BNNN` and the
    /// register index of the families `E` and `F` are written in decimal.
    /// An unknown word is written as a data word of four hexadecimal
    /// digits.
    pub open spec fn operands_text(self, opcode: u16) -> Seq<char> {
        let nnn = nnn_of(opcode) as nat;
        let x = x_of(opcode) as nat;
        let y = y_of(opcode) as nat;
        let n = n_of(opcode) as nat;
        let nn = nn_of(opcode) as nat;
        match self {
            Mnemonic::Sys => "#"@ + upper_hex(nnn),
            Mnemonic::ClearScreen => "CLS"@,
            Mnemonic::Return => "RETURN"@,
            Mnemonic::Jump => "JMP #"@ + upper_hex(nnn),
            Mnemonic::Call => "CALL "@ + upper_hex(nnn),
            Mnemonic::SkipEqualImmediate => "V"@ + upper_hex(x) + "=="@ + upper_hex(nn),
            Mnemonic::SkipNotEqualImmediate => "V"@ + upper_hex(x) + "!="@ + upper_hex(nn),
            Mnemonic::SkipEqualRegister => "V"@ + upper_hex(x) + "=V"@ + upper_hex(y),
            Mnemonic::SetImmediate => "V"@ + upper_hex(x) + "="@ + upper_hex(nn),
            Mnemonic::AddImmediate => "V"@ + upper_hex(x) + "+="@ + upper_hex(nn),
            Mnemonic::Copy => "V"@ + upper_hex(x) + "=V"@ + upper_hex(y),
            Mnemonic::Or => "VX=V"@ + upper_hex(x) + "|V"@ + upper_hex(y),
            Mnemonic::And => "VX=V"@ + upper_hex(x) + "&V"@ + upper_hex(y),
            Mnemonic::Xor => "VX=V"@ + upper_hex(x) + "^V"@ + upper_hex(y),
            Mnemonic::AddRegister => "VX=V"@ + upper_hex(x) + "+V"@ + upper_hex(y),
            Mnemonic::Subtract => "VX=V"@ + upper_hex(x) + "-V"@ + upper_hex(y),
            Mnemonic::ShiftRight => "VX=V"@ + upper_hex(y) + ">>1"@,
            Mnemonic::SubtractReversed => "VX=V"@ + upper_hex(y) + "-V"@ + upper_hex(x),
            Mnemonic::ShiftLeft => "VX=V"@ + upper_hex(y) + "<<1"@,
            Mnemonic::SkipNotEqualRegister => "V"@ + upper_hex(x) + "!=V"@ + upper_hex(y),
            Mnemonic::SetIndex => "I="@ + upper_hex(nnn),
            Mnemonic::JumpOffset => decimal(nnn) + "+V0"@,
            Mnemonic::Random => "V"@ + upper_hex(x) + "=RAND & "@ + upper_hex(nn),
            Mnemonic::Draw => "V"@ + upper_hex(x) + ", V"@ + upper_hex(y) + ", N"@ + upper_hex(n),
            Mnemonic::SkipKeyPressed => "SKIPIF KEY==V"@ + decimal(x),
            Mnemonic::SkipKeyNotPressed => "SKIPIF KEY=!V"@ + decimal(x),
            Mnemonic::ReadDelay => "V"@ + decimal(x) + "=DELAY"@,
            Mnemonic::WaitKey => "V"@ + decimal(x) + "=KEY"@,
            Mnemonic::SetDelay => "DELAY TIMER=V"@ + decimal(x),
            Mnemonic::SetSound => "SOUND TIMER=V"@ + decimal(x),
            Mnemonic::AddIndex => "V"@ + decimal(x) + "+I"@,
            Mnemonic::FontAddress => "SET I, V"@ + decimal(x),
            Mnemonic::StoreDecimal => "BCD V"@ + decimal(x),
            Mnemonic::StoreRegisters => "STORE V0..V"@ + decimal(x),
            Mnemonic::LoadRegisters => "LOAD V0..V"@ + decimal(x),
            Mnemonic::Unknown => "DW #"@ + upper_hex4(opcode as nat),
        }
    }

    /// The short code of the class.
    pub fn name(self) -> (text: &'static str)
        ensures
            text@ == self.name_text(),
            text@.len() == 4,
    {
        proof {
            lemma_name_len(self);
        }
        match self {
            Mnemonic::Sys => "0NNN",
            Mnemonic::ClearScreen => "00E0",
            Mnemonic::Return => "00EE",
            Mnemonic::Jump => "1NNN",
            Mnemonic::Call => "2NNN",
            Mnemonic::SkipEqualImmediate => "3XNN",
            Mnemonic::SkipNotEqualImmediate => "4XNN",
            Mnemonic::SkipEqualRegister => "5XY0",
            Mnemonic::SetImmediate => "6XNN",
            Mnemonic::AddImmediate => "7XNN",
            Mnemonic::Copy => "8XY0",
            Mnemonic::Or => "8XY1",
            Mnemonic::And => "8XY2",
            Mnemonic::Xor => "8XY3",
            Mnemonic::AddRegister => "8XY4",
            Mnemonic::Subtract => "8XY5",
            Mnemonic::ShiftRight => "8XY6",
            Mnemonic::SubtractReversed => "8XY7",
            Mnemonic::ShiftLeft => "8XYE",
            Mnemonic::SkipNotEqualRegister => "9XY0",
            Mnemonic::SetIndex => "ANNN",
            Mnemonic::JumpOffset => "BNNN",
            Mnemonic::Random => "CXNN",
            Mnemonic::Draw => "DXYN",
            Mnemonic::SkipKeyPressed => "EX9E",
            Mnemonic::SkipKeyNotPressed => "EXA1",
            Mnemonic::ReadDelay => "FX07",
            Mnemonic::WaitKey => "FX0A",
            Mnemonic::SetDelay => "FX15",
            Mnemonic::SetSound => "FX18",
            Mnemonic::AddIndex => "FX1E",
            Mnemonic::FontAddress => "FX29",
            Mnemonic::StoreDecimal => "FX33",
            Mnemonic::StoreRegisters => "FX55",
            Mnemonic::LoadRegisters => "FX65",
            Mnemonic::Unknown => "????",
        }
    }

    /// The summary of the class.
    pub fn description(self) -> (text: &'static str)
        ensures
            text@ == self.description_text(),
            text@.len() > 0,
    {
        proof {
            lemma_description_nonempty(self);
        }
        match self {
            Mnemonic::Sys => "EXECUTE NNN",
            Mnemonic::ClearScreen => "CLEAR SCREEN",
            Mnemonic::Return => "RETURN FROM SUBROUTINE",
            Mnemonic::Jump => "JUMP TO NNN",
            Mnemonic::Call => "CALL NNN",
            Mnemonic::SkipEqualImmediate => "SKIPIF VX==NN",
            Mnemonic::SkipNotEqualImmediate => "SKIPIF VX!=NN",
            Mnemonic::SkipEqualRegister => "SKIPIF VX=VY",
            Mnemonic::SetImmediate => "SET VX=NN",
            Mnemonic::AddImmediate => "ADD VX=VX+NN",
            Mnemonic::Copy => "STORE VX IN VY",
            Mnemonic::Or => "SET VX TO VX|VY",
            Mnemonic::And => "SET VX TO VX&VY",
            Mnemonic::Xor => "SET VX TO VX^VY",
            Mnemonic::AddRegister => "SET VX TO VX+VY",
            Mnemonic::Subtract => "SET VX TO VX-VY",
            Mnemonic::ShiftRight => "SET VX TO VY>>1",
            Mnemonic::SubtractReversed => "SET VX TO VY-VX",
            Mnemonic::ShiftLeft => "SET VX TO VY<<1",
            Mnemonic::SkipNotEqualRegister => "SKIPIF VX!=VY",
            Mnemonic::SetIndex => "SET I=NNN",
            Mnemonic::JumpOffset => "JUMP TO NNN+V0",
            Mnemonic::Random => "VX=RAND() & NN",
            Mnemonic::Draw => "DRAW VX, VY, N",
            Mnemonic::SkipKeyPressed => "SKIPIF VX==KEY",
            Mnemonic::SkipKeyNotPressed => "SKIPIF VX=!KEY",
            Mnemonic::ReadDelay => "STORE VX IN DELAY TIMER",
            Mnemonic::WaitKey => "STORE VX TO KEY PRESS",
            Mnemonic::SetDelay => "SET DELAY TO VX",
            Mnemonic::SetSound => "SET SOUND TO VX",
            Mnemonic::AddIndex => "ADD VX TO I",
            Mnemonic::FontAddress => "SET I TO HEX AT VX",
            Mnemonic::StoreDecimal => "STORE BCD OF VX AT I",
            Mnemonic::StoreRegisters => "STORE V0..VX AT I",
            Mnemonic::LoadRegisters => "LOAD V0..VX FROM I",
            Mnemonic::Unknown => "UNKNOWN OP",
        }
    }
}

/// Every short code has four characters.
pub proof fn lemma_name_len(m: Mnemonic)
    ensures
        m.name_text().len() == 4,
{
    reveal_strlit("0NNN");
    reveal_strlit("00E0");
    reveal_strlit("00EE");
    reveal_strlit("1NNN");
    reveal_strlit("2NNN");
    reveal_strlit("3XNN");
    reveal_strlit("4XNN");
    reveal_strlit("5XY0");
    reveal_strlit("6XNN");
    reveal_strlit("7XNN");
    reveal_strlit("8XY0");
    reveal_strlit("8XY1");
    reveal_strlit("8XY2");
    reveal_strlit("8XY3");
    reveal_strlit("8XY4");
    reveal_strlit("8XY5");
    reveal_strlit("8XY6");
    reveal_strlit("8XY7");
    reveal_strlit("8XYE");
    reveal_strlit("9XY0");
    reveal_strlit("ANNN");
    reveal_strlit("BNNN");
    reveal_strlit("CXNN");
    reveal_strlit("DXYN");
    reveal_strlit("EX9E");
    reveal_strlit("EXA1");
    reveal_strlit("FX07");
    reveal_strlit("FX0A");
    reveal_strlit("FX15");
    reveal_strlit("FX18");
    reveal_strlit("FX1E");
    reveal_strlit("FX29");
    reveal_strlit("FX33");
    reveal_strlit("FX55");
    reveal_strlit("FX65");
    reveal_strlit("????");
}

/// No summary is empty.
pub proof fn lemma_description_nonempty(m: Mnemonic)
    ensures
        m.description_text().len() > 0,
{
    reveal_strlit("EXECUTE NNN");
    reveal_strlit("CLEAR SCREEN");
    reveal_strlit("RETURN FROM SUBROUTINE");
    reveal_strlit("JUMP TO NNN");
    reveal_strlit("CALL NNN");
    reveal_strlit("SKIPIF VX==NN");
    reveal_strlit("SKIPIF VX!=NN");
    reveal_strlit("SKIPIF VX=VY");
    reveal_strlit("SET VX=NN");
    reveal_strlit("ADD VX=VX+NN");
    reveal_strlit("STORE VX IN VY");
    reveal_strlit("SET VX TO VX|VY");
    reveal_strlit("SET VX TO VX&VY");
    reveal_strlit("SET VX TO VX^VY");
    reveal_strlit("SET VX TO VX+VY");
    reveal_strlit("SET VX TO VX-VY");
    reveal_strlit("SET VX TO VY>>1");
    reveal_strlit("SET VX TO VY-VX");
    reveal_strlit("SET VX TO VY<<1");
    reveal_strlit("SKIPIF VX!=VY");
    reveal_strlit("SET I=NNN");
    reveal_strlit("JUMP TO NNN+V0");
    reveal_strlit("VX=RAND() & NN");
    reveal_strlit("DRAW VX, VY, N");
    reveal_strlit("SKIPIF VX==KEY");
    reveal_strlit("SKIPIF VX=!KEY");
    reveal_strlit("STORE VX IN DELAY TIMER");
    reveal_strlit("STORE VX TO KEY PRESS");
    reveal_strlit("SET DELAY TO VX");
    reveal_strlit("SET SOUND TO VX");
    reveal_strlit("ADD VX TO I");
    reveal_strlit("SET I TO HEX AT VX");
    reveal_strlit("STORE BCD OF VX AT I");
    reveal_strlit("STORE V0..VX AT I");
    reveal_strlit("LOAD V0..VX FROM I");
    reveal_strlit("UNKNOWN OP");
}

/// No two classes share a short code.
pub proof fn lemma_names_distinct(a: Mnemonic, b: Mnemonic)
    requires
        a.name_text() == b.name_text(),
    ensures
        a == b,
{
    lemma_name_len(a);
    lemma_name_len(b);
    let s = a.name_text();
    let t = b.name_text();
    assert(s[0] == t[0] && s[1] == t[1] && s[2] == t[2] && s[3] == t[3]);
    reveal_strlit("0NNN");
    reveal_strlit("00E0");
    reveal_strlit("00EE");
    reveal_strlit("1NNN");
    reveal_strlit("2NNN");
    reveal_strlit("3XNN");
    reveal_strlit("4XNN");
    reveal_strlit("5XY0");
    reveal_strlit("6XNN");
    reveal_strlit("7XNN");
    reveal_strlit("8XY0");
    reveal_strlit("8XY1");
    reveal_strlit("8XY2");
    reveal_strlit("8XY3");
    reveal_strlit("8XY4");
    reveal_strlit("8XY5");
    reveal_strlit("8XY6");
    reveal_strlit("8XY7");
    reveal_strlit("8XYE");
    reveal_strlit("9XY0");
    reveal_strlit("ANNN");
    reveal_strlit("BNNN");
    reveal_strlit("CXNN");
    reveal_strlit("DXYN");
    reveal_strlit("EX9E");
    reveal_strlit("EXA1");
    reveal_strlit("FX07");
    reveal_strlit("FX0A");
    reveal_strlit("FX15");
    reveal_strlit("FX18");
    reveal_strlit("FX1E");
    reveal_strlit("FX29");
    reveal_strlit("FX33");
    reveal_strlit("FX55");
    reveal_strlit("FX65");
    reveal_strlit("????");
}

/// The class of a word of family `0`, selected by the low byte.
pub open spec fn mnemonic_x0(opcode: u16) -> Mnemonic {
    match opcode & 0x00FF {
        0x00EE => Mnemonic::Return,
        0x00E0 => Mnemonic::ClearScreen,
        _ => Mnemonic::Sys,
    }
}

/// The class of a word of family `8`, selected by the low nibble.
pub open spec fn mnemonic_x8(opcode: u16) -> Mnemonic {
    match opcode & 0x000F {
        0x0000 => Mnemonic::Copy,
        0x0001 => Mnemonic::Or,
        0x0002 => Mnemonic::And,
        0x0003 => Mnemonic::Xor,
        0x0004 => Mnemonic::AddRegister,
        0x0005 => Mnemonic::Subtract,
        0x0006 => Mnemonic::ShiftRight,
        0x0007 => Mnemonic::SubtractReversed,
        0x000E => Mnemonic::ShiftLeft,
        _ => Mnemonic::Unknown,
    }
}

/// The class of a word of family `E`, selected by the low byte.
pub open spec fn mnemonic_xe(opcode: u16) -> Mnemonic {
    match opcode & 0x00FF {
        0x009E => Mnemonic::SkipKeyPressed,
        0x00A1 => Mnemonic::SkipKeyNotPressed,
        _ => Mnemonic::Unknown,
    }
}

/// The class of a word of family `F`, selected by the low byte.
pub open spec fn mnemonic_xf(opcode: u16) -> Mnemonic {
    match opcode & 0x00FF {
        0x0007 => Mnemonic::ReadDelay,
        0x000A => Mnemonic::WaitKey,
        0x0015 => Mnemonic::SetDelay,
        0x0018 => Mnemonic::SetSound,
        0x001E => Mnemonic::AddIndex,
        0x0029 => Mnemonic::FontAddress,
        0x0033 => Mnemonic::StoreDecimal,
        0x0055 => Mnemonic::StoreRegisters,
        0x0065 => Mnemonic::LoadRegisters,
        _ => Mnemonic::Unknown,
    }
}

/// The class of a word: the family by the top nibble, then the class within
/// the family.
pub open spec fn mnemonic_of(opcode: u16) -> Mnemonic {
    match opcode & 0xF000 {
        0x0000 => mnemonic_x0(opcode),
        0x1000 => Mnemonic::Jump,
        0x2000 => Mnemonic::Call,
        0x3000 => Mnemonic::SkipEqualImmediate,
        0x4000 => Mnemonic::SkipNotEqualImmediate,
        0x5000 => Mnemonic::SkipEqualRegister,
        0x6000 => Mnemonic::SetImmediate,
        0x7000 => Mnemonic::AddImmediate,
        0x8000 => mnemonic_x8(opcode),
        0x9000 => Mnemonic::SkipNotEqualRegister,
        0xA000 => Mnemonic::SetIndex,
        0xB000 => Mnemonic::JumpOffset,
        0xC000 => Mnemonic::Random,
        0xD000 => Mnemonic::Draw,
        0xE000 => mnemonic_xe(opcode),
        0xF000 => mnemonic_xf(opcode),
        _ => Mnemonic::Unknown,
    }
}

/// The low nibbles that select an instruction in family `8`.
pub open spec fn defined_in_x8(n: u16) -> bool {
    n <= 0x7 || n == 0xE
}

/// The low bytes that select an instruction in family `E`.
pub open spec fn defined_in_xe(nn: u16) -> bool {
    nn == 0x9E || nn == 0xA1
}

/// The low bytes that select an instruction in family `F`.
pub open spec fn defined_in_xf(nn: u16) -> bool {
    nn == 0x07 || nn == 0x0A || nn == 0x15 || nn == 0x18 || nn == 0x1E || nn == 0x29 || nn == 0x33
        || nn == 0x55 || nn == 0x65
}

/// The top four bits of a word, in place, are the family nibble times
/// `0x1000`.
pub proof fn lemma_family_mask(opcode: u16)
    ensures
        opcode & 0xF000 == family_of(opcode) * 0x1000,
        family_of(opcode) < 16,
{
    assert(opcode & 0xF000 == ((opcode & 0xF000) >> 12) * 0x1000) by (bit_vector);
    lemma_field_ranges(opcode);
}

/// A word is unknown exactly when it lies in one of the families `8`, `E`
/// and `F` and its second field selects no instruction there.
pub proof fn lemma_unknown_exactly(opcode: u16)
    ensures
        mnemonic_of(opcode) == Mnemonic::Unknown <==> {
            ||| family_of(opcode) == 0x8 && !defined_in_x8(n_of(opcode))
            ||| family_of(opcode) == 0xE && !defined_in_xe(nn_of(opcode))
            ||| family_of(opcode) == 0xF && !defined_in_xf(nn_of(opcode))
        },
{
    lemma_family_mask(opcode);
}

/// Outside the families `0`, `8`, `E` and `F` the family nibble alone
/// selects the class.
pub proof fn lemma_single_class_families(opcode: u16)
    ensures
        family_of(opcode) == 0x1 ==> mnemonic_of(opcode) == Mnemonic::Jump,
        family_of(opcode) == 0x2 ==> mnemonic_of(opcode) == Mnemonic::Call,
        family_of(opcode) == 0x3 ==> mnemonic_of(opcode) == Mnemonic::SkipEqualImmediate,
        family_of(opcode) == 0x4 ==> mnemonic_of(opcode) == Mnemonic::SkipNotEqualImmediate,
        family_of(opcode) == 0x5 ==> mnemonic_of(opcode) == Mnemonic::SkipEqualRegister,
        family_of(opcode) == 0x6 ==> mnemonic_of(opcode) == Mnemonic::SetImmediate,
        family_of(opcode) == 0x7 ==> mnemonic_of(opcode) == Mnemonic::AddImmediate,
        family_of(opcode) == 0x9 ==> mnemonic_of(opcode) == Mnemonic::SkipNotEqualRegister,
        family_of(opcode) == 0xA ==> mnemonic_of(opcode) == Mnemonic::SetIndex,
        family_of(opcode) == 0xB ==> mnemonic_of(opcode) == Mnemonic::JumpOffset,
        family_of(opcode) == 0xC ==> mnemonic_of(opcode) == Mnemonic::Random,
        family_of(opcode) == 0xD ==> mnemonic_of(opcode) == Mnemonic::Draw,
{
    lemma_family_mask(opcode);
}

/// In family `0` the two specific words come before the general one: a low
/// byte of `E0` or `EE` never gives a machine routine call.
pub proof fn lemma_family_zero(opcode: u16)
    requires
        family_of(opcode) == 0x0,
    ensures
        nn_of(opcode) == 0xE0 <==> mnemonic_of(opcode) == Mnemonic::ClearScreen,
        nn_of(opcode) == 0xEE <==> mnemonic_of(opcode) == Mnemonic::Return,
        nn_of(opcode) != 0xE0 && nn_of(opcode) != 0xEE <==> mnemonic_of(opcode) == Mnemonic::Sys,
{
    lemma_family_mask(opcode);
}

/// The class of a word does not depend on its register index `X`: two words
/// of one family with the same low byte have the same class.
pub proof fn lemma_class_ignores_x(a: u16, b: u16)
    requires
        family_of(a) == family_of(b),
        nn_of(a) == nn_of(b),
    ensures
        mnemonic_of(a) == mnemonic_of(b),
{
    lemma_family_mask(a);
    lemma_family_mask(b);
    assert(a & 0x000F == (a & 0x00FF) & 0x000F) by (bit_vector);
    assert(b & 0x000F == (b & 0x00FF) & 0x000F) by (bit_vector);
}

/// Computes the class of a word.
pub fn mnemonic(opcode: u16) -> (m: Mnemonic)
    ensures
        m == mnemonic_of(opcode),
{
    match opcode & 0xF000 {
        0x0000 => match opcode & 0x00FF {
            0x00EE => Mnemonic::Return,
            0x00E0 => Mnemonic::ClearScreen,
            _ => Mnemonic::Sys,
        },
        0x1000 => Mnemonic::Jump,
        0x2000 => Mnemonic::Call,
        0x3000 => Mnemonic::SkipEqualImmediate,
        0x4000 => Mnemonic::SkipNotEqualImmediate,
        0x5000 => Mnemonic::SkipEqualRegister,
        0x6000 => Mnemonic::SetImmediate,
        0x7000 => Mnemonic::AddImmediate,
        0x8000 => match opcode & 0x000F {
            0x0000 => Mnemonic::Copy,
            0x0001 => Mnemonic::Or,
            0x0002 => Mnemonic::And,
            0x0003 => Mnemonic::Xor,
            0x0004 => Mnemonic::AddRegister,
            0x0005 => Mnemonic::Subtract,
            0x0006 => Mnemonic::ShiftRight,
            0x0007 => Mnemonic::SubtractReversed,
            0x000E => Mnemonic::ShiftLeft,
            _ => Mnemonic::Unknown,
        },
        0x9000 => Mnemonic::SkipNotEqualRegister,
        0xA000 => Mnemonic::SetIndex,
        0xB000 => Mnemonic::JumpOffset,
        0xC000 => Mnemonic::Random,
        0xD000 => Mnemonic::Draw,
        0xE000 => match opcode & 0x00FF {
            0x009E => Mnemonic::SkipKeyPressed,
            0x00A1 => Mnemonic::SkipKeyNotPressed,
            _ => Mnemonic::Unknown,
        },
        0xF000 => match opcode & 0x00FF {
            0x0007 => Mnemonic::ReadDelay,
            0x000A => Mnemonic::WaitKey,
            0x0015 => Mnemonic::SetDelay,
            0x0018 => Mnemonic::SetSound,
            0x001E => Mnemonic::AddIndex,
            0x0029 => Mnemonic::FontAddress,
            0x0033 => Mnemonic::StoreDecimal,
            0x0055 => Mnemonic::StoreRegisters,
            0x0065 => Mnemonic::LoadRegisters,
            _ => Mnemonic::Unknown,
        },
        _ => Mnemonic::Unknown,
    }
}

} // verus!
