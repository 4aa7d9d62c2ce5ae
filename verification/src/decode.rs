//! Decoding: from a 16-bit word to its [`Instruction`].
//!
//! [`decode`] is total. A word whose second field selects no instruction of
//! its family decodes to the record of [`Mnemonic::Unknown`], which holds the
//! word like any other record.

use vstd::prelude::*;
use crate::fields::{family_of, n_of, nn_of, parse_nnn, parse_xnn, parse_xy0, parse_xyn};
use crate::instruction::{rendered, Instruction, InstructionText};
use crate::mnemonic::{
    defined_in_x8, defined_in_xe, defined_in_xf, lemma_description_nonempty, lemma_name_len,
    lemma_unknown_exactly, mnemonic_of, mnemonic_x0, mnemonic_x8, mnemonic_xe, mnemonic_xf,
    Mnemonic,
};
use crate::text::{push_decimal, push_upper_hex, push_upper_hex4};

verus! {

/// The record that decoding a word gives.
pub open spec fn decoded(opcode: u16) -> InstructionText {
    rendered(mnemonic_of(opcode), opcode)
}

/// Decoding is total: every word has a record, which holds the word, a
/// short code of four characters and a summary that is not empty.
pub proof fn lemma_decoded_total(opcode: u16)
    ensures
        decoded(opcode).opcode == opcode,
        decoded(opcode).name.len() == 4,
        decoded(opcode).description.len() > 0,
{
    lemma_name_len(mnemonic_of(opcode));
    lemma_description_nonempty(mnemonic_of(opcode));
}

/// Decoding is a function of the word: two records decoded from the same
/// word are the same.
pub proof fn lemma_decode_deterministic(first: Instruction, second: Instruction, opcode: u16)
    requires
        first@ == decoded(opcode),
        second@ == decoded(opcode),
    ensures
        first@ == second@,
        first.opcode == second.opcode,
        first.name@ == second.name@,
        first.description@ == second.description@,
        first.decoded@ == second.decoded@,
{
}

/// The word fixes the whole record: a consistent record is the decoding of
/// its word, so two consistent records of one word are the same.
pub proof fn lemma_word_fixes_record(first: InstructionText, second: InstructionText)
    requires
        first.consistent(),
        second.consistent(),
        first.opcode == second.opcode,
    ensures
        first == decoded(first.opcode),
        first == second,
{
}

/// The class of a word fixes its short code and its summary: two words of
/// one class share both.
pub proof fn lemma_class_fixes_text(a: u16, b: u16)
    requires
        mnemonic_of(a) == mnemonic_of(b),
    ensures
        decoded(a).name == decoded(b).name,
        decoded(a).description == decoded(b).description,
{
}

/// A word whose second field selects no instruction of its family decodes
/// to the record of the unknown class, which holds the word.
pub proof fn lemma_unknown_keeps_word(opcode: u16)
    requires
        family_of(opcode) == 0x8 && !defined_in_x8(n_of(opcode)) || family_of(opcode) == 0xE
            && !defined_in_xe(nn_of(opcode)) || family_of(opcode) == 0xF && !defined_in_xf(
            nn_of(opcode),
        ),
    ensures
        mnemonic_of(opcode) == Mnemonic::Unknown,
        decoded(opcode) == rendered(Mnemonic::Unknown, opcode),
        decoded(opcode).opcode == opcode,
{
    lemma_unknown_exactly(opcode);
}

/// Reads a word that is no instruction: a data word.
pub fn decode_unknown(opcode: u16) -> (instruction: Instruction)
    ensures
        instruction@ == rendered(Mnemonic::Unknown, opcode),
{
    let mut decoded = String::from_str("DW #");
    push_upper_hex4(&mut decoded, opcode as u64);
    Instruction::new(opcode, "????", "UNKNOWN OP", decoded)
}

/// Decodes a word of family `0` by its low byte: `EE` is a return, `E0`
/// clears the screen, and every other word calls the machine routine at
/// `NNN`.
pub fn decode_x0000(opcode: u16) -> (instruction: Instruction)
    ensures
        instruction@ == rendered(mnemonic_x0(opcode), opcode),
{
    match opcode & 0x00FF {
        0x00EE => decode_x00ee(opcode),
        0x00E0 => decode_x00e0(opcode),
        _ => {
            let nnn = parse_nnn(opcode);
            let mut decoded = String::from_str("#");
            push_upper_hex(&mut decoded, nnn as u64);
            Instruction::new(opcode, "0NNN", "EXECUTE NNN", decoded)
        },
    }
}

/// Reads a word as `00E0`, clear the screen.
pub fn decode_x00e0(opcode: u16) -> (instruction: Instruction)
    ensures
        instruction@ == rendered(Mnemonic::ClearScreen, opcode),
{
    let decoded = String::from_str("CLS");
    Instruction::new(opcode, "00E0", "CLEAR SCREEN", decoded)
}

/// Reads a word as `00EE`, return from a subroutine.
pub fn decode_x00ee(opcode: u16) -> (instruction: Instruction)
    ensures
        instruction@ == rendered(Mnemonic::Return, opcode),
{
    let decoded = String::from_str("RETURN");
    Instruction::new(opcode, "00EE", "RETURN FROM SUBROUTINE", decoded)
}

/// Reads a word as `1NNN`, jump to `NNN`.
pub fn decode_x1nnn(opcode: u16) -> (instruction: Instruction)
    ensures
        instruction@ == rendered(Mnemonic::Jump, opcode),
{
    let nnn = parse_nnn(opcode);
    let mut decoded = String::from_str("JMP #");
    push_upper_hex(&mut decoded, nnn as u64);
    Instruction::new(opcode, "1NNN", "JUMP TO NNN", decoded)
}

/// Reads a word as `2NNN`, call the subroutine at `NNN`.
pub fn decode_x2nnn(opcode: u16) -> (instruction: Instruction)
    ensures
        instruction@ == rendered(Mnemonic::Call, opcode),
{
    let nnn = parse_nnn(opcode);
    let mut decoded = String::from_str("CALL ");
    push_upper_hex(&mut decoded, nnn as u64);
    Instruction::new(opcode, "2NNN", "CALL NNN", decoded)
}

/// Reads a word as `3XNN`, skip if `VX` equals `NN`.
pub fn decode_x3xnn(opcode: u16) -> (instruction: Instruction)
    ensures
        instruction@ == rendered(Mnemonic::SkipEqualImmediate, opcode),
{
    let (x, nn) = parse_xnn(opcode);
    let mut decoded = String::from_str("V");
    push_upper_hex(&mut decoded, x as u64);
    decoded.append("==");
    push_upper_hex(&mut decoded, nn as u64);
    Instruction::new(opcode, "3XNN", "SKIPIF VX==NN", decoded)
}

/// Reads a word as `4XNN`, skip if `VX` differs from `NN`.
pub fn decode_x4xnn(opcode: u16) -> (instruction: Instruction)
    ensures
        instruction@ == rendered(Mnemonic::SkipNotEqualImmediate, opcode),
{
    let (x, nn) = parse_xnn(opcode);
    let mut decoded = String::from_str("V");
    push_upper_hex(&mut decoded, x as u64);
    decoded.append("!=");
    push_upper_hex(&mut decoded, nn as u64);
    Instruction::new(opcode, "4XNN", "SKIPIF VX!=NN", decoded)
}

/// Reads a word as `5XY0`, skip if `VX` equals `VY`.
pub fn decode_x5xy0(opcode: u16) -> (instruction: Instruction)
    ensures
        instruction@ == rendered(Mnemonic::SkipEqualRegister, opcode),
{
    let (x, y) = parse_xy0(opcode);
    let mut decoded = String::from_str("V");
    push_upper_hex(&mut decoded, x as u64);
    decoded.append("=V");
    push_upper_hex(&mut decoded, y as u64);
    Instruction::new(opcode, "5XY0", "SKIPIF VX=VY", decoded)
}

/// Reads a word as `6XNN`, set `VX` to `NN`.
pub fn decode_x6xnn(opcode: u16) -> (instruction: Instruction)
    ensures
        instruction@ == rendered(Mnemonic::SetImmediate, opcode),
{
    let (x, nn) = parse_xnn(opcode);
    let mut decoded = String::from_str("V");
    push_upper_hex(&mut decoded, x as u64);
    decoded.append("=");
    push_upper_hex(&mut decoded, nn as u64);
    Instruction::new(opcode, "6XNN", "SET VX=NN", decoded)
}

/// Reads a word as `7XNN`, add `NN` to `VX`.
pub fn decode_x7xnn(opcode: u16) -> (instruction: Instruction)
    ensures
        instruction@ == rendered(Mnemonic::AddImmediate, opcode),
{
    let (x, nn) = parse_xnn(opcode);
    let mut decoded = String::from_str("V");
    push_upper_hex(&mut decoded, x as u64);
    decoded.append("+=");
    push_upper_hex(&mut decoded, nn as u64);
    Instruction::new(opcode, "7XNN", "ADD VX=VX+NN", decoded)
}

/// Decodes a word of family `8` by its low nibble.
pub fn decode_x8000(opcode: u16) -> (instruction: Instruction)
    ensures
        instruction@ == rendered(mnemonic_x8(opcode), opcode),
{
    match opcode & 0x000F {
        0x0000 => decode_x8xy0(opcode),
        0x0001 => decode_x8xy1(opcode),
        0x0002 => decode_x8xy2(opcode),
        0x0003 => decode_x8xy3(opcode),
        0x0004 => decode_x8xy4(opcode),
        0x0005 => decode_x8xy5(opcode),
        0x0006 => decode_x8xy6(opcode),
        0x0007 => decode_x8xy7(opcode),
        0x000E => decode_x8xye(opcode),
        _ => decode_unknown(opcode),
    }
}

/// Reads a word as `8XY0`, copy a register.
pub fn decode_x8xy0(opcode: u16) -> (instruction: Instruction)
    ensures
        instruction@ == rendered(Mnemonic::Copy, opcode),
{
    let (x, y) = parse_xy0(opcode);
    let mut decoded = String::from_str("V");
    push_upper_hex(&mut decoded, x as u64);
    decoded.append("=V");
    push_upper_hex(&mut decoded, y as u64);
    Instruction::new(opcode, "8XY0", "STORE VX IN VY", decoded)
}

/// Reads a word as `8XY1`, bitwise OR.
pub fn decode_x8xy1(opcode: u16) -> (instruction: Instruction)
    ensures
        instruction@ == rendered(Mnemonic::Or, opcode),
{
    let (x, y) = parse_xy0(opcode);
    let mut decoded = String::from_str("VX=V");
    push_upper_hex(&mut decoded, x as u64);
    decoded.append("|V");
    push_upper_hex(&mut decoded, y as u64);
    Instruction::new(opcode, "8XY1", "SET VX TO VX|VY", decoded)
}

/// Reads a word as `8XY2`, bitwise AND.
pub fn decode_x8xy2(opcode: u16) -> (instruction: Instruction)
    ensures
        instruction@ == rendered(Mnemonic::And, opcode),
{
    let (x, y) = parse_xy0(opcode);
    let mut decoded = String::from_str("VX=V");
    push_upper_hex(&mut decoded, x as u64);
    decoded.append("&V");
    push_upper_hex(&mut decoded, y as u64);
    Instruction::new(opcode, "8XY2", "SET VX TO VX&VY", decoded)
}

/// Reads a word as `8XY3`, bitwise XOR.
pub fn decode_x8xy3(opcode: u16) -> (instruction: Instruction)
    ensures
        instruction@ == rendered(Mnemonic::Xor, opcode),
{
    let (x, y) = parse_xy0(opcode);
    let mut decoded = String::from_str("VX=V");
    push_upper_hex(&mut decoded, x as u64);
    decoded.append("^V");
    push_upper_hex(&mut decoded, y as u64);
    Instruction::new(opcode, "8XY3", "SET VX TO VX^VY", decoded)
}

/// Reads a word as `8XY4`, add with carry.
pub fn decode_x8xy4(opcode: u16) -> (instruction: Instruction)
    ensures
        instruction@ == rendered(Mnemonic::AddRegister, opcode),
{
    let (x, y) = parse_xy0(opcode);
    let mut decoded = String::from_str("VX=V");
    push_upper_hex(&mut decoded, x as u64);
    decoded.append("+V");
    push_upper_hex(&mut decoded, y as u64);
    Instruction::new(opcode, "8XY4", "SET VX TO VX+VY", decoded)
}

/// Reads a word as `8XY5`, subtract with borrow.
pub fn decode_x8xy5(opcode: u16) -> (instruction: Instruction)
    ensures
        instruction@ == rendered(Mnemonic::Subtract, opcode),
{
    let (x, y) = parse_xy0(opcode);
    let mut decoded = String::from_str("VX=V");
    push_upper_hex(&mut decoded, x as u64);
    decoded.append("-V");
    push_upper_hex(&mut decoded, y as u64);
    Instruction::new(opcode, "8XY5", "SET VX TO VX-VY", decoded)
}

/// Reads a word as `8XY6`, shift right.
pub fn decode_x8xy6(opcode: u16) -> (instruction: Instruction)
    ensures
        instruction@ == rendered(Mnemonic::ShiftRight, opcode),
{
    let (_, y) = parse_xy0(opcode);
    let mut decoded = String::from_str("VX=V");
    push_upper_hex(&mut decoded, y as u64);
    decoded.append(">>1");
    Instruction::new(opcode, "8XY6", "SET VX TO VY>>1", decoded)
}

/// Reads a word as `8XY7`, subtract the other way round.
pub fn decode_x8xy7(opcode: u16) -> (instruction: Instruction)
    ensures
        instruction@ == rendered(Mnemonic::SubtractReversed, opcode),
{
    let (x, y) = parse_xy0(opcode);
    let mut decoded = String::from_str("VX=V");
    push_upper_hex(&mut decoded, y as u64);
    decoded.append("-V");
    push_upper_hex(&mut decoded, x as u64);
    Instruction::new(opcode, "8XY7", "SET VX TO VY-VX", decoded)
}

/// Reads a word as `8XYE`, shift left.
pub fn decode_x8xye(opcode: u16) -> (instruction: Instruction)
    ensures
        instruction@ == rendered(Mnemonic::ShiftLeft, opcode),
{
    let (_, y) = parse_xy0(opcode);
    let mut decoded = String::from_str("VX=V");
    push_upper_hex(&mut decoded, y as u64);
    decoded.append("<<1");
    Instruction::new(opcode, "8XYE", "SET VX TO VY<<1", decoded)
}

/// Reads a word as `9XY0`, skip if `VX` differs from `VY`.
pub fn decode_x9xy0(opcode: u16) -> (instruction: Instruction)
    ensures
        instruction@ == rendered(Mnemonic::SkipNotEqualRegister, opcode),
{
    let (x, y) = parse_xy0(opcode);
    let mut decoded = String::from_str("V");
    push_upper_hex(&mut decoded, x as u64);
    decoded.append("!=V");
    push_upper_hex(&mut decoded, y as u64);
    Instruction::new(opcode, "9XY0", "SKIPIF VX!=VY", decoded)
}

/// Reads a word as `ANNN`, set the index register.
pub fn decode_xannn(opcode: u16) -> (instruction: Instruction)
    ensures
        instruction@ == rendered(Mnemonic::SetIndex, opcode),
{
    let nnn = parse_nnn(opcode);
    let mut decoded = String::from_str("I=");
    push_upper_hex(&mut decoded, nnn as u64);
    Instruction::new(opcode, "ANNN", "SET I=NNN", decoded)
}

/// Reads a word as `BNNN`, jump to `NNN` plus `V0`.
pub fn decode_xbnnn(opcode: u16) -> (instruction: Instruction)
    ensures
        instruction@ == rendered(Mnemonic::JumpOffset, opcode),
{
    let nnn = parse_nnn(opcode);
    let mut decoded = String::new();
    push_decimal(&mut decoded, nnn as u64);
    decoded.append("+V0");
    assert(decoded@ =~= Mnemonic::JumpOffset.operands_text(opcode));
    Instruction::new(opcode, "BNNN", "JUMP TO NNN+V0", decoded)
}

/// Reads a word as `CXNN`, a masked random byte.
pub fn decode_xcxnn(opcode: u16) -> (instruction: Instruction)
    ensures
        instruction@ == rendered(Mnemonic::Random, opcode),
{
    let (x, nn) = parse_xnn(opcode);
    let mut decoded = String::from_str("V");
    push_upper_hex(&mut decoded, x as u64);
    decoded.append("=RAND & ");
    push_upper_hex(&mut decoded, nn as u64);
    Instruction::new(opcode, "CXNN", "VX=RAND() & NN", decoded)
}

/// Reads a word as `DXYN`, draw a sprite.
pub fn decode_xdxyn(opcode: u16) -> (instruction: Instruction)
    ensures
        instruction@ == rendered(Mnemonic::Draw, opcode),
{
    let (x, y, n) = parse_xyn(opcode);
    let mut decoded = String::from_str("V");
    push_upper_hex(&mut decoded, x as u64);
    decoded.append(", V");
    push_upper_hex(&mut decoded, y as u64);
    decoded.append(", N");
    push_upper_hex(&mut decoded, n as u64);
    Instruction::new(opcode, "DXYN", "DRAW VX, VY, N", decoded)
}

/// Decodes a word of family `E` by its low byte.
pub fn decode_xe000(opcode: u16) -> (instruction: Instruction)
    ensures
        instruction@ == rendered(mnemonic_xe(opcode), opcode),
{
    match opcode & 0x00FF {
        0x009E => decode_xex9e(opcode),
        0x00A1 => decode_xexa1(opcode),
        _ => decode_unknown(opcode),
    }
}

/// Reads a word as `EX9E`, skip if the key in `VX` is down.
pub fn decode_xex9e(opcode: u16) -> (instruction: Instruction)
    ensures
        instruction@ == rendered(Mnemonic::SkipKeyPressed, opcode),
{
    let (x, _) = parse_xy0(opcode);
    let mut decoded = String::from_str("SKIPIF KEY==V");
    push_decimal(&mut decoded, x as u64);
    Instruction::new(opcode, "EX9E", "SKIPIF VX==KEY", decoded)
}

/// Reads a word as `EXA1`, skip if the key in `VX` is up.
pub fn decode_xexa1(opcode: u16) -> (instruction: Instruction)
    ensures
        instruction@ == rendered(Mnemonic::SkipKeyNotPressed, opcode),
{
    let (x, _) = parse_xy0(opcode);
    let mut decoded = String::from_str("SKIPIF KEY=!V");
    push_decimal(&mut decoded, x as u64);
    Instruction::new(opcode, "EXA1", "SKIPIF VX=!KEY", decoded)
}

/// Decodes a word of family `F` by its low byte.
pub fn decode_xf000(opcode: u16) -> (instruction: Instruction)
    ensures
        instruction@ == rendered(mnemonic_xf(opcode), opcode),
{
    match opcode & 0x00FF {
        0x0007 => decode_xfx07(opcode),
        0x000A => decode_xfx0a(opcode),
        0x0015 => decode_xfx15(opcode),
        0x0018 => decode_xfx18(opcode),
        0x001E => decode_xfx1e(opcode),
        0x0029 => decode_xfx29(opcode),
        0x0033 => decode_xfx33(opcode),
        0x0055 => decode_xfx55(opcode),
        0x0065 => decode_xfx65(opcode),
        _ => decode_unknown(opcode),
    }
}

/// Reads a word as `FX07`, read the delay timer.
pub fn decode_xfx07(opcode: u16) -> (instruction: Instruction)
    ensures
        instruction@ == rendered(Mnemonic::ReadDelay, opcode),
{
    let (x, _) = parse_xy0(opcode);
    let mut decoded = String::from_str("V");
    push_decimal(&mut decoded, x as u64);
    decoded.append("=DELAY");
    Instruction::new(opcode, "FX07", "STORE VX IN DELAY TIMER", decoded)
}

/// Reads a word as `FX0A`, wait for a key press.
pub fn decode_xfx0a(opcode: u16) -> (instruction: Instruction)
    ensures
        instruction@ == rendered(Mnemonic::WaitKey, opcode),
{
    let (x, _) = parse_xy0(opcode);
    let mut decoded = String::from_str("V");
    push_decimal(&mut decoded, x as u64);
    decoded.append("=KEY");
    Instruction::new(opcode, "FX0A", "STORE VX TO KEY PRESS", decoded)
}

/// Reads a word as `FX15`, set the delay timer.
pub fn decode_xfx15(opcode: u16) -> (instruction: Instruction)
    ensures
        instruction@ == rendered(Mnemonic::SetDelay, opcode),
{
    let (x, _) = parse_xy0(opcode);
    let mut decoded = String::from_str("DELAY TIMER=V");
    push_decimal(&mut decoded, x as u64);
    Instruction::new(opcode, "FX15", "SET DELAY TO VX", decoded)
}

/// Reads a word as `FX18`, set the sound timer.
pub fn decode_xfx18(opcode: u16) -> (instruction: Instruction)
    ensures
        instruction@ == rendered(Mnemonic::SetSound, opcode),
{
    let (x, _) = parse_xy0(opcode);
    let mut decoded = String::from_str("SOUND TIMER=V");
    push_decimal(&mut decoded, x as u64);
    Instruction::new(opcode, "FX18", "SET SOUND TO VX", decoded)
}

/// Reads a word as `FX1E`, add `VX` to the index register.
pub fn decode_xfx1e(opcode: u16) -> (instruction: Instruction)
    ensures
        instruction@ == rendered(Mnemonic::AddIndex, opcode),
{
    let (x, _) = parse_xy0(opcode);
    let mut decoded = String::from_str("V");
    push_decimal(&mut decoded, x as u64);
    decoded.append("+I");
    Instruction::new(opcode, "FX1E", "ADD VX TO I", decoded)
}

/// Reads a word as `FX29`, point the index register at a font sprite.
pub fn decode_xfx29(opcode: u16) -> (instruction: Instruction)
    ensures
        instruction@ == rendered(Mnemonic::FontAddress, opcode),
{
    let (x, _) = parse_xy0(opcode);
    let mut decoded = String::from_str("SET I, V");
    push_decimal(&mut decoded, x as u64);
    Instruction::new(opcode, "FX29", "SET I TO HEX AT VX", decoded)
}

/// Reads a word as `FX33`, store the decimal digits of `VX`.
pub fn decode_xfx33(opcode: u16) -> (instruction: Instruction)
    ensures
        instruction@ == rendered(Mnemonic::StoreDecimal, opcode),
{
    let (x, _) = parse_xy0(opcode);
    let mut decoded = String::from_str("BCD V");
    push_decimal(&mut decoded, x as u64);
    Instruction::new(opcode, "FX33", "STORE BCD OF VX AT I", decoded)
}

/// Reads a word as `FX55`, store the registers `V0` to `VX`.
pub fn decode_xfx55(opcode: u16) -> (instruction: Instruction)
    ensures
        instruction@ == rendered(Mnemonic::StoreRegisters, opcode),
{
    let (x, _) = parse_xy0(opcode);
    let mut decoded = String::from_str("STORE V0..V");
    push_decimal(&mut decoded, x as u64);
    Instruction::new(opcode, "FX55", "STORE V0..VX AT I", decoded)
}

/// Reads a word as `FX65`, load the registers `V0` to `VX`.
pub fn decode_xfx65(opcode: u16) -> (instruction: Instruction)
    ensures
        instruction@ == rendered(Mnemonic::LoadRegisters, opcode),
{
    let (x, _) = parse_xy0(opcode);
    let mut decoded = String::from_str("LOAD V0..V");
    push_decimal(&mut decoded, x as u64);
    Instruction::new(opcode, "FX65", "LOAD V0..VX FROM I", decoded)
}

/// Decodes a word: the family by the top nibble, then the instruction
/// within the family. Every word has a record; it holds the word, the short
/// code and summary of the word's class, neither of them empty, and the
/// operand text of the class for the word.
pub fn decode(opcode: u16) -> (instruction: Instruction)
    ensures
        instruction@ == decoded(opcode),
        instruction@.consistent(),
        instruction.opcode == opcode,
        instruction.name@ == mnemonic_of(opcode).name_text(),
        instruction.description@ == mnemonic_of(opcode).description_text(),
        instruction.decoded@ == mnemonic_of(opcode).operands_text(opcode),
        instruction.name@.len() == 4,
        instruction.description@.len() > 0,
{
    proof {
        lemma_name_len(mnemonic_of(opcode));
        lemma_description_nonempty(mnemonic_of(opcode));
    }
    match opcode & 0xF000 {
        0x0000 => decode_x0000(opcode),
        0x1000 => decode_x1nnn(opcode),
        0x2000 => decode_x2nnn(opcode),
        0x3000 => decode_x3xnn(opcode),
        0x4000 => decode_x4xnn(opcode),
        0x5000 => decode_x5xy0(opcode),
        0x6000 => decode_x6xnn(opcode),
        0x7000 => decode_x7xnn(opcode),
        0x8000 => decode_x8000(opcode),
        0x9000 => decode_x9xy0(opcode),
        0xA000 => decode_xannn(opcode),
        0xB000 => decode_xbnnn(opcode),
        0xC000 => decode_xcxnn(opcode),
        0xD000 => decode_xdxyn(opcode),
        0xE000 => decode_xe000(opcode),
        0xF000 => decode_xf000(opcode),
        _ => decode_unknown(opcode),
    }
}

} // verus!
