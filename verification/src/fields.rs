//! The sub-fields of a 16-bit instruction word.
//!
//! A word is made of four nibbles, written `F X Y N` from the most
//! significant one down. `NN` is the low byte (`Y N`) and `NNN` the low
//! twelve bits (`X Y N`).

use vstd::prelude::*;

verus! {

/// The family nibble: the top four bits, a value in `0..16`.
pub open spec fn family_of(opcode: u16) -> u16 {
    (opcode & 0xF000) >> 12
}

/// The 12-bit address operand `NNN`.
pub open spec fn nnn_of(opcode: u16) -> u16 {
    opcode & 0x0FFF
}

/// The first register index `X`.
pub open spec fn x_of(opcode: u16) -> u16 {
    (opcode & 0x0F00) >> 8
}

/// The second register index `Y`.
pub open spec fn y_of(opcode: u16) -> u16 {
    (opcode & 0x00F0) >> 4
}

/// The 4-bit immediate `N`.
pub open spec fn n_of(opcode: u16) -> u16 {
    opcode & 0x000F
}

/// The 8-bit immediate `NN`.
pub open spec fn nn_of(opcode: u16) -> u16 {
    opcode & 0x00FF
}

/// Each field is the corresponding group of base-16 digits of the word.
pub proof fn lemma_fields_are_digits(opcode: u16)
    by (bit_vector)
    ensures
        family_of(opcode) == opcode / 0x1000,
        nnn_of(opcode) == opcode % 0x1000,
        x_of(opcode) == (opcode / 0x100) % 0x10,
        y_of(opcode) == (opcode / 0x10) % 0x10,
        n_of(opcode) == opcode % 0x10,
        nn_of(opcode) == opcode % 0x100,
{
}

/// Register indices, the family and `N` are below 16, `NN` is below 256 and
/// `NNN` below 4096.
pub proof fn lemma_field_ranges(opcode: u16)
    ensures
        family_of(opcode) < 16,
        x_of(opcode) < 16,
        y_of(opcode) < 16,
        n_of(opcode) < 16,
        nn_of(opcode) < 256,
        nnn_of(opcode) < 4096,
{
    lemma_fields_are_digits(opcode);
}

/// The four nibbles determine the word, and the wider fields are made of
/// the narrower ones.
pub proof fn lemma_fields_recompose(opcode: u16)
    by (bit_vector)
    ensures
        opcode == family_of(opcode) * 0x1000 + x_of(opcode) * 0x100 + y_of(opcode) * 0x10 + n_of(
            opcode,
        ),
        nn_of(opcode) == y_of(opcode) * 0x10 + n_of(opcode),
        nnn_of(opcode) == x_of(opcode) * 0x100 + nn_of(opcode),
        opcode == family_of(opcode) * 0x1000 + nnn_of(opcode),
{
}

/// Extracts the address operand `NNN`.
pub fn parse_nnn(opcode: u16) -> (nnn: u16)
    ensures
        nnn == nnn_of(opcode),
        nnn == opcode % 0x1000,
{
    proof {
        lemma_fields_are_digits(opcode);
    }
    opcode & 0x0FFF
}

/// Extracts the register index `X` and the immediate `NN`.
pub fn parse_xnn(opcode: u16) -> (fields: (u16, u16))
    ensures
        fields.0 == x_of(opcode),
        fields.1 == nn_of(opcode),
        fields.0 == (opcode / 0x100) % 0x10,
        fields.1 == opcode % 0x100,
{
    proof {
        lemma_fields_are_digits(opcode);
    }
    let x: u16 = (opcode & 0x0F00) >> 8;
    let nn: u16 = opcode & 0x00FF;
    (x, nn)
}

/// Extracts the register indices `X` and `Y`.
pub fn parse_xy0(opcode: u16) -> (fields: (u16, u16))
    ensures
        fields.0 == x_of(opcode),
        fields.1 == y_of(opcode),
        fields.0 == (opcode / 0x100) % 0x10,
        fields.1 == (opcode / 0x10) % 0x10,
{
    proof {
        lemma_fields_are_digits(opcode);
    }
    let x: u16 = (opcode & 0x0F00) >> 8;
    let y: u16 = (opcode & 0x00F0) >> 4;
    (x, y)
}

/// Extracts the register indices `X` and `Y` and the nibble `N`.
pub fn parse_xyn(opcode: u16) -> (fields: (u16, u16, u16))
    ensures
        fields.0 == x_of(opcode),
        fields.1 == y_of(opcode),
        fields.2 == n_of(opcode),
        fields.0 == (opcode / 0x100) % 0x10,
        fields.1 == (opcode / 0x10) % 0x10,
        fields.2 == opcode % 0x10,
{
    proof {
        lemma_fields_are_digits(opcode);
    }
    let x: u16 = (opcode & 0x0F00) >> 8;
    let y: u16 = (opcode & 0x00F0) >> 4;
    let n: u16 = opcode & 0x000F;
    (x, y, n)
}

} // verus!
