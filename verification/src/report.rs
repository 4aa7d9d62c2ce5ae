//! The listing: one line for each word of an image, in ascending order of
//! address.

use vstd::prelude::*;
use crate::decode::{decode, decoded};
use crate::instruction::{Instruction, InstructionText};
use crate::loader::{address_at, entry, load, word_at, word_count};
use crate::text::{lemma_upper_hex4_len, push_upper_hex4, upper_hex4};

verus! {

/// The line of an instruction at an address: `0x`, the address in at least
/// four hexadecimal digits, a blank, and the instruction's own line.
pub open spec fn line_of(address: usize, instruction: InstructionText) -> Seq<char> {
    "0x"@ + upper_hex4(address as nat) + " "@ + instruction.line()
}

/// Below address `0x10000` the columns of a line stand at fixed places: the
/// address in the characters 2 to 5, the word in the characters 7 to 10, and
/// the short code from character 14 on.
pub proof fn lemma_columns_fixed(address: usize, instruction: InstructionText)
    requires
        address < 0x10000,
    ensures
        line_of(address, instruction).len() == 16 + instruction.name.len()
            + instruction.description.len() + instruction.decoded.len(),
        line_of(address, instruction).subrange(0, 2) == "0x"@,
        line_of(address, instruction).subrange(2, 6) == upper_hex4(address as nat),
        line_of(address, instruction).subrange(6, 7) == " "@,
        line_of(address, instruction).subrange(7, 11) == upper_hex4(instruction.opcode as nat),
        line_of(address, instruction).subrange(11, 14) == " - "@,
        line_of(address, instruction).subrange(14, 14 + instruction.name.len() as int)
            == instruction.name,
{
    reveal_strlit("0x");
    reveal_strlit(" ");
    reveal_strlit(" - ");
    reveal_strlit("\t");
    lemma_upper_hex4_len(address as nat);
    lemma_upper_hex4_len(instruction.opcode as nat);
    let line = line_of(address, instruction);
    assert(line.subrange(0, 2) =~= "0x"@);
    assert(line.subrange(2, 6) =~= upper_hex4(address as nat));
    assert(line.subrange(6, 7) =~= " "@);
    assert(line.subrange(7, 11) =~= upper_hex4(instruction.opcode as nat));
    assert(line.subrange(11, 14) =~= " - "@);
    assert(line.subrange(14, 14 + instruction.name.len() as int) =~= instruction.name);
}

/// The names of the listing's columns.
pub fn column_header() -> (text: &'static str)
    ensures
        text@ == "ADDR   OP     INST\tDESCRIPTION\tINFO"@,
{
    "ADDR   OP     INST\tDESCRIPTION\tINFO"
}

/// The rule below the column names.
pub fn header_rule() -> (text: &'static str)
    ensures
        text@ == "-------------------------------------------------"@,
{
    "-------------------------------------------------"
}

/// Renders the line of an instruction at an address.
pub fn format_line(address: usize, instruction: &Instruction) -> (line: String)
    ensures
        line@ == line_of(address, instruction@),
{
    let mut line = String::from_str("0x");
    push_upper_hex4(&mut line, address as u64);
    line.append(" ");
    let text = instruction.to_string();
    line.append(text.as_str());
    line
}

/// Record `k` of an image loaded at `base`: the address and the decoding of
/// word `k`, or `None` from the word count on. Records can be asked for one
/// by one, in any order and again.
pub fn record_at(bytes: &[u8], base: usize, k: usize) -> (found: Option<(usize, Instruction)>)
    requires
        base + bytes@.len() <= usize::MAX,
    ensures
        match found {
            Some((address, instruction)) => k < word_count(bytes@) && address == address_at(
                base,
                k as int,
            ) && instruction@ == decoded(word_at(bytes@, k as int)),
            None => k >= word_count(bytes@),
        },
{
    match entry(bytes, base, k) {
        Some((address, word)) => Some((address, decode(word))),
        None => None,
    }
}

/// Decodes every word of a loaded program, keeping addresses and order.
pub fn disassemble(words: &[(usize, u16)]) -> (records: Vec<(usize, Instruction)>)
    ensures
        records@.len() == words@.len(),
        forall|k: int|
            0 <= k < records@.len() ==> (#[trigger] records@[k]).0 == words@[k].0
                && records@[k].1@ == decoded(words@[k].1) && records@[k].1@.consistent(),
{
    let mut records: Vec<(usize, Instruction)> = Vec::new();
    let mut k: usize = 0;
    while k < words.len()
        invariant
            k <= words@.len(),
            records@.len() == k,
            forall|j: int|
                0 <= j < k ==> (#[trigger] records@[j]).0 == words@[j].0 && records@[j].1@
                    == decoded(words@[j].1),
        decreases words@.len() - k,
    {
        let (address, word) = words[k];
        records.push((address, decode(word)));
        k += 1;
    }
    records
}

/// Renders the line of every record, keeping the order.
pub fn format_lines(records: &[(usize, Instruction)]) -> (lines: Vec<String>)
    ensures
        lines@.len() == records@.len(),
        forall|k: int|
            0 <= k < lines@.len() ==> (#[trigger] lines@[k])@ == line_of(
                records@[k].0,
                records@[k].1@,
            ),
{
    let mut lines: Vec<String> = Vec::new();
    let mut k: usize = 0;
    while k < records.len()
        invariant
            k <= records@.len(),
            lines@.len() == k,
            forall|j: int|
                0 <= j < k ==> (#[trigger] lines@[j])@ == line_of(records@[j].0, records@[j].1@),
        decreases records@.len() - k,
    {
        lines.push(format_line(records[k].0, &records[k].1));
        k += 1;
    }
    lines
}

/// The listing of an image loaded at `base`: its words are paired, decoded
/// and rendered, one line for each word, in ascending order of address.
pub fn listing(bytes: &[u8], base: usize) -> (lines: Vec<String>)
    requires
        base + bytes@.len() <= usize::MAX,
    ensures
        lines@.len() == word_count(bytes@),
        forall|k: int|
            0 <= k < lines@.len() ==> (#[trigger] lines@[k])@ == line_of(
                address_at(base, k),
                decoded(word_at(bytes@, k)),
            ),
{
    let program = load(bytes, base);
    let records = disassemble(program.words.as_slice());
    format_lines(records.as_slice())
}

} // verus!
