//! Numbers as text: hexadecimal and decimal digits, with or without zero
//! padding.

use vstd::prelude::*;

verus! {

/// The character for one digit: `0` to `9`, then `A` to `F`.
pub open spec fn digit_char(d: int) -> char
    recommends
        0 <= d < 16,
{
    if d < 10 {
        ('0' as int + d) as char
    } else {
        ('A' as int + d - 10) as char
    }
}

/// The upper-case hexadecimal digits of `n`, most significant first, without
/// leading zeros; zero is the single digit `0`.
pub open spec fn upper_hex(n: nat) -> Seq<char>
    decreases n,
{
    if n < 16 {
        seq![digit_char(n as int)]
    } else {
        upper_hex(n / 16).push(digit_char((n % 16) as int))
    }
}

/// The decimal digits of `n`, most significant first, without leading
/// zeros; zero is the single digit `0`.
pub open spec fn decimal(n: nat) -> Seq<char>
    decreases n,
{
    if n < 10 {
        seq![digit_char(n as int)]
    } else {
        decimal(n / 10).push(digit_char((n % 10) as int))
    }
}

/// `count` zeros.
pub open spec fn zeros(count: nat) -> Seq<char> {
    Seq::new(count, |i: int| '0')
}

/// `text` filled up on the left with zeros to `width` characters; text that
/// is already as long is left alone.
pub open spec fn zero_padded(text: Seq<char>, width: nat) -> Seq<char> {
    if text.len() >= width {
        text
    } else {
        zeros((width - text.len()) as nat) + text
    }
}

/// The upper-case hexadecimal digits of `n`, filled up with zeros to four.
pub open spec fn upper_hex4(n: nat) -> Seq<char> {
    zero_padded(upper_hex(n), 4)
}

/// The text of one digit.
fn digit_str(d: u8) -> (text: &'static str)
    requires
        d < 16,
    ensures
        text@ == seq![digit_char(d as int)],
{
    let all: &'static str = "0123456789ABCDEF";
    proof {
        reveal_strlit("0123456789ABCDEF");
    }
    let from: usize = d as usize;
    let text = all.substring_ascii(from, from + 1);
    assert(text@ =~= seq![digit_char(d as int)]);
    text
}

/// Appends the upper-case hexadecimal digits of `n` to `out`.
pub fn push_upper_hex(out: &mut String, n: u64)
    ensures
        final(out)@ == old(out)@ + upper_hex(n as nat),
    decreases n,
{
    if n >= 16 {
        push_upper_hex(out, n / 16);
    }
    let d: u8 = (n % 16) as u8;
    out.append(digit_str(d));
    assert(final(out)@ =~= old(out)@ + upper_hex(n as nat));
}

/// Appends the decimal digits of `n` to `out`.
pub fn push_decimal(out: &mut String, n: u64)
    ensures
        final(out)@ == old(out)@ + decimal(n as nat),
    decreases n,
{
    if n >= 10 {
        push_decimal(out, n / 10);
    }
    let d: u8 = (n % 10) as u8;
    out.append(digit_str(d));
    assert(final(out)@ =~= old(out)@ + decimal(n as nat));
}

/// How many hexadecimal digits a number has: one below 16, two below 256,
/// three below 4096, four below 65536, and more than four from there on.
pub proof fn lemma_upper_hex_len(n: nat)
    ensures
        n < 0x10 ==> upper_hex(n).len() == 1,
        0x10 <= n < 0x100 ==> upper_hex(n).len() == 2,
        0x100 <= n < 0x1000 ==> upper_hex(n).len() == 3,
        0x1000 <= n < 0x10000 ==> upper_hex(n).len() == 4,
        0x10000 <= n ==> upper_hex(n).len() > 4,
    decreases n,
{
    if n >= 16 {
        lemma_upper_hex_len(n / 16);
    }
}

/// Padded to four, a number below 65536 has exactly four digits, and a
/// larger one has its own digits and no padding.
pub proof fn lemma_upper_hex4_len(n: nat)
    ensures
        n < 0x10000 ==> upper_hex4(n).len() == 4,
        0x1000 <= n ==> upper_hex4(n) == upper_hex(n),
{
    lemma_upper_hex_len(n);
}

/// Appends the upper-case hexadecimal digits of `n`, filled up with zeros
/// to four, to `out`.
pub fn push_upper_hex4(out: &mut String, n: u64)
    ensures
        final(out)@ == old(out)@ + upper_hex4(n as nat),
{
    proof {
        lemma_upper_hex_len(n as nat);
        reveal_strlit("000");
        reveal_strlit("00");
        reveal_strlit("0");
        assert("000"@ =~= zeros(3));
        assert("00"@ =~= zeros(2));
        assert("0"@ =~= zeros(1));
    }
    if n < 0x10 {
        out.append("000");
    } else if n < 0x100 {
        out.append("00");
    } else if n < 0x1000 {
        out.append("0");
    }
    push_upper_hex(out, n);
    assert(final(out)@ =~= old(out)@ + upper_hex4(n as nat));
}

} // verus!
