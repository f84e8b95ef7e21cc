//! Number-to-text rendering used by the human-readable descriptions of
//! protocol values (firmware versions, USB identifiers, error messages).

use vstd::prelude::*;

verus! {

/// The character of a digit in bases up to sixteen (upper-case letters).
pub open spec fn digit_char(d: nat) -> char {
    if d == 0 { '0' }
    else if d == 1 { '1' }
    else if d == 2 { '2' }
    else if d == 3 { '3' }
    else if d == 4 { '4' }
    else if d == 5 { '5' }
    else if d == 6 { '6' }
    else if d == 7 { '7' }
    else if d == 8 { '8' }
    else if d == 9 { '9' }
    else if d == 10 { 'A' }
    else if d == 11 { 'B' }
    else if d == 12 { 'C' }
    else if d == 13 { 'D' }
    else if d == 14 { 'E' }
    else { 'F' }
}

/// The digits of `n` in base `radix`, most significant first, without
/// leading zeros (zero is the single digit `0`).
pub open spec fn radix_text(n: nat, radix: nat) -> Seq<char>
    decreases n,
{
    if radix < 2 || n < radix {
        seq![digit_char(n)]
    } else {
        proof {
            vstd::arithmetic::div_mod::lemma_div_decreases(n as int, radix as int);
        }
        radix_text(n / radix, radix).push(digit_char(n % radix))
    }
}

/// Decimal text of `n`.
pub open spec fn dec_text(n: nat) -> Seq<char> {
    radix_text(n, 10)
}

/// Upper-case hexadecimal text of `n`.
pub open spec fn hex_text(n: nat) -> Seq<char> {
    radix_text(n, 16)
}

/// `s` preceded by as many `0` characters as it takes to reach `width`.
pub open spec fn zero_pad(s: Seq<char>, width: nat) -> Seq<char> {
    if s.len() >= width {
        s
    } else {
        Seq::new((width - s.len()) as nat, |_i: int| '0') + s
    }
}

/// Append the digit character of `d` to `s`.
pub fn push_digit(s: &mut String, d: u64)
    requires
        d < 16,
    ensures
        final(s)@ == old(s)@.push(digit_char(d as nat)),
{
    let lit: &str = if d == 0 { "0" }
        else if d == 1 { "1" }
        else if d == 2 { "2" }
        else if d == 3 { "3" }
        else if d == 4 { "4" }
        else if d == 5 { "5" }
        else if d == 6 { "6" }
        else if d == 7 { "7" }
        else if d == 8 { "8" }
        else if d == 9 { "9" }
        else if d == 10 { "A" }
        else if d == 11 { "B" }
        else if d == 12 { "C" }
        else if d == 13 { "D" }
        else if d == 14 { "E" }
        else { "F" };
    proof {
        reveal_strlit("0");
        reveal_strlit("1");
        reveal_strlit("2");
        reveal_strlit("3");
        reveal_strlit("4");
        reveal_strlit("5");
        reveal_strlit("6");
        reveal_strlit("7");
        reveal_strlit("8");
        reveal_strlit("9");
        reveal_strlit("A");
        reveal_strlit("B");
        reveal_strlit("C");
        reveal_strlit("D");
        reveal_strlit("E");
        reveal_strlit("F");
    }
    s.append(lit);
    assert(lit@ == seq![digit_char(d as nat)]);
}

/// Append the digits of `n` in base `radix` (10 or 16).
pub fn push_radix(s: &mut String, n: u64, radix: u64)
    requires
        radix == 10 || radix == 16,
    ensures
        final(s)@ == old(s)@ + radix_text(n as nat, radix as nat),
    decreases n,
{
    if n >= radix {
        push_radix(s, n / radix, radix);
    }
    push_digit(s, n % radix);
    assert(final(s)@ == old(s)@ + radix_text(n as nat, radix as nat)) by {
        if n >= radix {
            assert(radix_text(n as nat, radix as nat) == radix_text((n / radix) as nat, radix as nat).push(digit_char((n % radix) as nat)));
        }
    }
}

/// Append the digits of `n` in base `radix`, left-padded with `0` to `width`.
pub fn push_radix_padded(s: &mut String, n: u64, radix: u64, width: usize)
    requires
        radix == 10 || radix == 16,
    ensures
        final(s)@ == old(s)@ + zero_pad(radix_text(n as nat, radix as nat), width as nat),
{
    let mut digits = String::new();
    push_radix(&mut digits, n, radix);
    assert(digits@ == radix_text(n as nat, radix as nat));
    let len = digits.as_str().unicode_len();
    let ghost start = s@;
    let mut i: usize = len;
    while i < width
        invariant
            len <= i,
            len < width ==> i <= width,
            len >= width ==> i == len,
            s@ == start + Seq::new((i - len) as nat, |_j: int| '0'),
        decreases width - i,
    {
        push_digit(s, 0);
        i = i + 1;
        assert(s@ =~= start + Seq::new((i - len) as nat, |_j: int| '0'));
    }
    let ghost zeros = s@;
    s.append(digits.as_str());
    if len >= width {
        assert(zeros =~= start);
        assert(s@ =~= start + zero_pad(radix_text(n as nat, radix as nat), width as nat));
    } else {
        assert(i == width);
        assert(s@ =~= start + zero_pad(radix_text(n as nat, radix as nat), width as nat));
    }
}

/// Append the decimal text of `n`.
pub fn push_decimal(s: &mut String, n: u64)
    ensures
        final(s)@ == old(s)@ + dec_text(n as nat),
{
    push_radix(s, n, 10);
}

/// Append the upper-case hexadecimal text of `n`, zero-padded to `width`.
pub fn push_hex_padded(s: &mut String, n: u64, width: usize)
    ensures
        final(s)@ == old(s)@ + zero_pad(hex_text(n as nat), width as nat),
{
    push_radix_padded(s, n, 16, width);
}

/// Append the decimal text of `n`, zero-padded to `width`.
pub fn push_decimal_padded(s: &mut String, n: u64, width: usize)
    ensures
        final(s)@ == old(s)@ + zero_pad(dec_text(n as nat), width as nat),
{
    push_radix_padded(s, n, 10, width);
}

/// Append a string literal or slice.
pub fn push_str(s: &mut String, t: &str)
    ensures
        final(s)@ == old(s)@ + t@,
{
    s.append(t);
}

} // verus!
