//! Numbers and padded fields as text, for register dumps and listings.

use vstd::prelude::*;
use vstd::string::*;

verus! {

/// `String::push` appends one character to the end of the string.
pub assume_specification[ String::push ](s: &mut String, ch: char)
    ensures
        final(s)@ == old(s)@.push(ch),
;

/// The character for a digit below sixteen: `0` to `9`, then `a` to `f`.
pub open spec fn digit(d: int) -> char {
    if d < 10 {
        (d + 48) as char
    } else {
        (d + 87) as char
    }
}

/// The digits of `v` in `base`, most significant first, with zeros in
/// front up to `width` digits; at least one digit.
pub open spec fn digits(v: nat, base: nat, width: nat) -> Seq<char>
    decreases v, width,
{
    if base < 2 || (v < base && width <= 1) {
        seq![digit(v as int)]
    } else {
        proof {
            assert(v > 0 ==> v / base < v) by (nonlinear_arith)
                requires
                    base >= 2,
            ;
            assert(v == 0 ==> v / base == 0) by (nonlinear_arith)
                requires
                    base >= 2,
            ;
        }
        digits(v / base, base, less_one(width)).push(digit((v % base) as int))
    }
}

/// One less than `width`, and zero for zero.
pub open spec fn less_one(width: nat) -> nat {
    if width > 0 {
        (width - 1) as nat
    } else {
        0
    }
}

/// `s` followed by spaces up to `width` characters.
pub open spec fn padded(s: Seq<char>, width: nat) -> Seq<char>
    decreases width - s.len(),
{
    if s.len() >= width {
        s
    } else {
        padded(s.push(' '), width)
    }
}

/// `v` in hexadecimal after `0x`, with at least `width` digits.
pub open spec fn hex(v: nat, width: nat) -> Seq<char> {
    "0x"@ + digits(v, 16, width)
}

/// `v` in binary after `0b`, with at least `width` digits.
pub open spec fn bin(v: nat, width: nat) -> Seq<char> {
    "0b"@ + digits(v, 2, width)
}

/// `v` in decimal, with at least `width` digits.
pub open spec fn dec(v: nat, width: nat) -> Seq<char> {
    digits(v, 10, width)
}

/// `true` or `false`.
pub open spec fn truth(b: bool) -> Seq<char> {
    if b {
        "true"@
    } else {
        "false"@
    }
}

/// The character for a digit below sixteen.
pub fn digit_char(d: u8) -> (c: char)
    requires
        d < 16,
    ensures
        c == digit(d as int),
{
    if d < 10 {
        (d + 48) as char
    } else {
        (d + 87) as char
    }
}

/// Appends the digits of `v` in `base`, zero-padded to `width` digits.
pub fn push_digits(out: &mut String, v: u64, base: u64, width: usize)
    requires
        2 <= base <= 16,
    ensures
        final(out)@ == old(out)@ + digits(v as nat, base as nat, width as nat),
    decreases v, width,
{
    if v < base && width <= 1 {
        out.push(digit_char(v as u8));
    } else {
        let less: usize = if width > 0 {
            width - 1
        } else {
            0
        };
        assert(v > 0 ==> v / base < v) by (nonlinear_arith)
            requires
                base >= 2,
        ;
        assert(v == 0 ==> v / base == 0) by (nonlinear_arith)
            requires
                base >= 2,
        ;
        push_digits(out, v / base, base, less);
        out.push(digit_char((v % base) as u8));
    }
}

/// Appends `v` in hexadecimal after `0x`, with at least `width` digits.
pub fn push_hex(out: &mut String, v: u64, width: usize)
    ensures
        final(out)@ == old(out)@ + hex(v as nat, width as nat),
{
    out.append("0x");
    push_digits(out, v, 16, width);
}

/// Appends `v` in binary after `0b`, with at least `width` digits.
pub fn push_bin(out: &mut String, v: u64, width: usize)
    ensures
        final(out)@ == old(out)@ + bin(v as nat, width as nat),
{
    out.append("0b");
    push_digits(out, v, 2, width);
}

/// Appends `v` in decimal, with at least `width` digits.
pub fn push_dec(out: &mut String, v: u64, width: usize)
    ensures
        final(out)@ == old(out)@ + dec(v as nat, width as nat),
{
    push_digits(out, v, 10, width);
}

/// Appends `true` or `false`, followed by spaces up to `width` characters.
pub fn push_truth(out: &mut String, b: bool, width: usize)
    ensures
        final(out)@ == old(out)@ + padded(truth(b), width as nat),
{
    if b {
        push_padded(out, "true", width);
    } else {
        push_padded(out, "false", width);
    }
}

/// Appends `s`, followed by spaces up to `width` characters.
pub fn push_padded(out: &mut String, s: &str, width: usize)
    ensures
        final(out)@ == old(out)@ + padded(s@, width as nat),
{
    out.append(s);
    let mut len: usize = s.unicode_len();
    let ghost mut shown: Seq<char> = s@;
    while len < width
        invariant
            len == shown.len(),
            out@ == old(out)@ + shown,
            padded(shown, width as nat) == padded(s@, width as nat),
        decreases width - len,
    {
        out.push(' ');
        len += 1;
        proof {
            shown = shown.push(' ');
        }
    }
}

} // verus!
