//! Hexadecimal rendering of integers, as used in log lines.

use vstd::prelude::*;

verus! {

/// ASCII digit for a value below 16, upper or lower case.
pub open spec fn hex_digit(d: nat, upper: bool) -> u8 {
    if d < 10 {
        (48 + d) as u8
    } else if upper {
        (55 + d) as u8
    } else {
        (87 + d) as u8
    }
}

/// The shortest hexadecimal spelling of `n` (no leading zeros; `0` is one digit).
pub open spec fn hex_digits(n: nat, upper: bool) -> Seq<u8>
    decreases n,
{
    if n < 16 {
        seq![hex_digit(n, upper)]
    } else {
        hex_digits(n / 16, upper).push(hex_digit(n % 16, upper))
    }
}

/// `k` ASCII zeros.
pub open spec fn zeros(k: nat) -> Seq<u8> {
    Seq::new(k, |i: int| 48u8)
}

/// `n` in hexadecimal, left-padded with zeros to at least `width` digits.
pub open spec fn hex_padded(n: nat, width: nat, upper: bool) -> Seq<u8> {
    let d = hex_digits(n, upper);
    if d.len() < width {
        zeros((width - d.len()) as nat) + d
    } else {
        d
    }
}

fn digit_char(d: u64, upper: bool) -> (r: u8)
    requires
        d < 16,
    ensures
        r == hex_digit(d as nat, upper),
{
    if d < 10 {
        48 + d as u8
    } else if upper {
        55 + d as u8
    } else {
        87 + d as u8
    }
}

fn push_digits(out: &mut Vec<u8>, n: u64, upper: bool)
    ensures
        final(out)@ == old(out)@ + hex_digits(n as nat, upper),
    decreases n,
{
    if n >= 16 {
        push_digits(out, n / 16, upper);
    }
    out.push(digit_char(n % 16, upper));
    assert(out@ =~= old(out)@ + hex_digits(n as nat, upper));
}

/// Appends `n` in hexadecimal, zero-padded to at least `width` digits.
pub fn push_hex(out: &mut Vec<u8>, n: u64, width: usize, upper: bool)
    ensures
        final(out)@ == old(out)@ + hex_padded(n as nat, width as nat, upper),
{
    let mut digits: Vec<u8> = Vec::new();
    push_digits(&mut digits, n, upper);
    assert(digits@ =~= hex_digits(n as nat, upper));
    let len = digits.len();
    let ghost start = out@;
    if len < width {
        let mut i: usize = len;
        while i < width
            invariant
                len <= i <= width,
                out@ == start + zeros((i - len) as nat),
            decreases width - i,
        {
            out.push(48u8);
            i = i + 1;
            assert(out@ =~= start + zeros((i - len) as nat));
        }
    }
    out.append(&mut digits);
    assert(out@ =~= start + hex_padded(n as nat, width as nat, upper));
}

} // verus!
