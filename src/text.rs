//! Decimal rendering of integers, as the log files and the console show them.

use vstd::prelude::*;

verus! {

/// The ASCII digit for `d` (`d < 10`).
pub open spec fn digit_char(d: nat) -> char {
    if d == 0 {
        '0'
    } else if d == 1 {
        '1'
    } else if d == 2 {
        '2'
    } else if d == 3 {
        '3'
    } else if d == 4 {
        '4'
    } else if d == 5 {
        '5'
    } else if d == 6 {
        '6'
    } else if d == 7 {
        '7'
    } else if d == 8 {
        '8'
    } else {
        '9'
    }
}

/// The shortest decimal text of `n`, without sign or leading zeros.
pub open spec fn decimal(n: nat) -> Seq<char>
    decreases n,
{
    if n < 10 {
        seq![digit_char(n)]
    } else {
        decimal(n / 10).push(digit_char(n % 10))
    }
}

/// `n` in decimal, left-padded with zeros to at least `width` characters.
pub open spec fn padded(n: nat, width: nat) -> Seq<char> {
    let d = decimal(n);
    if d.len() < width {
        Seq::new((width - d.len()) as nat, |i: int| '0') + d
    } else {
        d
    }
}

/// A value given in tenths, shown as a decimal number: the fractional digit is
/// left out when it is zero (`225` is `22.5`, `450` is `45`, `-5` is `-0.5`).
pub open spec fn tenths_text(t: int) -> Seq<char> {
    let m: nat = if t < 0 { (-t) as nat } else { t as nat };
    let sign: Seq<char> = if t < 0 { seq!['-'] } else { Seq::empty() };
    let frac: Seq<char> = if m % 10 == 0 { Seq::empty() } else { seq!['.', digit_char(m % 10)] };
    sign + decimal(m / 10) + frac
}

fn digit_str(d: u32) -> (r: &'static str)
    requires
        d < 10,
    ensures
        r@ == seq![digit_char(d as nat)],
{
    proof {
        reveal_strlit("0");
        reveal_strlit("1");
        reveal_strlit("2");
        reveal_strlit("3");
        reveal_strlit("4");
        reveal_strlit("5");
        reveal_strlit("6");
        reveal_strlit("7");
        reveal_strlit("8");
        reveal_strlit("9");
    }
    if d == 0 {
        "0"
    } else if d == 1 {
        "1"
    } else if d == 2 {
        "2"
    } else if d == 3 {
        "3"
    } else if d == 4 {
        "4"
    } else if d == 5 {
        "5"
    } else if d == 6 {
        "6"
    } else if d == 7 {
        "7"
    } else if d == 8 {
        "8"
    } else {
        "9"
    }
}

/// Appends the decimal text of `n` to `out`.
pub fn push_decimal(out: &mut String, n: u64)
    ensures
        final(out)@ == old(out)@ + decimal(n as nat),
    decreases n,
{
    if n < 10 {
        out.append(digit_str(n as u32));
    } else {
        push_decimal(out, n / 10);
        out.append(digit_str((n % 10) as u32));
        assert(final(out)@ =~= old(out)@ + decimal(n as nat));
    }
}

/// Appends `n` in decimal, padded with zeros to at least `width` characters.
pub fn push_padded(out: &mut String, n: u64, width: u32)
    ensures
        final(out)@ == old(out)@ + padded(n as nat, width as nat),
{
    let mut digits = String::new();
    push_decimal(&mut digits, n);
    assert(digits@ =~= decimal(n as nat));
    let len = digits.as_str().unicode_len();
    let ghost start = out@;
    if len < width as usize {
        let missing: usize = width as usize - len;
        let mut i: usize = 0;
        while i < missing
            invariant
                i <= missing,
                out@ == start + Seq::new(i as nat, |j: int| '0'),
            decreases missing - i,
        {
            proof {
                reveal_strlit("0");
            }
            out.append("0");
            assert(out@ =~= start + Seq::new((i + 1) as nat, |j: int| '0'));
            i = i + 1;
        }
    }
    out.append(digits.as_str());
    assert(out@ =~= start + padded(n as nat, width as nat));
}

/// Appends a value given in tenths, as [`tenths_text`] describes.
pub fn push_tenths(out: &mut String, t: i32)
    ensures
        final(out)@ == old(out)@ + tenths_text(t as int),
{
    let ghost start = out@;
    let m: u64 = if t < 0 { (-(t as i64)) as u64 } else { t as u64 };
    if t < 0 {
        proof {
            reveal_strlit("-");
        }
        out.append("-");
    }
    push_decimal(out, m / 10);
    if m % 10 != 0 {
        proof {
            reveal_strlit(".");
        }
        out.append(".");
        out.append(digit_str((m % 10) as u32));
    }
    assert(out@ =~= start + tenths_text(t as int));
}

} // verus!
