//! Rendering numbers back into text: plain integers, two-digit-padded
//! calendar fields, and decimals with their trailing zeros dropped.

use vstd::prelude::*;
use crate::numeric::Decimal;

verus! {

/// The digit character for value `d`.
pub open spec fn char_of_digit(d: int) -> char {
    ((48 + d) as u8) as char
}

/// The decimal digit string of a non-negative number, no sign, no padding.
pub open spec fn nat_digit_chars(n: int) -> Seq<char>
    recommends
        n >= 0,
    decreases n,
{
    if n < 10 {
        seq![char_of_digit(n)]
    } else {
        nat_digit_chars(n / 10).push(char_of_digit(n % 10))
    }
}

/// The decimal digit string of a signed number.
pub open spec fn int_chars(v: int) -> Seq<char> {
    if v < 0 {
        seq!['-'] + nat_digit_chars(-v)
    } else {
        nat_digit_chars(v)
    }
}

/// The digit string of a non-negative number, left-padded with a zero to at
/// least two digits.
pub open spec fn pad2_chars(n: int) -> Seq<char> {
    if 0 <= n < 10 {
        seq!['0'] + nat_digit_chars(n)
    } else {
        nat_digit_chars(n)
    }
}

/// A run of `k` zero characters.
pub open spec fn zero_chars(k: int) -> Seq<char>
    decreases k,
{
    if k <= 0 {
        Seq::empty()
    } else {
        zero_chars(k - 1).push('0')
    }
}

/// Magnitude and scale after dropping trailing fractional zeros.
pub open spec fn strip_zeros(m: int, sc: int) -> (int, int)
    decreases sc,
{
    if sc > 0 && m % 10 == 0 {
        strip_zeros(m / 10, sc - 1)
    } else {
        (m, sc)
    }
}

/// The canonical text of the decimal number `mantissa / 10^scale`: sign,
/// integer part, a dot, and the fractional digits with trailing zeros
/// dropped, but always at least one fractional digit.
pub open spec fn decimal_chars_of(mantissa: int, scale: int) -> Seq<char> {
    let mag: int = if mantissa < 0 {
        -mantissa
    } else {
        mantissa
    };
    let sign: Seq<char> = if mantissa < 0 {
        seq!['-']
    } else {
        Seq::empty()
    };
    let p = strip_zeros(mag, scale);
    if p.1 <= 0 {
        sign + nat_digit_chars(p.0) + seq!['.', '0']
    } else {
        let ds = nat_digit_chars(p.0);
        let padded = if ds.len() <= p.1 {
            zero_chars(p.1 + 1 - ds.len()) + ds
        } else {
            ds
        };
        sign + padded.take(padded.len() - p.1) + seq!['.'] + padded.skip(padded.len() - p.1)
    }
}

/// The canonical text of a [`Decimal`].
pub open spec fn decimal_chars(d: Decimal) -> Seq<char> {
    decimal_chars_of(d.mantissa as int, d.scale as int)
}

/// Appends the digits of `n` to `out`.
pub fn push_u64_digits(out: &mut Vec<char>, n: u64)
    ensures
        final(out)@ == old(out)@ + nat_digit_chars(n as int),
    decreases n,
{
    if n < 10 {
        out.push((48 + n as u8) as char);
        proof {
            assert(out@ =~= old(out)@ + nat_digit_chars(n as int));
        }
    } else {
        push_u64_digits(out, n / 10);
        out.push((48 + (n % 10) as u8) as char);
        proof {
            assert(out@ =~= old(out)@ + nat_digit_chars(n as int));
        }
    }
}

/// Appends the digits of `n`, zero-padded to at least two digits.
pub fn push_pad2_digits(out: &mut Vec<char>, n: u32)
    ensures
        final(out)@ == old(out)@ + pad2_chars(n as int),
{
    if n < 10 {
        out.push('0');
    }
    push_u64_digits(out, n as u64);
    proof {
        if n < 10 {
            assert(out@ =~= old(out)@ + pad2_chars(n as int));
        }
    }
}

/// The magnitude of a signed number as an unsigned one.
fn mag_of_i64(v: i64) -> (r: u64)
    ensures
        r as int == if v < 0 {
            -(v as int)
        } else {
            v as int
        },
{
    if v == i64::MIN {
        9223372036854775808u64
    } else if v < 0 {
        (-v) as u64
    } else {
        v as u64
    }
}

/// Appends the signed decimal digits of `v` to `out`.
pub fn push_i64_digits(out: &mut Vec<char>, v: i64)
    ensures
        final(out)@ == old(out)@ + int_chars(v as int),
{
    if v < 0 {
        out.push('-');
    }
    let mag = mag_of_i64(v);
    push_u64_digits(out, mag);
    proof {
        if v < 0 {
            assert(out@ =~= old(out)@ + int_chars(v as int));
        }
    }
}

proof fn lemma_zero_chars_len(k: int)
    ensures
        zero_chars(k).len() == if k <= 0 {
            0
        } else {
            k
        },
    decreases k,
{
    if k > 0 {
        lemma_zero_chars_len(k - 1);
    }
}

/// Appends a run of `k` zero characters to `out`.
fn push_zero_chars(out: &mut Vec<char>, k: usize)
    ensures
        final(out)@ == old(out)@ + zero_chars(k as int),
{
    let mut j: usize = 0;
    while j < k
        invariant
            j <= k,
            out@ == old(out)@ + zero_chars(j as int),
        decreases k - j,
    {
        out.push('0');
        proof {
            assert(old(out)@ + zero_chars(j + 1 as int) =~= (old(out)@ + zero_chars(j as int)).push(
                '0',
            ));
        }
        j += 1;
    }
}

/// Renders a [`Decimal`] as its canonical text.
pub fn decimal_to_chars(d: &Decimal) -> (r: Vec<char>)
    ensures
        r@ == decimal_chars(*d),
{
    let neg = d.mantissa < 0;
    let mut mag: u64 = mag_of_i64(d.mantissa);
    let mut sc: u32 = d.scale;
    let ghost mag0 = mag as int;
    let ghost sc0 = sc as int;
    while sc > 0 && mag % 10 == 0
        invariant
            strip_zeros(mag0, sc0) == strip_zeros(mag as int, sc as int),
        decreases sc,
    {
        mag = mag / 10;
        sc = sc - 1;
    }
    proof {
        assert(strip_zeros(mag as int, sc as int) == (mag as int, sc as int));
    }
    let mut out: Vec<char> = Vec::new();
    if neg {
        out.push('-');
    }
    if sc == 0 {
        push_u64_digits(&mut out, mag);
        out.push('.');
        out.push('0');
        proof {
            assert(out@ =~= decimal_chars(*d));
        }
        out
    } else {
        let mut digits: Vec<char> = Vec::new();
        push_u64_digits(&mut digits, mag);
        proof {
            assert(digits@.len() >= 1) by {
                assert(nat_digit_chars(mag as int).len() >= 1) by {
                    if mag >= 10 {
                    }
                }
            }
        }
        let scu = sc as usize;
        let padded: Vec<char> = if digits.len() <= scu {
            let mut p: Vec<char> = Vec::new();
            push_zero_chars(&mut p, scu - digits.len() + 1);
            proof {
                lemma_zero_chars_len(scu - digits@.len() + 1);
            }
            let mut dcopy = digits;
            p.append(&mut dcopy);
            p
        } else {
            digits
        };
        proof {
            assert(padded@.len() > sc as int);
        }
        let cut = padded.len() - scu;
        let head = crate::chars::subvec(&padded, 0, cut);
        let tail = crate::chars::subvec(&padded, cut, padded.len());
        let mut outv = out;
        let mut h = head;
        outv.append(&mut h);
        outv.push('.');
        let mut t = tail;
        outv.append(&mut t);
        proof {
            assert(padded@.take(padded@.len() - sc as int) == padded@.subrange(
                0,
                padded@.len() - sc as int,
            ));
            assert(padded@.skip(padded@.len() - sc as int) == padded@.subrange(
                padded@.len() - sc as int,
                padded@.len() as int,
            ));
            assert(outv@ =~= decimal_chars(*d));
        }
        outv
    }
}

} // verus!
