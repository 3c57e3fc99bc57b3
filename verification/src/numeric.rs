//! Numeric text policy shared by every strategy: integers and decimals
//! written with thousands separators and surrounding whitespace are accepted,
//! anything else is a conversion error.

use vstd::prelude::*;
use crate::chars::{chars_of, string_from_chars, subvec};
use crate::errors::ParseError;

verus! {

// ---------------------------------------------------------------------------
// Character classes
// ---------------------------------------------------------------------------
/// An ASCII decimal digit.
pub open spec fn is_digit_char(c: char) -> bool {
    48 <= c as int <= 57
}

/// The numeric value of a digit character.
pub open spec fn digit_of(c: char) -> int {
    c as int - 48
}

/// A character with the Unicode `White_Space` property, the set that
/// `str::trim` removes.
pub open spec fn is_space_char(c: char) -> bool {
    ||| 0x9 <= c as int <= 0xd
    ||| c as int == 0x20
    ||| c as int == 0x85
    ||| c as int == 0xa0
    ||| c as int == 0x1680
    ||| 0x2000 <= c as int <= 0x200a
    ||| c as int == 0x2028
    ||| c as int == 0x2029
    ||| c as int == 0x202f
    ||| c as int == 0x205f
    ||| c as int == 0x3000
}

/// Runtime check for [`is_digit_char`].
pub fn is_digit(c: char) -> (r: bool)
    ensures
        r == is_digit_char(c),
{
    let u = c as u32;
    48 <= u && u <= 57
}

/// Runtime check for [`is_space_char`].
pub fn is_space(c: char) -> (r: bool)
    ensures
        r == is_space_char(c),
{
    let u = c as u32;
    (0x9 <= u && u <= 0xd) || u == 0x20 || u == 0x85 || u == 0xa0 || u == 0x1680 || (0x2000 <= u
        && u <= 0x200a) || u == 0x2028 || u == 0x2029 || u == 0x202f || u == 0x205f || u == 0x3000
}

// ---------------------------------------------------------------------------
// Trimming and separator stripping
// ---------------------------------------------------------------------------
/// The sequence with leading whitespace removed.
pub open spec fn trim_start(s: Seq<char>) -> Seq<char>
    decreases s.len(),
{
    if s.len() > 0 && is_space_char(s[0]) {
        trim_start(s.subrange(1, s.len() as int))
    } else {
        s
    }
}

/// The sequence with trailing whitespace removed.
pub open spec fn trim_end(s: Seq<char>) -> Seq<char>
    decreases s.len(),
{
    if s.len() > 0 && is_space_char(s.last()) {
        trim_end(s.drop_last())
    } else {
        s
    }
}

/// The sequence with surrounding whitespace removed.
pub open spec fn trimmed(s: Seq<char>) -> Seq<char> {
    trim_end(trim_start(s))
}

/// The sequence with every comma removed.
pub open spec fn strip_commas(s: Seq<char>) -> Seq<char>
    decreases s.len(),
{
    if s.len() == 0 {
        Seq::empty()
    } else {
        let rest = strip_commas(s.drop_last());
        if s.last() == ',' {
            rest
        } else {
            rest.push(s.last())
        }
    }
}

/// What the numeric conversions actually parse: the input trimmed of
/// surrounding whitespace, with thousands separators removed.
pub open spec fn comma_core(s: Seq<char>) -> Seq<char> {
    strip_commas(trimmed(s))
}

/// The comma-parse of an integer field.
pub open spec fn comma_int(s: Seq<char>) -> Option<int> {
    int_text_val(comma_core(s))
}

/// The comma-parse of a decimal field.
pub open spec fn comma_dec(s: Seq<char>) -> Option<(int, nat)> {
    decimal_text_val(comma_core(s))
}

/// The parse is in range for an `i32` field.
pub open spec fn ok_i32(o: Option<int>) -> bool {
    o matches Some(n) && i32::MIN <= n <= i32::MAX
}

/// The parse is in range for an `i64` field.
pub open spec fn ok_i64(o: Option<int>) -> bool {
    o matches Some(n) && i64::MIN <= n <= i64::MAX
}

/// The parse is representable as a [`Decimal`].
pub open spec fn ok_dec(o: Option<(int, nat)>) -> bool {
    o matches Some(p) && -(i64::MAX as int) - 1 <= p.0 <= i64::MAX as int && p.1 <= u32::MAX as nat
}

proof fn lemma_trim_start_at(s: Seq<char>, k: int)
    requires
        0 <= k <= s.len(),
        forall|i: int| 0 <= i < k ==> is_space_char(s[i]),
        k == s.len() || !is_space_char(s[k]),
    ensures
        trim_start(s) == s.subrange(k, s.len() as int),
    decreases k,
{
    if k == 0 {
        assert(s.subrange(0, s.len() as int) =~= s);
    } else {
        let t = s.subrange(1, s.len() as int);
        lemma_trim_start_at(t, k - 1);
        assert(t.subrange(k - 1, t.len() as int) =~= s.subrange(k, s.len() as int));
    }
}

proof fn lemma_trim_end_at(s: Seq<char>, k: int)
    requires
        0 <= k <= s.len(),
        forall|i: int| k <= i < s.len() ==> is_space_char(s[i]),
        k == 0 || !is_space_char(s[k - 1]),
    ensures
        trim_end(s) == s.subrange(0, k),
    decreases s.len() - k,
{
    if k == s.len() {
        if s.len() > 0 && is_space_char(s.last()) {
            assert(!is_space_char(s[k - 1]));
            assert(false);
        }
        assert(s.subrange(0, k) =~= s);
    } else {
        assert(is_space_char(s.last()));
        lemma_trim_end_at(s.drop_last(), k);
    }
}

/// Removes surrounding whitespace from a character vector.
pub fn trim_chars(v: &Vec<char>) -> (r: Vec<char>)
    ensures
        r@ == trimmed(v@),
{
    let n = v.len();
    let mut lo: usize = 0;
    while lo < n && is_space(v[lo])
        invariant
            lo <= n == v@.len(),
            forall|i: int| 0 <= i < lo ==> is_space_char(v@[i]),
        decreases n - lo,
    {
        lo += 1;
    }
    proof {
        lemma_trim_start_at(v@, lo as int);
    }
    let mut hi: usize = n;
    while hi > lo && is_space(v[hi - 1])
        invariant
            lo <= hi <= n == v@.len(),
            forall|i: int| hi <= i < n ==> is_space_char(v@[i]),
        decreases hi,
    {
        hi -= 1;
    }
    proof {
        let t = v@.subrange(lo as int, n as int);
        lemma_trim_end_at(t, hi - lo as int);
        assert(t.subrange(0, hi - lo as int) =~= v@.subrange(lo as int, hi as int));
    }
    subvec(v, lo, hi)
}

/// Removes every comma from a character vector.
pub fn strip_comma_chars(v: &Vec<char>) -> (r: Vec<char>)
    ensures
        r@ == strip_commas(v@),
{
    let mut out: Vec<char> = Vec::new();
    let mut i: usize = 0;
    while i < v.len()
        invariant
            i <= v@.len(),
            out@ == strip_commas(v@.take(i as int)),
        decreases v@.len() - i,
    {
        proof {
            assert(v@.take(i + 1 as int).drop_last() =~= v@.take(i as int));
            assert(v@.take(i + 1 as int).last() == v@[i as int]);
        }
        if v[i] != ',' {
            out.push(v[i]);
        }
        i += 1;
    }
    proof {
        assert(v@.take(v@.len() as int) =~= v@);
    }
    out
}

// ---------------------------------------------------------------------------
// Integer text
// ---------------------------------------------------------------------------
/// Every character of the sequence is a decimal digit.
pub open spec fn all_digits(s: Seq<char>) -> bool {
    forall|i: int| 0 <= i < s.len() ==> is_digit_char(s[i])
}

/// The value of a digit string, most significant digit first.
pub open spec fn digits_val(s: Seq<char>) -> int
    decreases s.len(),
{
    if s.len() == 0 {
        0
    } else {
        digits_val(s.drop_last()) * 10 + digit_of(s.last())
    }
}

/// The value of signed integer text: an optional sign followed by at least
/// one digit, nothing else.
pub open spec fn int_text_val(s: Seq<char>) -> Option<int> {
    if s.len() == 0 {
        None
    } else if s[0] == '+' || s[0] == '-' {
        let rest = s.subrange(1, s.len() as int);
        if rest.len() > 0 && all_digits(rest) {
            Some(
                if s[0] == '-' {
                    -digits_val(rest)
                } else {
                    digits_val(rest)
                },
            )
        } else {
            None
        }
    } else if all_digits(s) {
        Some(digits_val(s))
    } else {
        None
    }
}

/// The value of unsigned integer text: an optional plus sign followed by at
/// least one digit; a minus sign is not accepted.
pub open spec fn uint_text_val(s: Seq<char>) -> Option<int> {
    if s.len() == 0 {
        None
    } else if s[0] == '+' {
        let rest = s.subrange(1, s.len() as int);
        if rest.len() > 0 && all_digits(rest) {
            Some(digits_val(rest))
        } else {
            None
        }
    } else if all_digits(s) {
        Some(digits_val(s))
    } else {
        None
    }
}

pub proof fn lemma_digits_val_nonneg(s: Seq<char>)
    requires
        all_digits(s),
    ensures
        digits_val(s) >= 0,
    decreases s.len(),
{
    if s.len() > 0 {
        lemma_digits_val_nonneg(s.drop_last());
    }
}

proof fn lemma_digits_val_prefix(s: Seq<char>, k: int)
    requires
        all_digits(s),
        0 <= k <= s.len(),
    ensures
        digits_val(s.take(k)) <= digits_val(s),
    decreases s.len() - k,
{
    if k == s.len() {
        assert(s.take(k) =~= s);
    } else {
        lemma_digits_val_prefix(s, k + 1);
        let t = s.take(k + 1);
        assert(t.drop_last() =~= s.take(k));
        lemma_digits_val_nonneg(s.take(k));
        assert(digits_val(t) == digits_val(s.take(k)) * 10 + digit_of(s[k]));
    }
}

/// Checks that `v[lo..hi]` is all digits.
fn check_all_digits(v: &Vec<char>, lo: usize, hi: usize) -> (r: bool)
    requires
        lo <= hi <= v@.len(),
    ensures
        r == all_digits(v@.subrange(lo as int, hi as int)),
{
    let mut i: usize = lo;
    while i < hi
        invariant
            lo <= i <= hi <= v@.len(),
            forall|m: int| lo <= m < i ==> is_digit_char(v@[m]),
        decreases hi - i,
    {
        if !is_digit(v[i]) {
            proof {
                assert(v@.subrange(lo as int, hi as int)[i - lo as int] == v@[i as int]);
            }
            return false;
        }
        i += 1;
    }
    true
}

/// Evaluates the digit run `v[lo..hi]`; `None` when its value exceeds `u64::MAX`.
fn parse_u64_digits(v: &Vec<char>, lo: usize, hi: usize) -> (r: Option<u64>)
    requires
        lo <= hi <= v@.len(),
        all_digits(v@.subrange(lo as int, hi as int)),
    ensures
        match r {
            Some(m) => m == digits_val(v@.subrange(lo as int, hi as int)),
            None => digits_val(v@.subrange(lo as int, hi as int)) > u64::MAX,
        },
{
    let ghost whole = v@.subrange(lo as int, hi as int);
    let mut acc: u64 = 0;
    let mut i: usize = lo;
    while i < hi
        invariant
            lo <= i <= hi <= v@.len(),
            all_digits(whole),
            whole == v@.subrange(lo as int, hi as int),
            acc == digits_val(v@.subrange(lo as int, i as int)),
        decreases hi - i,
    {
        proof {
            assert(v@.subrange(lo as int, i + 1 as int).drop_last() =~= v@.subrange(
                lo as int,
                i as int,
            ));
            assert(v@.subrange(lo as int, i + 1 as int).last() == v@[i as int]);
            assert(whole[i - lo as int] == v@[i as int]);
        }
        let d = (v[i] as u32 - 48) as u64;
        let step = match acc.checked_mul(10) {
            Some(x) => x.checked_add(d),
            None => None,
        };
        match step {
            Some(x) => {
                acc = x;
            },
            None => {
                proof {
                    assert(digits_val(v@.subrange(lo as int, i + 1 as int)) > u64::MAX);
                    assert(v@.subrange(lo as int, i + 1 as int) =~= whole.take(i + 1 - lo as int));
                    lemma_digits_val_prefix(whole, i + 1 - lo as int);
                }
                return None;
            },
        }
        i += 1;
    }
    Some(acc)
}

/// Parses bare signed integer text into an `i64`; `None` on any deviation
/// from the grammar or on overflow.
pub fn parse_i64_chars(v: &Vec<char>) -> (r: Option<i64>)
    ensures
        match int_text_val(v@) {
            Some(n) => if i64::MIN <= n <= i64::MAX {
                r == Some(n as i64)
            } else {
                r is None
            },
            None => r is None,
        },
{
    let n = v.len();
    if n == 0 {
        return None;
    }
    let c0 = v[0];
    let neg = c0 == '-';
    let start: usize = if c0 == '-' || c0 == '+' {
        1
    } else {
        0
    };
    if start == n {
        return None;
    }
    if !check_all_digits(v, start, n) {
        proof {
            if start == 0 {
                assert(v@.subrange(0, n as int) =~= v@);
            }
        }
        return None;
    }
    proof {
        if start == 0 {
            assert(v@.subrange(0, n as int) =~= v@);
        }
        lemma_digits_val_nonneg(v@.subrange(start as int, n as int));
    }
    let mag = match parse_u64_digits(v, start, n) {
        Some(m) => m,
        None => {
            return None;
        },
    };
    if !neg {
        if mag <= i64::MAX as u64 {
            Some(mag as i64)
        } else {
            None
        }
    } else {
        if mag <= i64::MAX as u64 {
            Some(-(mag as i64))
        } else if mag == i64::MAX as u64 + 1 {
            Some(i64::MIN)
        } else {
            None
        }
    }
}

/// Parses bare unsigned integer text into a `usize`; a minus sign is
/// rejected outright.
pub fn parse_usize_chars(v: &Vec<char>) -> (r: Option<usize>)
    ensures
        match uint_text_val(v@) {
            Some(n) => if n <= usize::MAX {
                r == Some(n as usize)
            } else {
                r is None
            },
            None => r is None,
        },
{
    let n = v.len();
    if n == 0 {
        return None;
    }
    let start: usize = if v[0] == '+' {
        1
    } else {
        0
    };
    if start == n {
        proof {
            if v@[0] != '+' {
                assert(!is_digit_char(v@[0]));
            }
        }
        return None;
    }
    if v[0] == '-' {
        proof {
            assert(!is_digit_char(v@[0]));
        }
        return None;
    }
    if !check_all_digits(v, start, n) {
        proof {
            if start == 0 {
                assert(v@.subrange(0, n as int) =~= v@);
            }
        }
        return None;
    }
    proof {
        if start == 0 {
            assert(v@.subrange(0, n as int) =~= v@);
        }
        lemma_digits_val_nonneg(v@.subrange(start as int, n as int));
    }
    match parse_u64_digits(v, start, n) {
        Some(m) => {
            if m <= usize::MAX as u64 {
                Some(m as usize)
            } else {
                None
            }
        },
        None => None,
    }
}

// ---------------------------------------------------------------------------
// Decimal text
// ---------------------------------------------------------------------------
/// An exactly represented decimal number with value `mantissa / 10^scale`.
///
/// Prices move through the pipeline in this form so that no digit is lost
/// between parsing a field and serializing it again.
#[derive(Debug, Clone, Copy, PartialEq, Eq, Structural)]
pub struct Decimal {
    pub mantissa: i64,
    pub scale: u32,
}

/// Position `i` splits the unsigned decimal text `s` into an integer part, a
/// dot, and a fractional part, with nothing but digits around the dot.
pub open spec fn dot_split_at(s: Seq<char>, i: int) -> bool {
    &&& 0 <= i < s.len()
    &&& s.len() >= 2
    &&& s[i] == '.'
    &&& all_digits(s.take(i))
    &&& all_digits(s.skip(i + 1))
}

/// Mantissa and scale of unsigned decimal text: either a bare digit run, or
/// digits split by a single dot with at least one digit on one side.
pub open spec fn decimal_body(s: Seq<char>) -> Option<(int, nat)> {
    if s.len() > 0 && all_digits(s) {
        Some((digits_val(s), 0 as nat))
    } else if exists|i: int| dot_split_at(s, i) {
        let i = choose|i: int| dot_split_at(s, i);
        Some((digits_val(s.take(i) + s.skip(i + 1)), (s.len() - i - 1) as nat))
    } else {
        None
    }
}

/// Mantissa and scale of signed decimal text.
pub open spec fn decimal_text_val(s: Seq<char>) -> Option<(int, nat)> {
    if s.len() == 0 {
        None
    } else if s[0] == '+' || s[0] == '-' {
        match decimal_body(s.subrange(1, s.len() as int)) {
            Some(p) => Some(
                (
                    if s[0] == '-' {
                        -p.0
                    } else {
                        p.0
                    },
                    p.1,
                ),
            ),
            None => None,
        }
    } else {
        decimal_body(s)
    }
}

proof fn lemma_dot_split_unique(s: Seq<char>, i: int, j: int)
    requires
        dot_split_at(s, i),
        dot_split_at(s, j),
    ensures
        i == j,
{
    if i < j {
        assert(s.take(j)[i] == s[i]);
    } else if j < i {
        assert(s.take(i)[j] == s[j]);
    }
}

/// Maps an unsigned magnitude and a sign onto the `i64` range.
fn signed_of_mag(neg: bool, mag: u64) -> (r: Option<i64>)
    ensures
        ({
            let n: int = if neg {
                -(mag as int)
            } else {
                mag as int
            };
            if i64::MIN <= n <= i64::MAX {
                r == Some(n as i64)
            } else {
                r is None
            }
        }),
{
    if !neg {
        if mag <= i64::MAX as u64 {
            Some(mag as i64)
        } else {
            None
        }
    } else {
        if mag <= i64::MAX as u64 {
            Some(-(mag as i64))
        } else if mag == i64::MAX as u64 + 1 {
            Some(i64::MIN)
        } else {
            None
        }
    }
}

/// Parses bare signed decimal text; `None` on any deviation from the
/// grammar, on mantissa overflow, or on an unrepresentable scale.
pub fn parse_decimal_chars(v: &Vec<char>) -> (r: Option<Decimal>)
    ensures
        match decimal_text_val(v@) {
            Some(p) => if -(i64::MAX as int) - 1 <= p.0 <= i64::MAX as int && p.1 <= u32::MAX
                as nat {
                r matches Some(d) && d.mantissa as int == p.0 && d.scale as nat == p.1
            } else {
                r is None
            },
            None => r is None,
        },
{
    let n = v.len();
    if n == 0 {
        return None;
    }
    let c0 = v[0];
    let neg = c0 == '-';
    let start: usize = if c0 == '-' || c0 == '+' {
        1
    } else {
        0
    };
    let ghost body = v@.subrange(start as int, n as int);
    proof {
        if start == 0 {
            assert(body =~= v@);
        }
    }
    let mut dp: usize = start;
    while dp < n && v[dp] != '.'
        invariant
            start <= dp <= n == v@.len(),
            forall|i: int| start <= i < dp ==> v@[i] != '.',
        decreases n - dp,
    {
        dp += 1;
    }
    if dp == n {
        // no dot: a plain digit run
        if start == n {
            proof {
                lemma_no_split_empty_or_undotted(body);
            }
            return None;
        }
        if !check_all_digits(v, start, n) {
            proof {
                assert(forall|i: int| 0 <= i < body.len() ==> body[i] == v@[i + start]);
                lemma_no_split_empty_or_undotted(body);
            }
            return None;
        }
        proof {
            assert(forall|i: int| 0 <= i < body.len() ==> body[i] == v@[i + start]);
            lemma_digits_val_nonneg(body);
        }
        let mag = match parse_u64_digits(v, start, n) {
            Some(m) => m,
            None => {
                return None;
            },
        };
        match signed_of_mag(neg, mag) {
            Some(m) => Some(Decimal { mantissa: m, scale: 0 }),
            None => None,
        }
    } else {
        // first dot at dp
        let ghost di: int = dp - start;
        proof {
            assert(body[di] == v@[dp as int]);
        }
        if n - start < 2 {
            proof {
                assert(forall|i: int| !dot_split_at(body, i));
                assert(!all_digits(body));
            }
            return None;
        }
        let d1 = check_all_digits(v, start, dp);
        let d2 = check_all_digits(v, dp + 1, n);
        proof {
            assert(body.take(di) =~= v@.subrange(start as int, dp as int));
            assert(body.skip(di + 1) =~= v@.subrange(dp + 1 as int, n as int));
        }
        if !d1 || !d2 {
            proof {
                assert forall|i: int| !dot_split_at(body, i) by {
                    if dot_split_at(body, i) {
                        if i < di {
                            assert(v@[i + start] != '.');
                            assert(body[i] == v@[i + start]);
                        } else if i > di {
                            assert(body.take(i)[di] == body[di]);
                        } else {
                            assert(body.take(di) == v@.subrange(start as int, dp as int));
                            assert(body.skip(di + 1) == v@.subrange(dp + 1 as int, n as int));
                        }
                    }
                }
                assert(!all_digits(body)) by {
                    assert(body[di] == '.');
                }
            }
            return None;
        }
        let mut w = subvec(v, start, dp);
        let mut frac = subvec(v, dp + 1, n);
        let ghost fracs = frac@;
        w.append(&mut frac);
        proof {
            assert(w@ == body.take(di) + body.skip(di + 1));
            assert(all_digits(w@)) by {
                assert(forall|i: int|
                    0 <= i < di ==> w@[i] == #[trigger] body.take(di)[i]);
                assert(forall|i: int|
                    di <= i < w@.len() ==> w@[i] == #[trigger] body.skip(di + 1)[i - di]);
            }
            assert(w@.subrange(0, w@.len() as int) =~= w@);
            lemma_digits_val_nonneg(w@);
            assert(dot_split_at(body, di));
            assert(!all_digits(body)) by {
                assert(body[di] == '.');
            }
            lemma_dot_split_unique(body, di, choose|i: int| dot_split_at(body, i));
        }
        let wl = w.len();
        let mag = match parse_u64_digits(&w, 0, wl) {
            Some(m) => m,
            None => {
                return None;
            },
        };
        let scale_usize = n - dp - 1;
        if scale_usize > u32::MAX as usize {
            return None;
        }
        match signed_of_mag(neg, mag) {
            Some(m) => Some(Decimal { mantissa: m, scale: scale_usize as u32 }),
            None => None,
        }
    }
}

proof fn lemma_no_split_empty_or_undotted(s: Seq<char>)
    requires
        forall|i: int| 0 <= i < s.len() ==> s[i] != '.',
    ensures
        forall|i: int| !dot_split_at(s, i),
{
}

// ---------------------------------------------------------------------------
// Public conversions: trim, strip separators, parse
// ---------------------------------------------------------------------------
/// Parses integer text with thousands separators and surrounding whitespace
/// into an `i64`.
pub fn parse_i64_with_comma(data: &str) -> (r: Result<i64, ParseError>)
    ensures
        match int_text_val(comma_core(data@)) {
            Some(n) => if i64::MIN <= n <= i64::MAX {
                r == Ok::<i64, ParseError>(n as i64)
            } else {
                r matches Err(ParseError::ConversionError(t)) && t@ == comma_core(data@)
            },
            None => r matches Err(ParseError::ConversionError(t)) && t@ == comma_core(data@),
        },
{
    let cs = chars_of(data);
    let t = trim_chars(&cs);
    let core = strip_comma_chars(&t);
    match parse_i64_chars(&core) {
        Some(x) => Ok(x),
        None => Err(ParseError::ConversionError(string_from_chars(&core))),
    }
}

/// Parses integer text with thousands separators and surrounding whitespace
/// into an `i32`.
pub fn parse_i32_with_comma(data: &str) -> (r: Result<i32, ParseError>)
    ensures
        match int_text_val(comma_core(data@)) {
            Some(n) => if i32::MIN <= n <= i32::MAX {
                r == Ok::<i32, ParseError>(n as i32)
            } else {
                r matches Err(ParseError::ConversionError(t)) && t@ == comma_core(data@)
            },
            None => r matches Err(ParseError::ConversionError(t)) && t@ == comma_core(data@),
        },
{
    let cs = chars_of(data);
    let t = trim_chars(&cs);
    let core = strip_comma_chars(&t);
    match parse_i64_chars(&core) {
        Some(x) => {
            if i32::MIN as i64 <= x && x <= i32::MAX as i64 {
                Ok(x as i32)
            } else {
                Err(ParseError::ConversionError(string_from_chars(&core)))
            }
        },
        None => Err(ParseError::ConversionError(string_from_chars(&core))),
    }
}

/// Parses unsigned integer text with thousands separators and surrounding
/// whitespace into a `usize`.
pub fn parse_usize_with_comma(data: &str) -> (r: Result<usize, ParseError>)
    ensures
        match uint_text_val(comma_core(data@)) {
            Some(n) => if n <= usize::MAX {
                r == Ok::<usize, ParseError>(n as usize)
            } else {
                r matches Err(ParseError::ConversionError(t)) && t@ == comma_core(data@)
            },
            None => r matches Err(ParseError::ConversionError(t)) && t@ == comma_core(data@),
        },
{
    let cs = chars_of(data);
    let t = trim_chars(&cs);
    let core = strip_comma_chars(&t);
    match parse_usize_chars(&core) {
        Some(x) => Ok(x),
        None => Err(ParseError::ConversionError(string_from_chars(&core))),
    }
}

/// Parses decimal text with thousands separators and surrounding whitespace
/// into a [`Decimal`].
pub fn parse_decimal_with_comma(data: &str) -> (r: Result<Decimal, ParseError>)
    ensures
        match decimal_text_val(comma_core(data@)) {
            Some(p) => if -(i64::MAX as int) - 1 <= p.0 <= i64::MAX as int && p.1 <= u32::MAX
                as nat {
                r matches Ok(d) && d.mantissa as int == p.0 && d.scale as nat == p.1
            } else {
                r matches Err(ParseError::ConversionError(t)) && t@ == comma_core(data@)
            },
            None => r matches Err(ParseError::ConversionError(t)) && t@ == comma_core(data@),
        },
{
    let cs = chars_of(data);
    let t = trim_chars(&cs);
    let core = strip_comma_chars(&t);
    match parse_decimal_chars(&core) {
        Some(d) => Ok(d),
        None => Err(ParseError::ConversionError(string_from_chars(&core))),
    }
}

} // verus!
