//! Building the published JSON text by hand: string escaping and integer
//! lists, with the exact output pinned down in specs.

use vstd::prelude::*;
use crate::chars::chars_of;
use crate::fmt::{char_of_digit, int_chars, push_i64_digits};

verus! {

/// Lower-case hexadecimal digit for value `d`.
pub open spec fn hex_char(d: int) -> char {
    if d < 10 {
        char_of_digit(d)
    } else {
        ((87 + d) as u8) as char
    }
}

/// The JSON escape of one character: the two-character shorthands for the
/// common control characters, `\u00..` for the rest below 0x20, and the
/// character itself otherwise.
pub open spec fn esc_char(c: char) -> Seq<char> {
    if c == '"' {
        seq!['\\', '"']
    } else if c == '\\' {
        seq!['\\', '\\']
    } else if c as int == 0x8 {
        seq!['\\', 'b']
    } else if c as int == 0x9 {
        seq!['\\', 't']
    } else if c as int == 0xa {
        seq!['\\', 'n']
    } else if c as int == 0xc {
        seq!['\\', 'f']
    } else if c as int == 0xd {
        seq!['\\', 'r']
    } else if (c as int) < 0x20 {
        seq!['\\', 'u', '0', '0', hex_char((c as int) / 16), hex_char((c as int) % 16)]
    } else {
        seq![c]
    }
}

/// A character sequence with every character JSON-escaped.
pub open spec fn json_escaped(s: Seq<char>) -> Seq<char>
    decreases s.len(),
{
    if s.len() == 0 {
        Seq::empty()
    } else {
        json_escaped(s.drop_last()) + esc_char(s.last())
    }
}

/// A comma-separated list of signed decimal numbers.
pub open spec fn int_list_chars(s: Seq<int>) -> Seq<char>
    decreases s.len(),
{
    if s.len() == 0 {
        Seq::empty()
    } else if s.len() == 1 {
        int_chars(s[0])
    } else {
        int_list_chars(s.drop_last()) + seq![','] + int_chars(s.last())
    }
}

/// Appends the characters of a string slice to `out`.
pub fn push_str_chars(out: &mut Vec<char>, s: &str)
    ensures
        final(out)@ == old(out)@ + s@,
{
    let mut cv = chars_of(s);
    out.append(&mut cv);
}

/// Appends one JSON-escaped character to `out`.
fn push_esc_char(out: &mut Vec<char>, c: char)
    ensures
        final(out)@ == old(out)@ + esc_char(c),
{
    let u = c as u32;
    if c == '"' {
        out.push('\\');
        out.push('"');
    } else if c == '\\' {
        out.push('\\');
        out.push('\\');
    } else if u == 0x8 {
        out.push('\\');
        out.push('b');
    } else if u == 0x9 {
        out.push('\\');
        out.push('t');
    } else if u == 0xa {
        out.push('\\');
        out.push('n');
    } else if u == 0xc {
        out.push('\\');
        out.push('f');
    } else if u == 0xd {
        out.push('\\');
        out.push('r');
    } else if u < 0x20 {
        out.push('\\');
        out.push('u');
        out.push('0');
        out.push('0');
        let hi = (u / 16) as u8;
        let lo = (u % 16) as u8;
        out.push(
            if hi < 10 {
                (48 + hi) as char
            } else {
                (87 + hi) as char
            },
        );
        out.push(
            if lo < 10 {
                (48 + lo) as char
            } else {
                (87 + lo) as char
            },
        );
    } else {
        out.push(c);
    }
    proof {
        assert(out@ =~= old(out)@ + esc_char(c));
    }
}

/// Appends the JSON-escaped form of a string to `out`.
pub fn push_json_escaped(out: &mut Vec<char>, s: &str)
    ensures
        final(out)@ == old(out)@ + json_escaped(s@),
{
    let sv = chars_of(s);
    let mut i: usize = 0;
    while i < sv.len()
        invariant
            sv@ == s@,
            i <= sv@.len(),
            out@ == old(out)@ + json_escaped(sv@.take(i as int)),
        decreases sv@.len() - i,
    {
        proof {
            assert(sv@.take(i + 1 as int).drop_last() =~= sv@.take(i as int));
            assert(sv@.take(i + 1 as int).last() == sv@[i as int]);
        }
        push_esc_char(out, sv[i]);
        i += 1;
    }
    proof {
        assert(sv@.take(sv@.len() as int) =~= sv@);
    }
}

/// Appends a comma-separated list of `i64` values to `out`.
pub fn push_i64_list(out: &mut Vec<char>, v: &Vec<i64>)
    ensures
        final(out)@ == old(out)@ + int_list_chars(v@.map_values(|x: i64| x as int)),
{
    let ghost m = v@.map_values(|x: i64| x as int);
    let mut i: usize = 0;
    while i < v.len()
        invariant
            m == v@.map_values(|x: i64| x as int),
            i <= v@.len(),
            out@ == old(out)@ + int_list_chars(m.take(i as int)),
        decreases v@.len() - i,
    {
        proof {
            assert(m.take(i + 1 as int).drop_last() =~= m.take(i as int));
            assert(m.take(i + 1 as int).last() == v@[i as int] as int);
        }
        if i > 0 {
            out.push(',');
        }
        push_i64_digits(out, v[i]);
        proof {
            if i == 0 {
                assert(int_list_chars(m.take(1)) == int_chars(m.take(1)[0]));
                assert(out@ =~= old(out)@ + int_list_chars(m.take(i + 1 as int)));
            } else {
                assert(out@ =~= old(out)@ + int_list_chars(m.take(i + 1 as int)));
            }
        }
        i += 1;
    }
    proof {
        assert(m.take(m.len() as int) =~= m);
    }
}

/// Appends a comma-separated list of `i32` values to `out`.
pub fn push_i32_list(out: &mut Vec<char>, v: &Vec<i32>)
    ensures
        final(out)@ == old(out)@ + int_list_chars(v@.map_values(|x: i32| x as int)),
{
    let ghost m = v@.map_values(|x: i32| x as int);
    let mut i: usize = 0;
    while i < v.len()
        invariant
            m == v@.map_values(|x: i32| x as int),
            i <= v@.len(),
            out@ == old(out)@ + int_list_chars(m.take(i as int)),
        decreases v@.len() - i,
    {
        proof {
            assert(m.take(i + 1 as int).drop_last() =~= m.take(i as int));
            assert(m.take(i + 1 as int).last() == v@[i as int] as int);
        }
        if i > 0 {
            out.push(',');
        }
        push_i64_digits(out, v[i] as i64);
        proof {
            if i == 0 {
                assert(int_list_chars(m.take(1)) == int_chars(m.take(1)[0]));
            }
            assert(out@ =~= old(out)@ + int_list_chars(m.take(i + 1 as int)));
        }
        i += 1;
    }
    proof {
        assert(m.take(m.len() as int) =~= m);
    }
}

} // verus!
