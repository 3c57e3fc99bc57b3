//! The concentration strategy: entity identity and page token read from the
//! source address, four aggregate values scraped from the marker cells of
//! the broker page.

use vstd::prelude::*;
use crate::chars::{chars_of, matches_at, string_from_chars, subvec};
use crate::errors::ParseError;
use crate::fetcher::Payload;
use crate::html::html_cells;
use crate::models::concentration::Temp;
use crate::numeric::{
    all_digits, comma_core, comma_dec, comma_int, digits_val, is_digit, is_digit_char, ok_dec,
    ok_i32, parse_decimal_chars, parse_i64_chars, parse_usize_chars, strip_comma_chars, trim_chars,
};
use crate::parser::{Conversion, ParseStrategy};

verus! {

/// Parses broker concentration pages.
#[derive(Debug)]
pub struct ConcentrationStrategy;

impl Conversion for ConcentrationStrategy {

}

/// The end of the maximal digit run of `s` that starts at `j`.
pub open spec fn digit_run_end(s: Seq<char>, j: int) -> int
    decreases s.len() - j,
{
    if 0 <= j < s.len() && is_digit_char(s[j]) {
        digit_run_end(s, j + 1)
    } else {
        j
    }
}

proof fn lemma_digit_run_end(s: Seq<char>, j: int)
    requires
        0 <= j <= s.len(),
    ensures
        j <= digit_run_end(s, j) <= s.len(),
        forall|k: int| j <= k < digit_run_end(s, j) ==> is_digit_char(s[k]),
        digit_run_end(s, j) < s.len() ==> !is_digit_char(s[digit_run_end(s, j)]),
    decreases s.len() - j,
{
    if j < s.len() && is_digit_char(s[j]) {
        lemma_digit_run_end(s, j + 1);
    }
}

/// The address pattern matches at position `i`: the literal marker, a digit
/// run, an underscore, and a second digit run.
pub open spec fn zco_match_at(s: Seq<char>, i: int) -> bool {
    let d1e = digit_run_end(s, i + 4);
    &&& 0 <= i && i + 4 <= s.len()
    &&& s.subrange(i, i + 4) == "zco_"@
    &&& d1e > i + 4
    &&& d1e < s.len() && s[d1e] == '_'
    &&& digit_run_end(s, d1e + 1) > d1e + 1
}

/// The entity digits and the page-token value read off a match at `i`.
pub open spec fn ident_at(s: Seq<char>, i: int) -> (Seq<char>, int) {
    let d1e = digit_run_end(s, i + 4);
    let d2e = digit_run_end(s, d1e + 1);
    (s.subrange(i + 4, d1e), digits_val(s.subrange(d1e + 1, d2e)))
}

/// The leftmost address-pattern match at or after position `i`.
pub open spec fn first_zco(s: Seq<char>, i: int) -> Option<(Seq<char>, int)>
    decreases s.len() - i,
{
    if i < 0 || i + 4 > s.len() {
        None
    } else if zco_match_at(s, i) {
        Some(ident_at(s, i))
    } else {
        first_zco(s, i + 1)
    }
}

/// The entity digits and page-token value encoded in a source address, if
/// any.
pub open spec fn identifier_spec(s: Seq<char>) -> Option<(Seq<char>, int)> {
    first_zco(s, 0)
}

/// The page slot a token selects: the token minus one, except that token
/// six backfills slot four.
pub open spec fn slot_of_token(token: int) -> int {
    if token == 6 {
        4
    } else {
        token - 1
    }
}

/// The spot where a page token lands: one slot per token, token six taking
/// over the slot of the dropped forty-day variant and never a slot of its
/// own.
pub proof fn lemma_token_slot_mapping()
    ensures
        slot_of_token(1) == 0,
        slot_of_token(2) == 1,
        slot_of_token(3) == 2,
        slot_of_token(4) == 3,
        slot_of_token(5) == 4,
        slot_of_token(6) == 4,
        slot_of_token(6) != 5,
        forall|t: int| 1 <= t <= 6 ==> 0 <= #[trigger] slot_of_token(t) < 5,
{
}

/// Finds the digit-run pair after a marker occurrence at `i`; `None` when
/// the pattern does not complete there.
fn zco_runs_at(v: &Vec<char>, i: usize) -> (r: Option<(usize, usize)>)
    requires
        i + 4 <= v@.len(),
        v@.subrange(i as int, i + 4) == "zco_"@,
    ensures
        match r {
            Some(p) => zco_match_at(v@, i as int) && p.0 as int == digit_run_end(v@, i + 4)
                && p.1 as int == digit_run_end(v@, p.0 + 1),
            None => !zco_match_at(v@, i as int),
        },
{
    let n = v.len();
    let mut e: usize = i + 4;
    while e < n && is_digit(v[e])
        invariant
            i + 4 <= e <= n == v@.len(),
            digit_run_end(v@, i + 4) == digit_run_end(v@, e as int),
        decreases n - e,
    {
        e += 1;
    }
    proof {
        assert(digit_run_end(v@, e as int) == e);
    }
    if e == i + 4 {
        return None;
    }
    if e == n || v[e] != '_' {
        return None;
    }
    let mut f: usize = e + 1;
    while f < n && is_digit(v[f])
        invariant
            e + 1 <= f <= n == v@.len(),
            digit_run_end(v@, e + 1) == digit_run_end(v@, f as int),
        decreases n - f,
    {
        f += 1;
    }
    proof {
        assert(digit_run_end(v@, f as int) == f);
    }
    if f == e + 1 {
        return None;
    }
    Some((e, f))
}

impl ConcentrationStrategy {
    /// Reads the entity identity and the page slot out of a source address.
    pub fn identifier(&self, url: &str) -> (r: Result<(String, usize), ParseError>)
        ensures
            match identifier_spec(url@) {
                Some(p) => if 1 <= p.1 <= usize::MAX {
                    r matches Ok(q) && q.0@ == p.0 && q.1 as int == slot_of_token(p.1)
                } else {
                    r matches Err(e) && e is InvalidSource
                },
                None => r matches Err(e) && e is InvalidSource,
            },
    {
        let cs = chars_of(url);
        let n = cs.len();
        let marker = chars_of("zco_");
        if n < 4 {
            return Err(ParseError::InvalidSource);
        }
        proof {
            reveal_strlit("zco_");
        }
        let mut i: usize = 0;
        while i <= n - 4
            invariant
                n == cs@.len(),
                4 <= n,
                cs@ == url@,
                marker@ == "zco_"@,
                marker@.len() == 4,
                i <= n - 3,
                identifier_spec(url@) == first_zco(cs@, i as int),
            decreases n - i,
        {
            if matches_at(&cs, i, &marker) {
                match zco_runs_at(&cs, i) {
                    Some((d1e, d2e)) => {
                        proof {
                            lemma_digit_run_end(cs@, i + 4 as int);
                            lemma_digit_run_end(cs@, d1e + 1 as int);
                        }
                        let id_chars = subvec(&cs, i + 4, d1e);
                        let tok_chars = subvec(&cs, d1e + 1, d2e);
                        proof {
                            assert(all_digits(tok_chars@));
                            assert(tok_chars@.len() > 0);
                            assert(tok_chars@[0] != '+');
                            assert(crate::numeric::uint_text_val(tok_chars@) == Some(
                                digits_val(tok_chars@),
                            ));
                            assert(first_zco(cs@, i as int) == Some(ident_at(cs@, i as int)));
                        }
                        let token = match parse_usize_chars(&tok_chars) {
                            Some(t) => t,
                            None => {
                                return Err(ParseError::InvalidSource);
                            },
                        };
                        if token == 0 {
                            return Err(ParseError::InvalidSource);
                        }
                        proof {
                            crate::numeric::lemma_digits_val_nonneg(tok_chars@);
                            let p = identifier_spec(url@)->Some_0;
                            assert(identifier_spec(url@) is Some);
                            assert(p.0 == id_chars@);
                            assert(p.1 == token as int);
                            assert(1 <= p.1 <= usize::MAX);
                        }
                        let pos: usize = if token == 6 {
                            4
                        } else {
                            token - 1
                        };
                        return Ok((string_from_chars(&id_chars), pos));
                    },
                    None => {
                        proof {
                            assert(first_zco(cs@, i as int) == first_zco(cs@, i + 1 as int));
                        }
                    },
                }
            } else {
                proof {
                    assert(!zco_match_at(cs@, i as int));
                    assert(first_zco(cs@, i as int) == first_zco(cs@, i + 1 as int));
                }
            }
            i += 1;
        }
        proof {
            assert(first_zco(cs@, i as int) is None);
        }
        Err(ParseError::InvalidSource)
    }
}

/// The conversion failed on the text whose comma-stripped core is `t`.
pub open spec fn conv_err(r: Result<Temp, ParseError>, t: Seq<char>) -> bool {
    r matches Err(ParseError::ConversionError(s)) && s@ == t
}

impl ParseStrategy for ConcentrationStrategy {
    type Error = ParseError;

    type Input = Payload;

    type Output = Temp;

    open spec fn parse_post(&self, payload: Payload, r: Result<Temp, ParseError>) -> bool {
        match identifier_spec(payload.source@) {
            None => r matches Err(e) && e is InvalidSource,
            Some(p) => if !(1 <= p.1 <= usize::MAX) {
                r matches Err(e) && e is InvalidSource
            } else {
                let cells = html_cells(payload.content@);
                if cells.len() != 4 {
                    r matches Err(ParseError::MalformedDocument(n)) && n == cells.len()
                } else if !ok_i32(comma_int(cells[0])) {
                    conv_err(r, comma_core(cells[0]))
                } else if !ok_i32(comma_int(cells[1])) {
                    conv_err(r, comma_core(cells[1]))
                } else if !ok_dec(comma_dec(cells[2])) {
                    conv_err(r, comma_core(cells[2]))
                } else if !ok_dec(comma_dec(cells[3])) {
                    conv_err(r, comma_core(cells[3]))
                } else {
                    let buy = comma_int(cells[0])->Some_0;
                    let sell = comma_int(cells[1])->Some_0;
                    let ab = comma_dec(cells[2])->Some_0;
                    let asp = comma_dec(cells[3])->Some_0;
                    &&& r matches Ok(t)
                    &&& t.0@ == p.0
                    &&& t.1 as int == slot_of_token(p.1)
                    &&& t.2 as int == buy - sell
                    &&& t.3 as int == buy
                    &&& t.4 as int == sell
                    &&& t.5.mantissa as int == ab.0 && t.5.scale as nat == ab.1
                    &&& t.6.mantissa as int == asp.0 && t.6.scale as nat == asp.1
                }
            },
        }
    }

    fn parse(&self, payload: Payload) -> (r: Result<Temp, ParseError>) {
        let ident = match self.identifier(payload.source.as_str()) {
            Ok(p) => p,
            Err(e) => {
                return Err(e);
            },
        };
        let cv = chars_of(payload.content.as_str());
        let cells = crate::html::collect_marker_cells(&cv);
        proof {
            assert(cells.deep_view() == html_cells(payload.content@));
            assert forall|k: int| 0 <= k < cells@.len() implies #[trigger] cells@[k]@ == html_cells(
                payload.content@,
            )[k] by {
                assert(cells.deep_view()[k] == cells@[k]@);
            }
        }
        if cells.len() != 4 {
            return Err(ParseError::MalformedDocument(cells.len()));
        }
        let total_buy = match parse_cell_i32(&cells[0]) {
            Ok(x) => x,
            Err(e) => {
                return Err(e);
            },
        };
        let total_sell = match parse_cell_i32(&cells[1]) {
            Ok(x) => x,
            Err(e) => {
                return Err(e);
            },
        };
        let avg_buy = match parse_cell_decimal(&cells[2]) {
            Ok(x) => x,
            Err(e) => {
                return Err(e);
            },
        };
        let avg_sell = match parse_cell_decimal(&cells[3]) {
            Ok(x) => x,
            Err(e) => {
                return Err(e);
            },
        };
        let net: i64 = total_buy as i64 - total_sell as i64;
        Ok(Temp(ident.0, ident.1, net, total_buy, total_sell, avg_buy, avg_sell))
    }
}

/// Comma-parses one cell text as an `i32`.
fn parse_cell_i32(cell: &Vec<char>) -> (r: Result<i32, ParseError>)
    ensures
        match comma_int(cell@) {
            Some(n) => if i32::MIN <= n <= i32::MAX {
                r == Ok::<i32, ParseError>(n as i32)
            } else {
                r matches Err(ParseError::ConversionError(t)) && t@ == comma_core(cell@)
            },
            None => r matches Err(ParseError::ConversionError(t)) && t@ == comma_core(cell@),
        },
{
    let t = trim_chars(cell);
    let core = strip_comma_chars(&t);
    match parse_i64_chars(&core) {
        Some(x) => {
            if i32::MIN as i64 <= x && x <= i32::MAX as i64 {
                Ok(x as i32)
            } else {
                Err(ParseError::ConversionError(string_from_chars(&core)))
            }
        },
        None => Err(ParseError::ConversionError(string_from_chars(&core))),
    }
}

/// Comma-parses one cell text as a decimal.
fn parse_cell_decimal(cell: &Vec<char>) -> (r: Result<crate::numeric::Decimal, ParseError>)
    ensures
        match comma_dec(cell@) {
            Some(p) => if -(i64::MAX as int) - 1 <= p.0 <= i64::MAX as int && p.1 <= u32::MAX
                as nat {
                r matches Ok(d) && d.mantissa as int == p.0 && d.scale as nat == p.1
            } else {
                r matches Err(ParseError::ConversionError(t)) && t@ == comma_core(cell@)
            },
            None => r matches Err(ParseError::ConversionError(t)) && t@ == comma_core(cell@),
        },
{
    let t = trim_chars(cell);
    let core = strip_comma_chars(&t);
    match parse_decimal_chars(&core) {
        Some(d) => Ok(d),
        None => Err(ParseError::ConversionError(string_from_chars(&core))),
    }
}

/// Net shares of a parsed page are exactly total buy minus total sell: for
/// any payload whose address identifies an entity and a usable token and
/// whose document carries exactly four numeric marker cells, the parse
/// succeeds and its net-share field is the difference of the first two cell
/// values.
pub proof fn lemma_net_shares_exact(
    s: ConcentrationStrategy,
    payload: Payload,
    r: Result<Temp, ParseError>,
)
    requires
        s.parse_post(payload, r),
        identifier_spec(payload.source@) matches Some(p) && 1 <= p.1 <= usize::MAX,
        html_cells(payload.content@).len() == 4,
        ok_i32(comma_int(html_cells(payload.content@)[0])),
        ok_i32(comma_int(html_cells(payload.content@)[1])),
        ok_dec(comma_dec(html_cells(payload.content@)[2])),
        ok_dec(comma_dec(html_cells(payload.content@)[3])),
    ensures
        r matches Ok(t) && t.2 as int == comma_int(html_cells(payload.content@)[0])->Some_0
            - comma_int(html_cells(payload.content@)[1])->Some_0,
{
}

/// A document with any number of marker cells other than four fails as
/// malformed, reporting how many cells were found.
pub proof fn lemma_malformed_document(
    s: ConcentrationStrategy,
    payload: Payload,
    r: Result<Temp, ParseError>,
)
    requires
        s.parse_post(payload, r),
        identifier_spec(payload.source@) matches Some(p) && 1 <= p.1 <= usize::MAX,
        html_cells(payload.content@).len() != 4,
    ensures
        r matches Err(ParseError::MalformedDocument(n)) && n == html_cells(payload.content@).len(),
{
}

} // verus!
