//! The daily-close strategy: column-indexed CSV rows under one of two
//! per-exchange layouts, selected by a substring of the source address.

use vstd::prelude::*;
use crate::chars::{chars_of, contains_seq, str_contains, str_eq, string_from_chars};
use crate::csvsplit::{csv_rows, split_csv};
use crate::errors::ParseError;
use crate::fetcher::Payload;
use crate::models::daily_close::{CsvIndexSet, DailyClose, DailyCloseV};
use crate::numeric::{
    comma_dec, comma_int, int_text_val, ok_dec, ok_i32, ok_i64, parse_decimal_chars,
    parse_i64_chars, strip_comma_chars, trim_chars, Decimal,
};
use crate::parser::{Conversion, ParseStrategy};

verus! {

/// Parses daily-close CSV exports.
#[derive(Debug)]
pub struct DailyCloseStrategy;

impl Conversion for DailyCloseStrategy {

}

/// The listed-exchange column layout.
pub open spec fn dc_twse() -> CsvIndexSet {
    CsvIndexSet {
        stock_id: 0,
        trade_shares: 2,
        transactions: 3,
        turnover: 4,
        open: 5,
        high: 6,
        low: 7,
        close: 8,
        diff: 10,
        diff_sign: Some(9usize),
    }
}

/// The over-the-counter column layout.
pub open spec fn dc_tpex() -> CsvIndexSet {
    CsvIndexSet {
        stock_id: 0,
        trade_shares: 7,
        transactions: 9,
        turnover: 8,
        open: 4,
        high: 5,
        low: 6,
        close: 2,
        diff: 3,
        diff_sign: None,
    }
}

/// A field that counts as a stock identifier: integer text in `i32`
/// range, exactly four characters long.
pub open spec fn int4_spec(s: Seq<char>) -> bool {
    &&& int_text_val(s) matches Some(n) && i32::MIN <= n <= i32::MAX
    &&& s.len() == 4
}

/// A price field that takes part in a row: non-empty and not the sentinel.
pub open spec fn valid_spec(s: Seq<char>) -> bool {
    s.len() > 0 && s != "---"@
}

/// The text carries a minus sign somewhere.
pub open spec fn has_minus(s: Seq<char>) -> bool {
    exists|k: int| 0 <= k < s.len() && s[k] == '-'
}

/// The row is fit for parsing: enough fields, every used column in
/// bounds, a four-digit stock identifier, and no empty or sentinel price.
pub open spec fn dc_row_valid(row: Seq<Seq<char>>, ix: CsvIndexSet) -> bool {
    &&& row.len() >= 17
    &&& ix.stock_id < row.len() && ix.trade_shares < row.len() && ix.transactions < row.len()
        && ix.turnover < row.len() && ix.open < row.len() && ix.high < row.len() && ix.low
        < row.len() && ix.close < row.len() && ix.diff < row.len()
    &&& (ix.diff_sign matches Some(si) ==> si < row.len())
    &&& int4_spec(row[ix.stock_id as int])
    &&& valid_spec(row[ix.open as int])
    &&& valid_spec(row[ix.high as int])
    &&& valid_spec(row[ix.low as int])
    &&& valid_spec(row[ix.close as int])
    &&& valid_spec(row[ix.diff as int])
}

/// The price difference with the sign column applied, when the layout
/// carries one.
pub open spec fn signed_diff(row: Seq<Seq<char>>, ix: CsvIndexSet, d: (int, nat)) -> (int, nat) {
    match ix.diff_sign {
        Some(si) => if has_minus(row[si as int]) {
            (-d.0, d.1)
        } else {
            d
        },
        None => d,
    }
}

/// The record a row yields, or nothing when the row is unfit or one of
/// its numeric conversions fails.
pub open spec fn dc_row_value(row: Seq<Seq<char>>, ix: CsvIndexSet, date: Seq<char>) -> Option<
    DailyCloseV,
> {
    if !dc_row_valid(row, ix) {
        None
    } else {
        let ts = comma_int(row[ix.trade_shares as int]);
        let tx = comma_int(row[ix.transactions as int]);
        let to = comma_int(row[ix.turnover as int]);
        let op = comma_dec(row[ix.open as int]);
        let hi = comma_dec(row[ix.high as int]);
        let lo = comma_dec(row[ix.low as int]);
        let cl = comma_dec(row[ix.close as int]);
        let df = comma_dec(row[ix.diff as int]);
        if ok_i64(ts) && ok_i32(tx) && ok_i64(to) && ok_dec(op) && ok_dec(hi) && ok_dec(lo)
            && ok_dec(cl) && ok_dec(df) && ok_dec(Some(signed_diff(row, ix, df->Some_0))) {
            Some(
                DailyCloseV {
                    stock_id: row[ix.stock_id as int],
                    exchange_date: date,
                    trade_shares: ts->Some_0,
                    transactions: tx->Some_0,
                    turnover: to->Some_0,
                    open: (op->Some_0.0, op->Some_0.1),
                    close: (cl->Some_0.0, cl->Some_0.1),
                    high: (hi->Some_0.0, hi->Some_0.1),
                    low: (lo->Some_0.0, lo->Some_0.1),
                    diff: signed_diff(row, ix, df->Some_0),
                },
            )
        } else {
            None
        }
    }
}

/// The records of all rows that are valid and convert, in row order.
pub open spec fn dc_records(rows: Seq<Seq<Seq<char>>>, ix: CsvIndexSet, date: Seq<char>) -> Seq<
    DailyCloseV,
>
    decreases rows.len(),
{
    if rows.len() == 0 {
        Seq::empty()
    } else {
        let rest = dc_records(rows.drop_last(), ix, date);
        match dc_row_value(rows.last(), ix, date) {
            Some(v) => rest.push(v),
            None => rest,
        }
    }
}

/// The date an orchestrator injection yields: the supplied date, or empty.
pub open spec fn date_or_empty(d: Option<String>) -> Seq<char> {
    match d {
        Some(s) => s@,
        None => Seq::empty(),
    }
}

impl DailyCloseStrategy {
    /// The stock-identifier test of the row check.
    pub fn is_integer(&self, s: &str) -> (r: bool)
        ensures
            r == int4_spec(s@),
    {
        let cs = chars_of(s);
        let in_range = match parse_i64_chars(&cs) {
            Some(x) => i32::MIN as i64 <= x && x <= i32::MAX as i64,
            None => false,
        };
        in_range && cs.len() == 4
    }

    /// The non-empty, non-sentinel test of the row check.
    pub fn valid(&self, s: &str) -> (r: bool)
        ensures
            r == valid_spec(s@),
    {
        !s.is_empty() && !str_eq(s, "---")
    }
}

/// Finds a minus sign in a field.
fn field_has_minus(s: &String) -> (r: bool)
    ensures
        r == has_minus(s@),
{
    let cs = chars_of(s.as_str());
    let mut k: usize = 0;
    while k < cs.len()
        invariant
            cs@ == s@,
            k <= cs@.len(),
            forall|m: int| 0 <= m < k ==> cs@[m] != '-',
        decreases cs@.len() - k,
    {
        if cs[k] == '-' {
            return true;
        }
        k += 1;
    }
    false
}

/// Comma-parses a field as an `i64`; `None` outside the grammar or range.
fn field_i64(s: &String) -> (r: Option<i64>)
    ensures
        match comma_int(s@) {
            Some(n) => if i64::MIN <= n <= i64::MAX {
                r == Some(n as i64)
            } else {
                r is None
            },
            None => r is None,
        },
{
    let cs = chars_of(s.as_str());
    let t = trim_chars(&cs);
    let core = strip_comma_chars(&t);
    parse_i64_chars(&core)
}

/// Comma-parses a field as a [`Decimal`]; `None` outside the grammar or
/// what the type can hold.
fn field_decimal(s: &String) -> (r: Option<Decimal>)
    ensures
        match comma_dec(s@) {
            Some(p) => if -(i64::MAX as int) - 1 <= p.0 <= i64::MAX as int && p.1 <= u32::MAX
                as nat {
                r matches Some(d) && d.mantissa as int == p.0 && d.scale as nat == p.1
            } else {
                r is None
            },
            None => r is None,
        },
{
    let cs = chars_of(s.as_str());
    let t = trim_chars(&cs);
    let core = strip_comma_chars(&t);
    parse_decimal_chars(&core)
}

/// Evaluates one row under a layout; `None` when the row is skipped.
fn dc_parse_row(row: &Vec<String>, ix: &CsvIndexSet, date: &String) -> (r: Option<DailyClose>)
    ensures
        match dc_row_value(row.deep_view(), *ix, date@) {
            Some(v) => r matches Some(rec) && rec@ == v,
            None => r is None,
        },
{
    proof {
        assert forall|k: int| 0 <= k < row@.len() implies #[trigger] row@[k]@ == row.deep_view()[k]
        by {
            assert(row.deep_view()[k] == row@[k].deep_view());
        }
    }
    let n = row.len();
    if n < 17 {
        return None;
    }
    if !(ix.stock_id < n && ix.trade_shares < n && ix.transactions < n && ix.turnover < n
        && ix.open < n && ix.high < n && ix.low < n && ix.close < n && ix.diff < n) {
        return None;
    }
    match ix.diff_sign {
        Some(si) => {
            if !(si < n) {
                return None;
            }
        },
        None => {},
    }
    let strategy = DailyCloseStrategy;
    if !strategy.is_integer(row[ix.stock_id].as_str()) {
        return None;
    }
    if !strategy.valid(row[ix.open].as_str()) || !strategy.valid(row[ix.high].as_str())
        || !strategy.valid(row[ix.low].as_str()) || !strategy.valid(row[ix.close].as_str())
        || !strategy.valid(row[ix.diff].as_str()) {
        return None;
    }
    let ts = match field_i64(&row[ix.trade_shares]) {
        Some(x) => x,
        None => {
            return None;
        },
    };
    let tx64 = match field_i64(&row[ix.transactions]) {
        Some(x) => x,
        None => {
            return None;
        },
    };
    if !(i32::MIN as i64 <= tx64 && tx64 <= i32::MAX as i64) {
        return None;
    }
    let tx = tx64 as i32;
    let to = match field_i64(&row[ix.turnover]) {
        Some(x) => x,
        None => {
            return None;
        },
    };
    let op = match field_decimal(&row[ix.open]) {
        Some(x) => x,
        None => {
            return None;
        },
    };
    let hi = match field_decimal(&row[ix.high]) {
        Some(x) => x,
        None => {
            return None;
        },
    };
    let lo = match field_decimal(&row[ix.low]) {
        Some(x) => x,
        None => {
            return None;
        },
    };
    let cl = match field_decimal(&row[ix.close]) {
        Some(x) => x,
        None => {
            return None;
        },
    };
    let df = match field_decimal(&row[ix.diff]) {
        Some(x) => x,
        None => {
            return None;
        },
    };
    let diff: Decimal = match ix.diff_sign {
        Some(si) => {
            if field_has_minus(&row[si]) {
                if df.mantissa == i64::MIN {
                    return None;
                }
                Decimal { mantissa: -df.mantissa, scale: df.scale }
            } else {
                df
            }
        },
        None => df,
    };
    Some(
        DailyClose {
            stock_id: row[ix.stock_id].clone(),
            exchange_date: date.clone(),
            trade_shares: ts,
            transactions: tx,
            turnover: to,
            open: op,
            close: cl,
            high: hi,
            low: lo,
            diff,
        },
    )
}

impl ParseStrategy for DailyCloseStrategy {
    type Error = ParseError;

    type Input = Payload;

    type Output = Vec<DailyClose>;

    open spec fn parse_post(&self, payload: Payload, r: Result<Vec<DailyClose>, ParseError>) -> bool {
        if contains_seq(payload.source@, "twse"@) {
            r matches Ok(v) && v@.map_values(|x: DailyClose| x@) == dc_records(
                csv_rows(payload.content@),
                dc_twse(),
                date_or_empty(payload.date),
            )
        } else if contains_seq(payload.source@, "tpex"@) {
            r matches Ok(v) && v@.map_values(|x: DailyClose| x@) == dc_records(
                csv_rows(payload.content@),
                dc_tpex(),
                date_or_empty(payload.date),
            )
        } else {
            r == Err::<Vec<DailyClose>, ParseError>(ParseError::UnidentifiedLayout)
        }
    }

    fn parse(&self, payload: Payload) -> (r: Result<Vec<DailyClose>, ParseError>) {
        let ix: CsvIndexSet = if str_contains(payload.source.as_str(), "twse") {
            CsvIndexSet::new_twse()
        } else if str_contains(payload.source.as_str(), "tpex") {
            CsvIndexSet::new_tpex()
        } else {
            return Err(ParseError::UnidentifiedLayout);
        };
        proof {
            assert(ix == dc_twse() || ix == dc_tpex());
        }
        let date: String = match &payload.date {
            Some(d) => d.clone(),
            None => String::new(),
        };
        let cv = chars_of(payload.content.as_str());
        let rows = split_csv(&cv);
        proof {
            assert(rows.deep_view() == csv_rows(payload.content@));
            assert forall|k: int| 0 <= k < rows@.len() implies #[trigger] rows@[k].deep_view()
                == rows.deep_view()[k] by {
            }
        }
        let ghost rowsv = rows.deep_view();
        let mut out: Vec<DailyClose> = Vec::new();
        let mut i: usize = 0;
        while i < rows.len()
            invariant
                i <= rows@.len(),
                rowsv == rows.deep_view(),
                rowsv.len() == rows@.len(),
                forall|k: int| 0 <= k < rows@.len() ==> #[trigger] rows@[k].deep_view() == rowsv[k],
                out@.map_values(|x: DailyClose| x@) == dc_records(
                    rowsv.take(i as int),
                    ix,
                    date@,
                ),
            decreases rows@.len() - i,
        {
            proof {
                assert(rowsv.take(i + 1 as int).drop_last() =~= rowsv.take(i as int));
                assert(rowsv.take(i + 1 as int).last() == rowsv[i as int]);
            }
            match dc_parse_row(&rows[i], &ix, &date) {
                Some(rec) => {
                    out.push(rec);
                    proof {
                        assert(out@.map_values(|x: DailyClose| x@) =~= dc_records(
                            rowsv.take(i + 1 as int),
                            ix,
                            date@,
                        ));
                    }
                },
                None => {},
            }
            i += 1;
        }
        proof {
            assert(rowsv.take(rowsv.len() as int) =~= rowsv);
        }
        Ok(out)
    }
}

} // verus!
