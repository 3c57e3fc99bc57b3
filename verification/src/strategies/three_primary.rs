//! The three-primary-investors strategy: structurally the daily-close
//! strategy with four trade-share columns, no prices and no sign handling.

use vstd::prelude::*;
use crate::chars::{chars_of, contains_seq, str_contains, str_eq};
use crate::csvsplit::{csv_rows, split_csv};
use crate::errors::ParseError;
use crate::fetcher::Payload;
use crate::models::three_primary::{CsvIndexSet, ThreePrimary, ThreePrimaryV};
use crate::numeric::{comma_int, ok_i64, parse_i64_chars, strip_comma_chars, trim_chars};
use crate::parser::{Conversion, ParseStrategy};
use crate::strategies::daily_close::{date_or_empty, int4_spec, valid_spec};

verus! {

/// Parses three-primary-investors CSV exports.
#[derive(Debug)]
pub struct ThreePrimaryStrategy;

impl Conversion for ThreePrimaryStrategy {

}

/// The listed-exchange column layout.
pub open spec fn tp_twse() -> CsvIndexSet {
    CsvIndexSet {
        stock_id: 0,
        foreign_trade_shares: 4,
        trust_trade_shares: 10,
        dealer_trade_shares: 14,
        hedging_trade_shares: 17,
    }
}

/// The over-the-counter column layout.
pub open spec fn tp_tpex() -> CsvIndexSet {
    CsvIndexSet {
        stock_id: 0,
        foreign_trade_shares: 10,
        trust_trade_shares: 13,
        dealer_trade_shares: 16,
        hedging_trade_shares: 19,
    }
}

/// The row is fit for parsing: enough fields, every used column in
/// bounds, a four-digit stock identifier, and no empty or sentinel share
/// field.
pub open spec fn tp_row_valid(row: Seq<Seq<char>>, ix: CsvIndexSet) -> bool {
    &&& row.len() >= 19
    &&& ix.stock_id < row.len() && ix.foreign_trade_shares < row.len() && ix.trust_trade_shares
        < row.len() && ix.dealer_trade_shares < row.len() && ix.hedging_trade_shares < row.len()
    &&& int4_spec(row[ix.stock_id as int])
    &&& valid_spec(row[ix.foreign_trade_shares as int])
    &&& valid_spec(row[ix.trust_trade_shares as int])
    &&& valid_spec(row[ix.dealer_trade_shares as int])
    &&& valid_spec(row[ix.hedging_trade_shares as int])
}

/// The record a row yields, or nothing when the row is unfit or one of
/// its numeric conversions fails.
pub open spec fn tp_row_value(row: Seq<Seq<char>>, ix: CsvIndexSet, date: Seq<char>) -> Option<
    ThreePrimaryV,
> {
    if !tp_row_valid(row, ix) {
        None
    } else {
        let fo = comma_int(row[ix.foreign_trade_shares as int]);
        let tr = comma_int(row[ix.trust_trade_shares as int]);
        let de = comma_int(row[ix.dealer_trade_shares as int]);
        let he = comma_int(row[ix.hedging_trade_shares as int]);
        if ok_i64(fo) && ok_i64(tr) && ok_i64(de) && ok_i64(he) {
            Some(
                ThreePrimaryV {
                    stock_id: row[ix.stock_id as int],
                    exchange_date: date,
                    foreign_trade_shares: fo->Some_0,
                    trust_trade_shares: tr->Some_0,
                    dealer_trade_shares: de->Some_0,
                    hedging_trade_shares: he->Some_0,
                },
            )
        } else {
            None
        }
    }
}

/// The records of all rows that are valid and convert, in row order.
pub open spec fn tp_records(rows: Seq<Seq<Seq<char>>>, ix: CsvIndexSet, date: Seq<char>) -> Seq<
    ThreePrimaryV,
>
    decreases rows.len(),
{
    if rows.len() == 0 {
        Seq::empty()
    } else {
        let rest = tp_records(rows.drop_last(), ix, date);
        match tp_row_value(rows.last(), ix, date) {
            Some(v) => rest.push(v),
            None => rest,
        }
    }
}

impl ThreePrimaryStrategy {
    /// The stock-identifier test of the row check.
    pub fn is_integer(&self, s: &str) -> (r: bool)
        ensures
            r == int4_spec(s@),
    {
        let cs = chars_of(s);
        let in_range = match parse_i64_chars(&cs) {
            Some(x) => i32::MIN as i64 <= x && x <= i32::MAX as i64,
            None => false,
        };
        in_range && cs.len() == 4
    }

    /// The non-empty, non-sentinel test of the row check.
    pub fn valid(&self, s: &str) -> (r: bool)
        ensures
            r == valid_spec(s@),
    {
        !s.is_empty() && !str_eq(s, "---")
    }
}

/// Comma-parses a field as an `i64`; `None` outside the grammar or range.
fn field_i64(s: &String) -> (r: Option<i64>)
    ensures
        match comma_int(s@) {
            Some(n) => if i64::MIN <= n <= i64::MAX {
                r == Some(n as i64)
            } else {
                r is None
            },
            None => r is None,
        },
{
    let cs = chars_of(s.as_str());
    let t = trim_chars(&cs);
    let core = strip_comma_chars(&t);
    parse_i64_chars(&core)
}

/// Evaluates one row under a layout; `None` when the row is skipped.
fn tp_parse_row(row: &Vec<String>, ix: &CsvIndexSet, date: &String) -> (r: Option<ThreePrimary>)
    ensures
        match tp_row_value(row.deep_view(), *ix, date@) {
            Some(v) => r matches Some(rec) && rec@ == v,
            None => r is None,
        },
{
    proof {
        assert forall|k: int| 0 <= k < row@.len() implies #[trigger] row@[k]@ == row.deep_view()[k]
        by {
            assert(row.deep_view()[k] == row@[k].deep_view());
        }
    }
    let n = row.len();
    if n < 19 {
        return None;
    }
    if !(ix.stock_id < n && ix.foreign_trade_shares < n && ix.trust_trade_shares < n
        && ix.dealer_trade_shares < n && ix.hedging_trade_shares < n) {
        return None;
    }
    let strategy = ThreePrimaryStrategy;
    if !strategy.is_integer(row[ix.stock_id].as_str()) {
        return None;
    }
    if !strategy.valid(row[ix.foreign_trade_shares].as_str()) || !strategy.valid(
        row[ix.trust_trade_shares].as_str(),
    ) || !strategy.valid(row[ix.dealer_trade_shares].as_str()) || !strategy.valid(
        row[ix.hedging_trade_shares].as_str(),
    ) {
        return None;
    }
    let fo = match field_i64(&row[ix.foreign_trade_shares]) {
        Some(x) => x,
        None => {
            return None;
        },
    };
    let tr = match field_i64(&row[ix.trust_trade_shares]) {
        Some(x) => x,
        None => {
            return None;
        },
    };
    let de = match field_i64(&row[ix.dealer_trade_shares]) {
        Some(x) => x,
        None => {
            return None;
        },
    };
    let he = match field_i64(&row[ix.hedging_trade_shares]) {
        Some(x) => x,
        None => {
            return None;
        },
    };
    Some(
        ThreePrimary {
            stock_id: row[ix.stock_id].clone(),
            exchange_date: date.clone(),
            foreign_trade_shares: fo,
            trust_trade_shares: tr,
            dealer_trade_shares: de,
            hedging_trade_shares: he,
        },
    )
}

impl ParseStrategy for ThreePrimaryStrategy {
    type Error = ParseError;

    type Input = Payload;

    type Output = Vec<ThreePrimary>;

    open spec fn parse_post(&self, payload: Payload, r: Result<Vec<ThreePrimary>, ParseError>) -> bool {
        if contains_seq(payload.source@, "twse"@) {
            r matches Ok(v) && v@.map_values(|x: ThreePrimary| x@) == tp_records(
                csv_rows(payload.content@),
                tp_twse(),
                date_or_empty(payload.date),
            )
        } else if contains_seq(payload.source@, "tpex"@) {
            r matches Ok(v) && v@.map_values(|x: ThreePrimary| x@) == tp_records(
                csv_rows(payload.content@),
                tp_tpex(),
                date_or_empty(payload.date),
            )
        } else {
            r == Err::<Vec<ThreePrimary>, ParseError>(ParseError::UnidentifiedLayout)
        }
    }

    fn parse(&self, payload: Payload) -> (r: Result<Vec<ThreePrimary>, ParseError>) {
        let ix: CsvIndexSet = if str_contains(payload.source.as_str(), "twse") {
            CsvIndexSet::new_twse()
        } else if str_contains(payload.source.as_str(), "tpex") {
            CsvIndexSet::new_tpex()
        } else {
            return Err(ParseError::UnidentifiedLayout);
        };
        proof {
            assert(ix == tp_twse() || ix == tp_tpex());
        }
        let date: String = match &payload.date {
            Some(d) => d.clone(),
            None => String::new(),
        };
        let cv = chars_of(payload.content.as_str());
        let rows = split_csv(&cv);
        proof {
            assert(rows.deep_view() == csv_rows(payload.content@));
            assert forall|k: int| 0 <= k < rows@.len() implies #[trigger] rows@[k].deep_view()
                == rows.deep_view()[k] by {
            }
        }
        let ghost rowsv = rows.deep_view();
        let mut out: Vec<ThreePrimary> = Vec::new();
        let mut i: usize = 0;
        while i < rows.len()
            invariant
                i <= rows@.len(),
                rowsv == rows.deep_view(),
                rowsv.len() == rows@.len(),
                forall|k: int| 0 <= k < rows@.len() ==> #[trigger] rows@[k].deep_view() == rowsv[k],
                out@.map_values(|x: ThreePrimary| x@) == tp_records(
                    rowsv.take(i as int),
                    ix,
                    date@,
                ),
            decreases rows@.len() - i,
        {
            proof {
                assert(rowsv.take(i + 1 as int).drop_last() =~= rowsv.take(i as int));
                assert(rowsv.take(i + 1 as int).last() == rowsv[i as int]);
            }
            match tp_parse_row(&rows[i], &ix, &date) {
                Some(rec) => {
                    out.push(rec);
                    proof {
                        assert(out@.map_values(|x: ThreePrimary| x@) =~= tp_records(
                            rowsv.take(i + 1 as int),
                            ix,
                            date@,
                        ));
                    }
                },
                None => {},
            }
            i += 1;
        }
        proof {
            assert(rowsv.take(rowsv.len() as int) =~= rowsv);
        }
        Ok(out)
    }
}

} // verus!
