//! The daily-close record family and its per-exchange CSV column layouts.

use vstd::prelude::*;
use crate::chars::string_from_chars;
use crate::fmt::{decimal_chars, decimal_to_chars, int_chars, push_i64_digits};
use crate::jsonout::{json_escaped, push_json_escaped, push_str_chars};
use crate::numeric::Decimal;

verus! {

/// Which CSV column carries which daily-close field, plus the optional
/// column that carries the sign of the price difference.
pub struct CsvIndexSet {
    pub stock_id: usize,
    pub trade_shares: usize,
    pub transactions: usize,
    pub turnover: usize,
    pub open: usize,
    pub high: usize,
    pub low: usize,
    pub close: usize,
    pub diff: usize,
    pub diff_sign: Option<usize>,
}

impl CsvIndexSet {
    /// The listed-exchange layout: the sign of the price difference sits in
    /// a column of its own.
    pub fn new_twse() -> (r: Self)
        ensures
            r.stock_id == 0,
            r.trade_shares == 2,
            r.transactions == 3,
            r.turnover == 4,
            r.open == 5,
            r.high == 6,
            r.low == 7,
            r.close == 8,
            r.diff == 10,
            r.diff_sign == Some(9usize),
    {
        Self {
            stock_id: 0,
            trade_shares: 2,
            transactions: 3,
            turnover: 4,
            open: 5,
            high: 6,
            low: 7,
            close: 8,
            diff: 10,
            diff_sign: Some(9),
        }
    }

    /// The over-the-counter layout: the price difference carries its own
    /// sign.
    pub fn new_tpex() -> (r: Self)
        ensures
            r.stock_id == 0,
            r.trade_shares == 7,
            r.transactions == 9,
            r.turnover == 8,
            r.open == 4,
            r.high == 5,
            r.low == 6,
            r.close == 2,
            r.diff == 3,
            r.diff_sign is None,
    {
        Self {
            stock_id: 0,
            trade_shares: 7,
            transactions: 9,
            turnover: 8,
            open: 4,
            high: 5,
            low: 6,
            close: 2,
            diff: 3,
            diff_sign: None,
        }
    }
}

/// One finished daily-close record: a single CSV row.
#[derive(Debug)]
pub struct DailyClose {
    pub stock_id: String,
    pub exchange_date: String,
    pub trade_shares: i64,
    pub transactions: i32,
    pub turnover: i64,
    pub open: Decimal,
    pub close: Decimal,
    pub high: Decimal,
    pub low: Decimal,
    pub diff: Decimal,
}

/// The mathematical shape of a daily-close record: character sequences for
/// the identity fields, integers for the counts, mantissa-and-scale pairs
/// for the prices.
pub struct DailyCloseV {
    pub stock_id: Seq<char>,
    pub exchange_date: Seq<char>,
    pub trade_shares: int,
    pub transactions: int,
    pub turnover: int,
    pub open: (int, nat),
    pub close: (int, nat),
    pub high: (int, nat),
    pub low: (int, nat),
    pub diff: (int, nat),
}

impl View for DailyClose {
    type V = DailyCloseV;

    open spec fn view(&self) -> DailyCloseV {
        DailyCloseV {
            stock_id: self.stock_id@,
            exchange_date: self.exchange_date@,
            trade_shares: self.trade_shares as int,
            transactions: self.transactions as int,
            turnover: self.turnover as int,
            open: (self.open.mantissa as int, self.open.scale as nat),
            close: (self.close.mantissa as int, self.close.scale as nat),
            high: (self.high.mantissa as int, self.high.scale as nat),
            low: (self.low.mantissa as int, self.low.scale as nat),
            diff: (self.diff.mantissa as int, self.diff.scale as nat),
        }
    }
}

impl DailyClose {
    /// The exact JSON text of this record.
    pub open spec fn json_spec(&self) -> Seq<char> {
        "{\"stockId\":\""@ + json_escaped(self.stock_id@) + "\",\"date\":\""@ + json_escaped(
            self.exchange_date@,
        ) + "\",\"tradeShares\":"@ + int_chars(self.trade_shares as int) + ",\"transactions\":"@
            + int_chars(self.transactions as int) + ",\"turnover\":"@ + int_chars(
            self.turnover as int,
        ) + ",\"open\":"@ + decimal_chars(self.open) + ",\"close\":"@ + decimal_chars(self.close)
            + ",\"high\":"@ + decimal_chars(self.high) + ",\"low\":"@ + decimal_chars(self.low)
            + ",\"priceDiff\":"@ + decimal_chars(self.diff) + "}"@
    }

    /// Serializes the record as one JSON object.
    pub fn to_json(&self) -> (r: String)
        ensures
            r@ == self.json_spec(),
    {
        let mut out: Vec<char> = Vec::new();
        push_str_chars(&mut out, "{\"stockId\":\"");
        push_json_escaped(&mut out, self.stock_id.as_str());
        push_str_chars(&mut out, "\",\"date\":\"");
        push_json_escaped(&mut out, self.exchange_date.as_str());
        push_str_chars(&mut out, "\",\"tradeShares\":");
        push_i64_digits(&mut out, self.trade_shares);
        push_str_chars(&mut out, ",\"transactions\":");
        push_i64_digits(&mut out, self.transactions as i64);
        push_str_chars(&mut out, ",\"turnover\":");
        push_i64_digits(&mut out, self.turnover);
        push_str_chars(&mut out, ",\"open\":");
        let mut o = decimal_to_chars(&self.open);
        out.append(&mut o);
        push_str_chars(&mut out, ",\"close\":");
        let mut c = decimal_to_chars(&self.close);
        out.append(&mut c);
        push_str_chars(&mut out, ",\"high\":");
        let mut h = decimal_to_chars(&self.high);
        out.append(&mut h);
        push_str_chars(&mut out, ",\"low\":");
        let mut l = decimal_to_chars(&self.low);
        out.append(&mut l);
        push_str_chars(&mut out, ",\"priceDiff\":");
        let mut d = decimal_to_chars(&self.diff);
        out.append(&mut d);
        push_str_chars(&mut out, "}");
        proof {
            assert(out@ =~= self.json_spec());
        }
        string_from_chars(&out)
    }
}

} // verus!
