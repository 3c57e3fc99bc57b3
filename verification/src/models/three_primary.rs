//! The three-primary-investors record family and its per-exchange CSV
//! column layouts.

use vstd::prelude::*;
use crate::chars::string_from_chars;
use crate::fmt::{int_chars, push_i64_digits};
use crate::jsonout::{json_escaped, push_json_escaped, push_str_chars};

verus! {

/// Which CSV column carries which trade-share field.
pub struct CsvIndexSet {
    pub stock_id: usize,
    pub foreign_trade_shares: usize,
    pub trust_trade_shares: usize,
    pub dealer_trade_shares: usize,
    pub hedging_trade_shares: usize,
}

impl CsvIndexSet {
    /// The listed-exchange layout.
    pub fn new_twse() -> (r: Self)
        ensures
            r.stock_id == 0,
            r.foreign_trade_shares == 4,
            r.trust_trade_shares == 10,
            r.dealer_trade_shares == 14,
            r.hedging_trade_shares == 17,
    {
        Self {
            stock_id: 0,
            foreign_trade_shares: 4,
            trust_trade_shares: 10,
            dealer_trade_shares: 14,
            hedging_trade_shares: 17,
        }
    }

    /// The over-the-counter layout.
    pub fn new_tpex() -> (r: Self)
        ensures
            r.stock_id == 0,
            r.foreign_trade_shares == 10,
            r.trust_trade_shares == 13,
            r.dealer_trade_shares == 16,
            r.hedging_trade_shares == 19,
    {
        Self {
            stock_id: 0,
            foreign_trade_shares: 10,
            trust_trade_shares: 13,
            dealer_trade_shares: 16,
            hedging_trade_shares: 19,
        }
    }
}

/// One finished three-primary-investors record: a single CSV row.
#[derive(Debug)]
pub struct ThreePrimary {
    pub stock_id: String,
    pub exchange_date: String,
    pub foreign_trade_shares: i64,
    pub trust_trade_shares: i64,
    pub dealer_trade_shares: i64,
    pub hedging_trade_shares: i64,
}

/// The mathematical shape of a three-primary record.
pub struct ThreePrimaryV {
    pub stock_id: Seq<char>,
    pub exchange_date: Seq<char>,
    pub foreign_trade_shares: int,
    pub trust_trade_shares: int,
    pub dealer_trade_shares: int,
    pub hedging_trade_shares: int,
}

impl View for ThreePrimary {
    type V = ThreePrimaryV;

    open spec fn view(&self) -> ThreePrimaryV {
        ThreePrimaryV {
            stock_id: self.stock_id@,
            exchange_date: self.exchange_date@,
            foreign_trade_shares: self.foreign_trade_shares as int,
            trust_trade_shares: self.trust_trade_shares as int,
            dealer_trade_shares: self.dealer_trade_shares as int,
            hedging_trade_shares: self.hedging_trade_shares as int,
        }
    }
}

impl ThreePrimary {
    /// The exact JSON text of this record.
    pub open spec fn json_spec(&self) -> Seq<char> {
        "{\"stockId\":\""@ + json_escaped(self.stock_id@) + "\",\"date\":\""@ + json_escaped(
            self.exchange_date@,
        ) + "\",\"foreignTradeShares\":"@ + int_chars(self.foreign_trade_shares as int)
            + ",\"trustTradeShares\":"@ + int_chars(self.trust_trade_shares as int)
            + ",\"dealerTradeShares\":"@ + int_chars(self.dealer_trade_shares as int)
            + ",\"hedgingTradeShares\":"@ + int_chars(self.hedging_trade_shares as int) + "}"@
    }

    /// Serializes the record as one JSON object.
    pub fn to_json(&self) -> (r: String)
        ensures
            r@ == self.json_spec(),
    {
        let mut out: Vec<char> = Vec::new();
        push_str_chars(&mut out, "{\"stockId\":\"");
        push_json_escaped(&mut out, self.stock_id.as_str());
        push_str_chars(&mut out, "\",\"date\":\"");
        push_json_escaped(&mut out, self.exchange_date.as_str());
        push_str_chars(&mut out, "\",\"foreignTradeShares\":");
        push_i64_digits(&mut out, self.foreign_trade_shares);
        push_str_chars(&mut out, ",\"trustTradeShares\":");
        push_i64_digits(&mut out, self.trust_trade_shares);
        push_str_chars(&mut out, ",\"dealerTradeShares\":");
        push_i64_digits(&mut out, self.dealer_trade_shares);
        push_str_chars(&mut out, ",\"hedgingTradeShares\":");
        push_i64_digits(&mut out, self.hedging_trade_shares);
        push_str_chars(&mut out, "}");
        proof {
            assert(out@ =~= self.json_spec());
        }
        string_from_chars(&out)
    }
}

} // verus!
