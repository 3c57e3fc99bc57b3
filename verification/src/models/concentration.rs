//! The multi-page concentration record: five per-page differences merged
//! into one published object, plus the summary fields of the first page.

use vstd::prelude::*;
use crate::chars::string_from_chars;
use crate::fmt::{decimal_chars, decimal_to_chars, int_chars, push_i64_digits};
use crate::jsonout::{int_list_chars, json_escaped, push_i64_list, push_json_escaped, push_str_chars};
use crate::numeric::Decimal;

verus! {

/// Aggregation state and published shape of one entity's concentration data.
///
/// `concentration` holds one net-share difference per page slot; the summary
/// fields come from the slot-0 page. `current` counts the fragments received
/// and is not serialized.
#[derive(Debug)]
pub struct Concentration {
    pub stock_id: String,
    pub exchange_date: String,
    pub concentration: Vec<i64>,
    pub sum_buy_shares: i32,
    pub sum_sell_shares: i32,
    pub avg_buy_price: Decimal,
    pub avg_sell_price: Decimal,
    pub current: usize,
}

/// The mathematical shape of an aggregation entry.
#[verifier::ext_equal]
pub struct ConcentrationV {
    pub stock_id: Seq<char>,
    pub exchange_date: Seq<char>,
    pub concentration: Seq<int>,
    pub sum_buy_shares: int,
    pub sum_sell_shares: int,
    pub avg_buy_price: (int, nat),
    pub avg_sell_price: (int, nat),
    pub current: int,
}

impl View for Concentration {
    type V = ConcentrationV;

    open spec fn view(&self) -> ConcentrationV {
        ConcentrationV {
            stock_id: self.stock_id@,
            exchange_date: self.exchange_date@,
            concentration: self.concentration@.map_values(|x: i64| x as int),
            sum_buy_shares: self.sum_buy_shares as int,
            sum_sell_shares: self.sum_sell_shares as int,
            avg_buy_price: (self.avg_buy_price.mantissa as int, self.avg_buy_price.scale as nat),
            avg_sell_price: (self.avg_sell_price.mantissa as int, self.avg_sell_price.scale as nat),
            current: self.current as int,
        }
    }
}

/// The exact JSON text of a completed entry; the fragment counter is
/// internal state and is not serialized.
pub open spec fn conc_json(v: ConcentrationV) -> Seq<char> {
    "{\"stockId\":\""@ + json_escaped(v.stock_id) + "\",\"exchangeDate\":\""@ + json_escaped(
        v.exchange_date,
    ) + "\",\"diff\":["@ + int_list_chars(v.concentration) + "],\"sumBuyShares\":"@ + int_chars(
        v.sum_buy_shares,
    ) + ",\"sumSellShares\":"@ + int_chars(v.sum_sell_shares) + ",\"avgBuyPrice\":"@
        + crate::fmt::decimal_chars_of(v.avg_buy_price.0, v.avg_buy_price.1 as int)
        + ",\"avgSellPrice\":"@ + crate::fmt::decimal_chars_of(
        v.avg_sell_price.0,
        v.avg_sell_price.1 as int,
    ) + "}"@
}

impl Concentration {
    /// The exact JSON text of a completed record.
    pub open spec fn json_spec(&self) -> Seq<char> {
        conc_json(self@)
    }

    /// Serializes the completed record as one JSON object; the fragment
    /// counter is internal state and is skipped.
    pub fn to_json(&self) -> (r: String)
        ensures
            r@ == self.json_spec(),
    {
        let mut out: Vec<char> = Vec::new();
        push_str_chars(&mut out, "{\"stockId\":\"");
        push_json_escaped(&mut out, self.stock_id.as_str());
        push_str_chars(&mut out, "\",\"exchangeDate\":\"");
        push_json_escaped(&mut out, self.exchange_date.as_str());
        push_str_chars(&mut out, "\",\"diff\":[");
        push_i64_list(&mut out, &self.concentration);
        push_str_chars(&mut out, "],\"sumBuyShares\":");
        push_i64_digits(&mut out, self.sum_buy_shares as i64);
        push_str_chars(&mut out, ",\"sumSellShares\":");
        push_i64_digits(&mut out, self.sum_sell_shares as i64);
        push_str_chars(&mut out, ",\"avgBuyPrice\":");
        let mut ab = decimal_to_chars(&self.avg_buy_price);
        out.append(&mut ab);
        push_str_chars(&mut out, ",\"avgSellPrice\":");
        let mut asell = decimal_to_chars(&self.avg_sell_price);
        out.append(&mut asell);
        push_str_chars(&mut out, "}");
        proof {
            assert(out@ =~= self.json_spec());
        }
        string_from_chars(&out)
    }
}

/// One parsed page: entity identity, page slot, net shares, total buy, total
/// sell, average buy price, average sell price.
#[derive(Debug)]
pub struct Temp(pub String, pub usize, pub i64, pub i32, pub i32, pub Decimal, pub Decimal);

/// The mathematical shape of one parsed page.
pub struct TempV {
    pub stock_id: Seq<char>,
    pub slot: int,
    pub net: int,
    pub buy: int,
    pub sell: int,
    pub avg_buy: (int, nat),
    pub avg_sell: (int, nat),
}

impl View for Temp {
    type V = TempV;

    open spec fn view(&self) -> TempV {
        TempV {
            stock_id: self.0@,
            slot: self.1 as int,
            net: self.2 as int,
            buy: self.3 as int,
            sell: self.4 as int,
            avg_buy: (self.5.mantissa as int, self.5.scale as nat),
            avg_sell: (self.6.mantissa as int, self.6.scale as nat),
        }
    }
}

} // verus!
