//! Run planning for the daily-close family: the two bulk-export addresses
//! of one run, dated in each exchange's own calendar.

use vstd::prelude::*;
use crate::chars::{str_eq, string_from_chars};
use crate::fmt::{int_chars, pad2_chars, push_i64_digits, push_pad2_digits};
use crate::jsonout::push_str_chars;

verus! {

/// A run date as plain calendar fields.
#[derive(Debug, Clone, Copy, PartialEq, Eq, Structural)]
pub struct RunDate {
    pub year: i32,
    pub month: u32,
    pub day: u32,
}

/// The compact western form of a date: year, then zero-padded month and day.
pub open spec fn western_date_chars(d: RunDate) -> Seq<char> {
    int_chars(d.year as int) + pad2_chars(d.month as int) + pad2_chars(d.day as int)
}

/// The slash-separated form in the calendar counted from 1911.
pub open spec fn minguo_date_chars(d: RunDate) -> Seq<char> {
    int_chars(d.year as int - 1911) + "/"@ + pad2_chars(d.month as int) + "/"@ + pad2_chars(
        d.day as int,
    )
}

/// The date text an exchange expects: the western form for the listed
/// exchange, the 1911-based form for the over-the-counter exchange, empty
/// for anything else.
pub open spec fn get_date_spec(d: RunDate, exchange_type: Seq<char>) -> Seq<char> {
    if exchange_type == "twse"@ {
        western_date_chars(d)
    } else if exchange_type == "tpex"@ {
        minguo_date_chars(d)
    } else {
        Seq::empty()
    }
}

/// Renders a run date in the calendar an exchange expects.
pub fn get_date(day: RunDate, exchange_type: &str) -> (r: String)
    requires
        day.year > i32::MIN + 1911,
    ensures
        r@ == get_date_spec(day, exchange_type@),
{
    let mut out: Vec<char> = Vec::new();
    if str_eq(exchange_type, "twse") {
        push_i64_digits(&mut out, day.year as i64);
        push_pad2_digits(&mut out, day.month);
        push_pad2_digits(&mut out, day.day);
        proof {
            assert(out@ =~= western_date_chars(day));
        }
    } else if str_eq(exchange_type, "tpex") {
        push_i64_digits(&mut out, day.year as i64 - 1911);
        push_str_chars(&mut out, "/");
        push_pad2_digits(&mut out, day.month);
        push_str_chars(&mut out, "/");
        push_pad2_digits(&mut out, day.day);
        proof {
            assert(out@ =~= minguo_date_chars(day));
        }
    }
    string_from_chars(&out)
}

/// The listed-exchange bulk-export address of one daily-close run.
pub open spec fn dc_twse_url(d: RunDate) -> Seq<char> {
    "https://www.twse.com.tw/exchangeReport/MI_INDEX?response=csv&date="@ + western_date_chars(d)
        + "&type=ALLBUT0999"@
}

/// The over-the-counter bulk-export address of one daily-close run.
pub open spec fn dc_tpex_url(d: RunDate) -> Seq<char> {
    "https://www.tpex.org.tw/web/stock/aftertrading/daily_close_quotes/stk_quote_download.php?l=zh-tw&d="@
        + minguo_date_chars(d) + "&s=0,asc,0"@
}

/// The two addresses a daily-close run fetches, listed exchange first.
pub fn generate_urls(date: RunDate) -> (r: Vec<String>)
    requires
        date.year > i32::MIN + 1911,
    ensures
        r@.len() == 2,
        r@[0]@ == dc_twse_url(date),
        r@[1]@ == dc_tpex_url(date),
{
    let mut twse: Vec<char> = Vec::new();
    push_str_chars(&mut twse, "https://www.twse.com.tw/exchangeReport/MI_INDEX?response=csv&date=");
    let d1 = get_date(date, "twse");
    push_str_chars(&mut twse, d1.as_str());
    push_str_chars(&mut twse, "&type=ALLBUT0999");
    proof {
        assert(twse@ =~= dc_twse_url(date));
    }
    let mut tpex: Vec<char> = Vec::new();
    push_str_chars(
        &mut tpex,
        "https://www.tpex.org.tw/web/stock/aftertrading/daily_close_quotes/stk_quote_download.php?l=zh-tw&d=",
    );
    let d2 = get_date(date, "tpex");
    push_str_chars(&mut tpex, d2.as_str());
    push_str_chars(&mut tpex, "&s=0,asc,0");
    proof {
        reveal_strlit("twse");
        reveal_strlit("tpex");
        assert("twse"@[1] != "tpex"@[1]);
        assert(tpex@ =~= dc_tpex_url(date));
    }
    let mut out: Vec<String> = Vec::new();
    out.push(string_from_chars(&twse));
    out.push(string_from_chars(&tpex));
    out
}

} // verus!
