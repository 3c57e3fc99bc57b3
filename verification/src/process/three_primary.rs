//! Run planning for the three-primary family: the two bulk-export addresses
//! of one run.

use vstd::prelude::*;
use crate::chars::string_from_chars;
use crate::jsonout::push_str_chars;
use crate::process::daily_close::{get_date, minguo_date_chars, western_date_chars, RunDate};

verus! {

/// The listed-exchange bulk-export address of one three-primary run.
pub open spec fn tp_twse_url(d: RunDate) -> Seq<char> {
    "https://www.twse.com.tw/rwd/zh/fund/T86?response=csv&date="@ + western_date_chars(d)
        + "&selectType=ALLBUT0999"@
}

/// The over-the-counter bulk-export address of one three-primary run.
pub open spec fn tp_tpex_url(d: RunDate) -> Seq<char> {
    "https://www.tpex.org.tw/web/stock/3insti/daily_trade/3itrade_hedge_result.php?l=zh-tw&o=csv&se=EW&t=D&d="@
        + minguo_date_chars(d)
}

/// The two addresses a three-primary run fetches, listed exchange first.
pub fn generate_urls(d: RunDate) -> (r: Vec<String>)
    requires
        d.year > i32::MIN + 1911,
    ensures
        r@.len() == 2,
        r@[0]@ == tp_twse_url(d),
        r@[1]@ == tp_tpex_url(d),
{
    let mut twse: Vec<char> = Vec::new();
    push_str_chars(&mut twse, "https://www.twse.com.tw/rwd/zh/fund/T86?response=csv&date=");
    let d1 = get_date(d, "twse");
    push_str_chars(&mut twse, d1.as_str());
    push_str_chars(&mut twse, "&selectType=ALLBUT0999");
    proof {
        assert(twse@ =~= tp_twse_url(d));
    }
    let mut tpex: Vec<char> = Vec::new();
    push_str_chars(
        &mut tpex,
        "https://www.tpex.org.tw/web/stock/3insti/daily_trade/3itrade_hedge_result.php?l=zh-tw&o=csv&se=EW&t=D&d=",
    );
    let d2 = get_date(d, "tpex");
    push_str_chars(&mut tpex, d2.as_str());
    proof {
        reveal_strlit("twse");
        reveal_strlit("tpex");
        assert("twse"@[1] != "tpex"@[1]);
        assert(tpex@ =~= tp_tpex_url(d));
    }
    let mut out: Vec<String> = Vec::new();
    out.push(string_from_chars(&twse));
    out.push(string_from_chars(&tpex));
    out
}

} // verus!
