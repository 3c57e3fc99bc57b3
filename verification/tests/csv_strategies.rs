//! The two CSV strategies under both exchange layouts: sign handling, date
//! injection, and the silent skipping of noise rows.

use stock_ingest::errors::ParseError;
use stock_ingest::fetcher::Payload;
use stock_ingest::parser::ParseStrategy;
use stock_ingest::strategies::daily_close::DailyCloseStrategy;
use stock_ingest::strategies::three_primary::ThreePrimaryStrategy;

fn twse_daily_row() -> String {
    // stock id, -, shares, transactions, turnover, open, high, low, close,
    // sign, diff, then filler up to 17 columns
    String::from("\"2330\",\"n\",\"31,593,931\",\"27,730\",\"18,632,666,938\",\"10\",\"11\",\"9\",\"10.5\",\"-\",\"0.5\",\"a\",\"b\",\"c\",\"d\",\"e\",\"f\"")
}

fn tpex_daily_row() -> String {
    // stock id, name, close, diff (signed in place), open, high, low,
    // shares, turnover, transactions, then filler up to 17 columns
    String::from("2330,n,10.5,-0.5,10,11,9,31593931,18632666938,27730,a,b,c,d,e,f,g")
}

#[test]
fn sign_column_negates_the_price_difference() {
    let strategy = DailyCloseStrategy {};
    let payload = Payload {
        content: twse_daily_row(),
        source: String::from("https://www.twse.com.tw/exchangeReport/MI_INDEX?response=csv"),
        content_type: String::from("text/csv"),
        date: Some(String::from("20240102")),
    };
    let records = strategy.parse(payload).unwrap();
    assert_eq!(records.len(), 1);
    let r = &records[0];
    assert_eq!(r.stock_id, "2330");
    assert_eq!((r.diff.mantissa, r.diff.scale), (-5, 1));
    assert_eq!((r.open.mantissa, r.open.scale), (10, 0));
    assert_eq!(r.trade_shares, 31593931);
    assert_eq!(r.transactions, 27730);
    assert_eq!(r.turnover, 18632666938);
}

#[test]
fn signed_diff_field_needs_no_sign_column() {
    let strategy = DailyCloseStrategy {};
    let payload = Payload {
        content: tpex_daily_row(),
        source: String::from("https://www.tpex.org.tw/web/stock/aftertrading"),
        content_type: String::from("text/csv"),
        date: Some(String::from("20240102")),
    };
    let records = strategy.parse(payload).unwrap();
    assert_eq!(records.len(), 1);
    let r = &records[0];
    assert_eq!((r.diff.mantissa, r.diff.scale), (-5, 1));
    assert_eq!((r.close.mantissa, r.close.scale), (105, 1));
}

#[test]
fn one_dated_row_per_layout_round_trip() {
    let strategy = DailyCloseStrategy {};
    for (content, source) in [
        (twse_daily_row(), "https://www.twse.com.tw/exchangeReport"),
        (tpex_daily_row(), "https://www.tpex.org.tw/web/stock"),
    ] {
        let payload = Payload {
            content,
            source: String::from(source),
            content_type: String::from("text/csv"),
            date: Some(String::from("20240102")),
        };
        let records = strategy.parse(payload).unwrap();
        assert_eq!(records.len(), 1);
        assert_eq!(records[0].exchange_date, "20240102");
        assert_eq!((records[0].diff.mantissa, records[0].diff.scale), (-5, 1));
    }
}

#[test]
fn noise_rows_are_skipped_silently() {
    let strategy = DailyCloseStrategy {};
    let content = format!(
        "\"113年01月02日 每日收盤行情\"\n\"stock\",\"name\"\n{}\n\"note\"\n",
        twse_daily_row()
    );
    let payload = Payload {
        content,
        source: String::from("https://www.twse.com.tw/exchangeReport"),
        content_type: String::from("text/csv"),
        date: Some(String::from("20240102")),
    };
    let records = strategy.parse(payload).unwrap();
    assert_eq!(records.len(), 1);
}

#[test]
fn sentinel_prices_drop_the_row() {
    let strategy = DailyCloseStrategy {};
    let row = String::from("2330,n,100,10,1000,---,11,9,10.5,-,0.5,a,b,c,d,e,f");
    let payload = Payload {
        content: row,
        source: String::from("https://www.twse.com.tw/exchangeReport"),
        content_type: String::from("text/csv"),
        date: None,
    };
    let records = strategy.parse(payload).unwrap();
    assert_eq!(records.len(), 0);
}

#[test]
fn unknown_layout_is_rejected() {
    let strategy = DailyCloseStrategy {};
    let payload = Payload {
        content: twse_daily_row(),
        source: String::from("https://example.com/export"),
        content_type: String::from("text/csv"),
        date: None,
    };
    assert!(matches!(strategy.parse(payload), Err(ParseError::UnidentifiedLayout)));

    let strategy3 = ThreePrimaryStrategy {};
    let payload3 = Payload {
        content: String::from(""),
        source: String::from("https://example.com/export"),
        content_type: String::from("text/csv"),
        date: None,
    };
    assert!(matches!(strategy3.parse(payload3), Err(ParseError::UnidentifiedLayout)));
}

#[test]
fn three_primary_rows_parse_under_both_layouts() {
    let strategy = ThreePrimaryStrategy {};
    // listed layout: id at 0, the four share columns at 4, 10, 14, 17
    let twse_row = "2330,a,b,c,\"1,000\",e,f,g,h,i,\"2,000\",k,l,m,\"-500\",o,p,\"300\",r";
    let payload = Payload {
        content: String::from(twse_row),
        source: String::from("https://www.twse.com.tw/rwd/zh/fund/T86"),
        content_type: String::from("text/csv"),
        date: Some(String::from("20240102")),
    };
    let records = strategy.parse(payload).unwrap();
    assert_eq!(records.len(), 1);
    let r = &records[0];
    assert_eq!(r.stock_id, "2330");
    assert_eq!(r.exchange_date, "20240102");
    assert_eq!(r.foreign_trade_shares, 1000);
    assert_eq!(r.trust_trade_shares, 2000);
    assert_eq!(r.dealer_trade_shares, -500);
    assert_eq!(r.hedging_trade_shares, 300);

    // over-the-counter layout: id at 0, the four share columns at 10, 13, 16, 19
    let tpex_row = "2330,a,b,c,d,e,f,g,h,i,\"1,000\",k,l,\"2,000\",n,o,\"-500\",q,r,\"300\"";
    let payload2 = Payload {
        content: String::from(tpex_row),
        source: String::from("https://www.tpex.org.tw/web/stock/3insti"),
        content_type: String::from("text/csv"),
        date: Some(String::from("20240102")),
    };
    let records2 = strategy.parse(payload2).unwrap();
    assert_eq!(records2.len(), 1);
    assert_eq!(records2[0].foreign_trade_shares, 1000);
    assert_eq!(records2[0].hedging_trade_shares, 300);
}

#[test]
fn short_rows_never_panic() {
    let strategy = ThreePrimaryStrategy {};
    // nineteen columns exactly: the last layout column of the
    // over-the-counter layout is out of range and the row is skipped
    let row = "2330,a,b,c,d,e,f,g,h,i,1,k,l,2,n,o,3,q,r";
    let payload = Payload {
        content: String::from(row),
        source: String::from("https://www.tpex.org.tw/web/stock/3insti"),
        content_type: String::from("text/csv"),
        date: None,
    };
    let records = strategy.parse(payload).unwrap();
    assert_eq!(records.len(), 0);
}
