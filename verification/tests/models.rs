//! Exact JSON serialization of each record family.

use stock_ingest::model::Model;
use stock_ingest::models::concentration::Concentration;
use stock_ingest::models::daily_close::DailyClose;
use stock_ingest::models::three_primary::ThreePrimary;
use stock_ingest::numeric::Decimal;

#[test]
fn model_test_model_to_json() {
    let model = Model {
        stock_id: String::from("AAPL"),
        exchange_date: String::from("2020-01-01"),
        concentration: vec![1, 2, 3],
    };

    let json_string = model.to_json();
    assert_eq!(
        json_string,
        r#"{"stock_id":"AAPL","exchange_date":"2020-01-01","concentration":[1,2,3]}"#
    );
}

#[test]
fn concentration_test_model_to_json() {
    let model = Concentration {
        stock_id: String::from("AAPL"),
        exchange_date: String::from("2020-01-01"),
        concentration: vec![1, 2, 3],
        sum_buy_shares: 0,
        sum_sell_shares: 0,
        avg_buy_price: Decimal { mantissa: 0, scale: 0 },
        avg_sell_price: Decimal { mantissa: 0, scale: 0 },
        current: 0,
    };

    let json_string = model.to_json();
    assert_eq!(
        json_string,
        r#"{"stockId":"AAPL","exchangeDate":"2020-01-01","diff":[1,2,3],"sumBuyShares":0,"sumSellShares":0,"avgBuyPrice":0.0,"avgSellPrice":0.0}"#
    );
}

#[test]
fn daily_close_test_model_to_json() {
    let model = DailyClose {
        stock_id: String::from("AAPL"),
        exchange_date: String::from("2020-01-01"),
        trade_shares: 0,
        transactions: 0,
        turnover: 0,
        open: Decimal { mantissa: 0, scale: 0 },
        close: Decimal { mantissa: 0, scale: 0 },
        high: Decimal { mantissa: 0, scale: 0 },
        low: Decimal { mantissa: 0, scale: 0 },
        diff: Decimal { mantissa: 0, scale: 0 },
    };

    let json_string = model.to_json();
    assert_eq!(
        json_string,
        r#"{"stockId":"AAPL","date":"2020-01-01","tradeShares":0,"transactions":0,"turnover":0,"open":0.0,"close":0.0,"high":0.0,"low":0.0,"priceDiff":0.0}"#
    );
}

#[test]
fn three_primary_test_model_to_json() {
    let model = ThreePrimary {
        stock_id: String::from("AAPL"),
        exchange_date: String::from("2020-01-01"),
        foreign_trade_shares: 0,
        trust_trade_shares: 0,
        dealer_trade_shares: 0,
        hedging_trade_shares: 0,
    };

    let json_string = model.to_json();
    assert_eq!(
        json_string,
        r#"{"stockId":"AAPL","date":"2020-01-01","foreignTradeShares":0,"trustTradeShares":0,"dealerTradeShares":0,"hedgingTradeShares":0}"#
    );
}

#[test]
fn decimal_json_text_keeps_the_digits() {
    let model = DailyClose {
        stock_id: String::from("2330"),
        exchange_date: String::from("20240102"),
        trade_shares: 31593931,
        transactions: 27730,
        turnover: 18632666938,
        open: Decimal { mantissa: 5900, scale: 1 },
        close: Decimal { mantissa: 593, scale: 0 },
        high: Decimal { mantissa: 5935, scale: 1 },
        low: Decimal { mantissa: 58900, scale: 2 },
        diff: Decimal { mantissa: -50, scale: 2 },
    };
    let json = model.to_json();
    assert!(json.contains(r#""open":590.0"#));
    assert!(json.contains(r#""close":593.0"#));
    assert!(json.contains(r#""high":593.5"#));
    assert!(json.contains(r#""low":589.0"#));
    assert!(json.contains(r#""priceDiff":-0.5"#));
}

#[test]
fn json_strings_are_escaped() {
    let model = Model {
        stock_id: String::from("A\"B\\C"),
        exchange_date: String::from("x\ny"),
        concentration: vec![],
    };
    let json = model.to_json();
    assert_eq!(
        json,
        "{\"stock_id\":\"A\\\"B\\\\C\",\"exchange_date\":\"x\\ny\",\"concentration\":[]}"
    );
}
