//! Run planning, settings, and the retry discipline.

use stock_ingest::config::setting::DatabaseSettings;
use stock_ingest::errors::PublishError;
use stock_ingest::process::daily_close::{get_date, RunDate};
use stock_ingest::process::publish::RetryPolicy;
use stock_ingest::process::{daily_close, three_primary};

#[test]
fn dates_follow_each_exchange_calendar() {
    let d = RunDate { year: 2024, month: 1, day: 2 };
    assert_eq!(get_date(d, "twse"), "20240102");
    assert_eq!(get_date(d, "tpex"), "113/01/02");
    assert_eq!(get_date(d, "other"), "");
    let late = RunDate { year: 2024, month: 11, day: 21 };
    assert_eq!(get_date(late, "twse"), "20241121");
}

#[test]
fn daily_close_urls_carry_the_dates() {
    let d = RunDate { year: 2024, month: 1, day: 2 };
    let urls = daily_close::generate_urls(d);
    assert_eq!(urls.len(), 2);
    assert_eq!(
        urls[0],
        "https://www.twse.com.tw/exchangeReport/MI_INDEX?response=csv&date=20240102&type=ALLBUT0999"
    );
    assert_eq!(
        urls[1],
        "https://www.tpex.org.tw/web/stock/aftertrading/daily_close_quotes/stk_quote_download.php?l=zh-tw&d=113/01/02&s=0,asc,0"
    );
}

#[test]
fn three_primary_urls_carry_the_dates() {
    let d = RunDate { year: 2024, month: 1, day: 2 };
    let urls = three_primary::generate_urls(d);
    assert_eq!(urls.len(), 2);
    assert_eq!(
        urls[0],
        "https://www.twse.com.tw/rwd/zh/fund/T86?response=csv&date=20240102&selectType=ALLBUT0999"
    );
    assert_eq!(
        urls[1],
        "https://www.tpex.org.tw/web/stock/3insti/daily_trade/3itrade_hedge_result.php?l=zh-tw&o=csv&se=EW&t=D&d=113/01/02"
    );
}

#[test]
fn connection_string_joins_the_fields() {
    let db = DatabaseSettings {
        host: String::from("localhost"),
        port: String::from("5432"),
        user: String::from("svc"),
        dbname: String::from("stocks"),
        dbpasswd: String::from("pw"),
    };
    assert_eq!(
        db.connection_string(),
        "postgres://svc:pw@localhost:5432/stocks"
    );
}

#[test]
fn publishing_retries_three_times_in_all() {
    let mut policy = RetryPolicy::new();
    assert!(policy.on_failure());
    assert!(policy.on_failure());
    assert!(!policy.on_failure());
    assert_eq!(policy.attempts, 3);
    assert!(matches!(
        policy.exhausted_error(),
        PublishError::RetriesExhausted(3)
    ));
}
