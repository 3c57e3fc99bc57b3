//! The concentration strategy, end to end: identity extraction, marker-cell
//! scraping, and multi-page aggregation.

use stock_ingest::errors::ParseError;
use stock_ingest::fetcher::Payload;
use stock_ingest::models::concentration::Temp;
use stock_ingest::numeric::Decimal;
use stock_ingest::parser::{Parser, ParseStrategy};
use stock_ingest::process::concentration::{aggregate, concentration_work_items, is_skipped_date};
use stock_ingest::strategies::concentration::ConcentrationStrategy;

fn sample_page() -> String {
    String::from(
        r##"<table class="hasBorder" width="100%" cellspacing="1" cellpadding="0" border="0" bgcolor="#F0F0F0"><TR>
            <TD class="t4t1" nowrap><a href="/z/zc/zco/zco0/zco0.djhtm?a=3704&b=0035003300380045&BHID=5380">第一金-自由</a></TD>
            <TD class="t3n1">34</TD>
            <TD class="t3n1">8</TD>
            <TD class="t3n1">26</TD>
            <TD class="t3n1">0.32%</TD>
            <TD class="t4t1" nowrap><a href="/z/zc/zco/zco0/zco0.djhtm?a=3704&b=0039003200300041&BHID=9200">凱基-板橋</a></TD>
            <TD class="t3n1">2</TD>
            <TD class="t3n1">36</TD>
            <TD class="t3n1">34</TD>
            <TD class="t3n1">0.42%</TD>
            </tr>
            <TR id="oScrollFoot">
            <TD class="t4t1" nowrap>合計買超張數</td>
            <td class="t3n1" colspan=4>2,108</td>
            <TD class="t4t1" nowrap>合計賣超張數</td>
            <td class="t3n1" colspan=4>1,252</td>
            </TR>
            <TR id="oScrollFoot">
            <TD class="t4t1" nowrap>平均買超成本</td>
            <td class="t3n1" colspan=4>54.59</td>
            <TD class="t4t1" nowrap>平均賣超成本</td>
            <td class="t3n1" colspan=4>54.32</td>
            </TR>
            <TR id="oScrollFoot">
            <td class="t3t1" colspan=10>
            【註1】上述買賣超個股僅提供排序後的前15名券商，且未計入自營商部份。<BR>
            【註2】合計買超或賣超，為上述家數合計。<BR>
            【註3】平均買超或賣超成本，為上述家數合計買賣超金額/上述家數合計買賣超張數。
            </td>
            </TR></table>"##,
    )
}

#[test]
fn test_concentration_strategy_parse() {
    let strategy = ConcentrationStrategy {};
    let payload = Payload {
        date: None,
        content_type: "text/html".to_string(),
        source: "https://fubon-ebrokerdj.fbs.com.tw/z/zc/zco/zco_2330_2.djhtm".to_string(),
        content: sample_page(),
    };

    let result = strategy.parse(payload);
    assert!(result.is_ok());
    let concentration = result.unwrap();
    assert_eq!(concentration.0, "2330");
    assert_eq!(concentration.1, 1);
    assert_eq!(concentration.2, 856);
    assert_eq!(concentration.3, 2108);
    assert_eq!(concentration.4, 1252);
    assert_eq!((concentration.5.mantissa, concentration.5.scale), (5459, 2));
    assert_eq!((concentration.6.mantissa, concentration.6.scale), (5432, 2));
    assert_eq!(concentration.5.mantissa as f32 / 100.0, 54.59);
    assert_eq!(concentration.6.mantissa as f32 / 100.0, 54.32);
}

#[test]
fn parser_binds_a_strategy() {
    let parser = Parser::new(ConcentrationStrategy {});
    let payload = Payload {
        date: None,
        content_type: "text/html".to_string(),
        source: "https://fubon-ebrokerdj.fbs.com.tw/z/zc/zco/zco_2330_2.djhtm".to_string(),
        content: sample_page(),
    };
    let result = parser.parse(payload);
    assert!(result.is_ok());
    assert_eq!(result.unwrap().2, 856);
}

#[test]
fn token_to_slot_mapping() {
    let strategy = ConcentrationStrategy {};
    let slot_of = |token: u32| -> usize {
        let url = format!("https://fubon-ebrokerdj.fbs.com.tw/z/zc/zco/zco_2330_{}.djhtm", token);
        strategy.identifier(&url).unwrap().1
    };
    assert_eq!(slot_of(1), 0);
    assert_eq!(slot_of(2), 1);
    assert_eq!(slot_of(3), 2);
    assert_eq!(slot_of(4), 3);
    assert_eq!(slot_of(6), 4);
    assert_ne!(slot_of(6), 5);
}

#[test]
fn identifier_rejects_unmatched_addresses() {
    let strategy = ConcentrationStrategy {};
    assert!(matches!(
        strategy.identifier("https://example.com/nothing_here"),
        Err(ParseError::InvalidSource)
    ));
    assert!(matches!(
        strategy.identifier("https://fubon-ebrokerdj.fbs.com.tw/z/zc/zco/zco_2330_0.djhtm"),
        Err(ParseError::InvalidSource)
    ));
}

#[test]
fn malformed_document_counts_marker_cells() {
    let strategy = ConcentrationStrategy {};
    let payload = Payload {
        date: None,
        content_type: "text/html".to_string(),
        source: "https://fubon-ebrokerdj.fbs.com.tw/z/zc/zco/zco_2330_2.djhtm".to_string(),
        content: String::from(
            r#"<td class="t3n1" colspan=4>1</td><td class="t3n1" colspan=4>2</td>"#,
        ),
    };
    let result = strategy.parse(payload);
    assert!(matches!(result, Err(ParseError::MalformedDocument(2))));
}

fn fragment(slot: usize, net: i64, buy: i32, sell: i32) -> Temp {
    Temp(
        String::from("2330"),
        slot,
        net,
        buy,
        sell,
        Decimal { mantissa: 5459, scale: 2 },
        Decimal { mantissa: 5432, scale: 2 },
    )
}

#[test]
fn aggregation_is_order_independent() {
    let forward: Vec<Temp> = (0..5).map(|s| fragment(s, 10 + s as i64, 100, 90)).collect();
    let reverse: Vec<Temp> = (0..5).rev().map(|s| fragment(s, 10 + s as i64, 100, 90)).collect();

    let (_, published_fwd) = aggregate(forward, String::from("20240102"));
    let (_, published_rev) = aggregate(reverse, String::from("20240102"));

    assert_eq!(published_fwd.len(), 1);
    assert_eq!(published_rev.len(), 1);
    assert_eq!(published_fwd[0], published_rev[0]);
    assert_eq!(
        published_fwd[0],
        r#"{"stockId":"2330","exchangeDate":"20240102","diff":[10,11,12,13,14],"sumBuyShares":100,"sumSellShares":90,"avgBuyPrice":54.59,"avgSellPrice":54.32}"#
    );
}

#[test]
fn incomplete_fragment_sets_publish_nothing() {
    let four: Vec<Temp> = (0..4).map(|s| fragment(s, 1, 2, 3)).collect();
    let (agg, published) = aggregate(four, String::from("20240102"));
    assert_eq!(published.len(), 0);
    assert_eq!(agg.entries.len(), 1);
    assert_eq!(agg.entries[0].current, 4);
}

#[test]
fn skip_dates_produce_no_work() {
    assert!(is_skipped_date("20240101"));
    assert!(!is_skipped_date("20240102"));
    let stocks = vec![String::from("2330"), String::from("3704")];
    let work = concentration_work_items("20240101", &stocks);
    assert_eq!(work.len(), 0);
    let work2 = concentration_work_items("20240102", &stocks);
    assert_eq!(work2.len(), 10);
    assert_eq!(
        work2[0],
        "https://fubon-ebrokerdj.fbs.com.tw/z/zc/zco/zco_2330_1.djhtm"
    );
    assert_eq!(
        work2[4],
        "https://fubon-ebrokerdj.fbs.com.tw/z/zc/zco/zco_2330_6.djhtm"
    );
    assert_eq!(
        work2[9],
        "https://fubon-ebrokerdj.fbs.com.tw/z/zc/zco/zco_3704_6.djhtm"
    );
}
