//! Holds the library's own parsers against the crates the upstream sources
//! were originally read with.

use scraper::{Html, Selector};
use stock_ingest::chars::chars_of;
use stock_ingest::csvsplit::split_csv;
use stock_ingest::html::collect_marker_cells;
use stock_ingest::strategies::concentration::ConcentrationStrategy;

const NOISY_CSV: &str = "\"113年01月02日 每日收盤行情\"\r\n\r\n\"2330\",\"台積電\",\"31,593,931\",\"27,730\",\"18,632,666,938\",\"590.00\",\"593.50\",\"589.00\",\"593.00\",\"-\",\"0.50\"\r\nplain,unquoted,row\r\na \"quote\" inside,and \"\"doubles\"\" too\r\n\"multi\nline\",\"with,comma\"\r\n";

#[test]
fn csv_split_matches_the_csv_crate() {
    let mut rdr = csv::ReaderBuilder::new()
        .has_headers(false)
        .delimiter(b',')
        .flexible(true)
        .from_reader(NOISY_CSV.as_bytes());
    let expected: Vec<Vec<String>> = rdr
        .records()
        .filter_map(|r| r.ok())
        .map(|rec| rec.iter().map(|f| f.to_string()).collect())
        .collect();

    let mine = split_csv(&chars_of(NOISY_CSV));
    assert_eq!(mine, expected);
}

const MARKER_HTML: &str = r##"<table><tr>
<td class="t3n1">34</td>
<TD CLASS="t3n1" COLSPAN=4>2,108</TD>
<td class="t3n1" colspan='4'>1,252</td>
<td class="other t3n1" colspan="4">54.59</td>
<td class="t3n10" colspan="4">nope</td>
<td colspan="4">nope</td>
<td class="t3n1" colspan="10">nope</td>
<td class="t3n1" colspan=4>54.32</td>
</tr></table>"##;

#[test]
fn marker_cells_match_the_scraper_crate() {
    let document = Html::parse_document(MARKER_HTML);
    let selector = Selector::parse("td.t3n1[colspan='4']").unwrap();
    let expected: Vec<String> = document
        .select(&selector)
        .filter_map(|element| element.text().next())
        .map(|t| t.to_string())
        .collect();

    let mine: Vec<String> = collect_marker_cells(&chars_of(MARKER_HTML))
        .into_iter()
        .map(|cell| cell.into_iter().collect())
        .collect();
    assert_eq!(mine, expected);
    assert_eq!(mine, vec!["2,108", "1,252", "54.59", "54.32"]);
}

#[test]
fn identifier_matches_the_regex_crate() {
    let re = regex::Regex::new(r"zco_(\d+)_(\d+)").unwrap();
    let strategy = ConcentrationStrategy {};
    let cases = [
        "https://fubon-ebrokerdj.fbs.com.tw/z/zc/zco/zco_2330_2.djhtm",
        "https://host/zco_12__34/zco_7_8",
        "prefix zco_nope then zco_1_9 end",
        "no match at all",
        "zco_555_",
    ];
    for url in cases {
        let expected = re.captures(url).map(|c| {
            (
                c.get(1).unwrap().as_str().to_string(),
                c.get(2).unwrap().as_str().parse::<usize>().unwrap(),
            )
        });
        match (expected, strategy.identifier(url)) {
            (Some((id, token)), Ok((mid, mslot))) => {
                assert_eq!(mid, id);
                let slot = if token == 6 { 4 } else { token - 1 };
                assert_eq!(mslot, slot);
            }
            (None, Err(_)) => {}
            (e, m) => panic!("regex {:?} vs library {:?} on {}", e, m, url),
        }
    }
}
