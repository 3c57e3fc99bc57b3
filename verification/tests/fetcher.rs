//! The compute side of the source client: scheme and charset decisions,
//! proxy routing, decoding, and status handling.

use stock_ingest::errors::FetchError;
use stock_ingest::fetcher::{
    classify_scheme, crawling_direct, decode_body, legacy_charset, payload_from_file,
    payload_from_response, SchemeKind,
};

#[test]
fn schemes_are_classified_by_prefix() {
    assert_eq!(classify_scheme("http://x"), SchemeKind::Http);
    assert_eq!(classify_scheme("https://x"), SchemeKind::Http);
    assert_eq!(classify_scheme("file://Cargo.toml"), SchemeKind::File);
    assert_eq!(classify_scheme("ftp://x"), SchemeKind::Unsupported);
    assert_eq!(classify_scheme("ht"), SchemeKind::Unsupported);
}

#[test]
fn legacy_charset_markers_select_big5() {
    assert!(legacy_charset("text/csv"));
    assert!(legacy_charset("text/html; charset=big5"));
    assert!(legacy_charset("text/html; charset=ms950"));
    assert!(!legacy_charset("text/html; charset=utf-8"));
    assert!(!legacy_charset(""));
}

#[test]
fn exchange_hosts_bypass_the_proxy() {
    assert!(crawling_direct("https://www.twse.com.tw/exchangeReport"));
    assert!(crawling_direct("https://www.tpex.org.tw/web/stock"));
    assert!(!crawling_direct("https://fubon-ebrokerdj.fbs.com.tw/z/zc"));
}

#[test]
fn utf8_bodies_decode_as_utf8() {
    let bytes = "hello 世界".as_bytes().to_vec();
    let body = decode_body(bytes, "text/html; charset=utf-8").unwrap();
    assert_eq!(body, "hello 世界");
}

#[test]
fn invalid_utf8_is_a_decode_error() {
    let bytes = vec![0xff, 0xfe, 0x41];
    assert!(matches!(
        decode_body(bytes, "text/html"),
        Err(FetchError::DecodeError)
    ));
}

#[test]
fn big5_bodies_decode_as_big5() {
    // the Big5 encoding of a short Chinese text, taken from encoding_rs
    // itself so the expectation tracks the real decoder
    let text = "台積電";
    let (encoded, _, _) = encoding_rs::BIG5.encode(text);
    let bytes = encoded.into_owned();
    assert_ne!(bytes, text.as_bytes());
    let body = decode_body(bytes, "text/csv").unwrap();
    assert_eq!(body, text);
}

#[test]
fn ascii_under_big5_passes_through() {
    let bytes = b"plain,csv,line".to_vec();
    let body = decode_body(bytes, "text/csv; charset=ms950").unwrap();
    assert_eq!(body, "plain,csv,line");
}

#[test]
fn statuses_map_to_fetch_errors() {
    let ok = payload_from_response("https://x", 200, "text/html", b"body".to_vec()).unwrap();
    assert_eq!(ok.content, "body");
    assert_eq!(ok.source, "https://x");
    assert_eq!(ok.content_type, "text/html");
    assert!(ok.date.is_none());

    assert!(matches!(
        payload_from_response("https://x", 404, "text/html", Vec::new()),
        Err(FetchError::NotFound)
    ));
    assert!(matches!(
        payload_from_response("https://x", 500, "text/html", Vec::new()),
        Err(FetchError::FetchFailed(500))
    ));
}

#[test]
fn file_payloads_are_plain_text() {
    let p = payload_from_file("file://Cargo.toml", String::from("version = 1"));
    assert_eq!(p.content, "version = 1");
    assert_eq!(p.source, "file://Cargo.toml");
    assert_eq!(p.content_type, "text/plain");
    assert!(p.date.is_none());
}
