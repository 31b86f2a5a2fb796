use enclava::abi::parse_eth_address;
use enclava::category::AgentCategory;
use enclava::config::ws_url_of;
use enclava::csvdata::csv_bytes_to_string;
use enclava::numparse::parse_i64;
use enclava::types::{eq_ignore_ascii_case, is_blank, is_csv_filename};

#[test]
fn parse_i64_accepts_plain_decimals() {
    assert_eq!(parse_i64("0"), Some(0));
    assert_eq!(parse_i64("7"), Some(7));
    assert_eq!(parse_i64("42"), Some(42));
    assert_eq!(parse_i64("0042"), Some(42));
    assert_eq!(parse_i64("9223372036854775807"), Some(i64::MAX));
}

#[test]
fn parse_i64_accepts_negatives() {
    assert_eq!(parse_i64("-1"), Some(-1));
    assert_eq!(parse_i64("-0"), Some(0));
    assert_eq!(parse_i64("-9223372036854775808"), Some(i64::MIN));
}

#[test]
fn parse_i64_rejects_out_of_range() {
    assert_eq!(parse_i64("9223372036854775808"), None);
    assert_eq!(parse_i64("-9223372036854775809"), None);
    assert_eq!(parse_i64("999999999999999999999999999"), None);
}

#[test]
fn parse_i64_accepts_a_plus_sign() {
    assert_eq!(parse_i64("+5"), Some(5));
    assert_eq!(parse_i64("+0"), Some(0));
    assert_eq!(parse_i64("+9223372036854775807"), Some(i64::MAX));
}

#[test]
fn parse_i64_rejects_malformed() {
    assert_eq!(parse_i64(""), None);
    assert_eq!(parse_i64("-"), None);
    assert_eq!(parse_i64("+"), None);
    assert_eq!(parse_i64("+-3"), None);
    assert_eq!(parse_i64("-+3"), None);
    assert_eq!(parse_i64("12a"), None);
    assert_eq!(parse_i64("a12"), None);
    assert_eq!(parse_i64("1 2"), None);
    assert_eq!(parse_i64("1.5"), None);
}

#[test]
fn parse_eth_address_round_trips_hex() {
    let b = parse_eth_address("0x015C507e3E79D5049b003C3bE5b2E208A4Bb7e56").unwrap();
    assert_eq!(b.len(), 20);
    assert_eq!(b[0], 0x01);
    assert_eq!(b[1], 0x5c);
    assert_eq!(b[19], 0x56);
    let lower = parse_eth_address("0x015c507e3e79d5049b003c3be5b2e208a4bb7e56").unwrap();
    assert_eq!(b, lower);
}

#[test]
fn parse_eth_address_rejects_malformed() {
    assert_eq!(parse_eth_address(""), None);
    assert_eq!(parse_eth_address("0x"), None);
    assert_eq!(
        parse_eth_address("015C507e3E79D5049b003C3bE5b2E208A4Bb7e56"),
        None
    );
    assert_eq!(
        parse_eth_address("0x015C507e3E79D5049b003C3bE5b2E208A4Bb7e5"),
        None
    );
    assert_eq!(
        parse_eth_address("0x015C507e3E79D5049b003C3bE5b2E208A4Bb7e5g"),
        None
    );
}

#[test]
fn category_labels_round_trip() {
    let labels = [
        "Web3",
        "Financial",
        "Analytics",
        "Healthcare",
        "IoT",
        "Gaming",
        "Consumer Data",
        "Social Media",
        "Environmental",
    ];
    for label in labels {
        let cat = AgentCategory::from_string(label).unwrap();
        assert_eq!(cat.label(), label);
    }
    assert_eq!(AgentCategory::from_string("web3"), None);
    assert_eq!(AgentCategory::from_string(""), None);
    assert_eq!(AgentCategory::from_string("Finance"), None);
}

#[test]
fn csv_filename_check_folds_case() {
    assert!(is_csv_filename("data.csv"));
    assert!(is_csv_filename("DATA.CSV"));
    assert!(is_csv_filename("d.CsV"));
    assert!(!is_csv_filename("data.txt"));
    assert!(!is_csv_filename("csv"));
    assert!(!is_csv_filename(""));
}

#[test]
fn ascii_case_comparison() {
    assert!(eq_ignore_ascii_case("ASC", "asc"));
    assert!(eq_ignore_ascii_case("Desc", "desc"));
    assert!(!eq_ignore_ascii_case("asc", "desc"));
    assert!(!eq_ignore_ascii_case("asce", "asc"));
}

#[test]
fn blank_detection() {
    assert!(is_blank(""));
    assert!(is_blank("  \t\n"));
    assert!(is_blank("\u{00a0}\u{2003}\u{3000}"));
    assert!(!is_blank(" a "));
}

#[test]
fn csv_bytes_decode_as_text() {
    let s = csv_bytes_to_string(b"a,b\n1,2\n").unwrap();
    assert_eq!(s, "a,b\n1,2\n");
    assert_eq!(csv_bytes_to_string(&[0xff, 0xfe]), None);
}

#[test]
fn ws_url_derivation() {
    let http = String::from("https://eth.example/v2/key");
    assert_eq!(ws_url_of(&http), "wss://eth.example/v2/key");
    let other = String::from("http://eth.example");
    assert_eq!(ws_url_of(&other), "http://eth.example");
}
