use enclava::abi::{
    be_val_saturating_u128, be_val_u64, decode_mint_event, decode_usage_event, mint_event_topic,
    parse_eth_address, usage_event_topic, AbiError, LogRecord,
};

fn word(v: u64) -> Vec<u8> {
    let mut b = vec![0u8; 32];
    b[24..].copy_from_slice(&v.to_be_bytes());
    b
}

fn address_topic(addr: &[u8]) -> Vec<u8> {
    let mut b = vec![0u8; 32];
    b[12..].copy_from_slice(addr);
    b
}

fn string_payload(s: &str) -> Vec<u8> {
    let mut data = word(32);
    data.extend_from_slice(&word(s.len() as u64));
    data.extend_from_slice(s.as_bytes());
    data
}

fn mint_log(addr: &[u8], token: u64, dataset_id: &str, tx: Option<&str>) -> LogRecord {
    LogRecord {
        topics: vec![mint_event_topic(), address_topic(addr), word(token)],
        data: string_payload(dataset_id),
        tx_hash: tx.map(|t| t.to_string()),
    }
}

fn usage_log(token_word: Vec<u8>, payer: &[u8], amount_word: Vec<u8>) -> LogRecord {
    LogRecord {
        topics: vec![usage_event_topic(), token_word, address_topic(payer)],
        data: amount_word,
        tx_hash: None,
    }
}

#[test]
fn event_topics_are_real_digests() {
    let mint = mint_event_topic();
    let usage = usage_event_topic();
    assert_eq!(mint.len(), 32);
    assert_eq!(usage.len(), 32);
    assert_ne!(mint, usage);
    // A digest, not the signature text handed back.
    assert_ne!(mint, b"DatasetNFTMinted(address,uint256,string)".to_vec());
    // The well-known selector of a keccak-256 digest is stable across calls.
    assert_eq!(mint, mint_event_topic());
}

#[test]
fn decoded_recipient_is_checksummed_reference_vector() {
    // The recipient comes back in EIP-55 checksummed display form: decoding
    // a log whose topic holds the canonical test-vector address must yield
    // its mixed-case form, not the lower-case hex that went in.
    let bytes = parse_eth_address("0x5aaeb6053f3e94c9b9a09f33669435e7ef1beaed").unwrap();
    let log = mint_log(&bytes, 1, "1", None);
    let ev = decode_mint_event(&log).unwrap();
    assert_eq!(ev.to, "0x5aAeb6053F3E94C9b9A09f33669435E7Ef1BeAed");
}

#[test]
fn mint_log_decodes() {
    let addr = parse_eth_address("0x5aaeb6053f3e94c9b9a09f33669435e7ef1beaed").unwrap();
    let log = mint_log(&addr, 9, "37", Some("0xabc"));
    let ev = decode_mint_event(&log).unwrap();
    assert_eq!(ev.to, "0x5aAeb6053F3E94C9b9A09f33669435E7Ef1BeAed");
    assert_eq!(ev.token_id, 9);
    assert_eq!(ev.dataset_id, "37");
    assert_eq!(ev.tx_hash.as_deref(), Some("0xabc"));
}

#[test]
fn mint_log_of_other_shape_is_skipped() {
    let addr = [0x11u8; 20];
    // Wrong signature topic.
    let mut log = mint_log(&addr, 9, "37", None);
    log.topics[0] = usage_event_topic();
    assert!(decode_mint_event(&log).is_none());
    // Too few topics.
    let mut log = mint_log(&addr, 9, "37", None);
    log.topics.pop();
    assert!(decode_mint_event(&log).is_none());
    // Payload too short for its own length word.
    let mut log = mint_log(&addr, 9, "37", None);
    log.data.pop();
    assert!(decode_mint_event(&log).is_none());
    // Offset word that is not 32.
    let mut log = mint_log(&addr, 9, "37", None);
    log.data[31] = 64;
    assert!(decode_mint_event(&log).is_none());
    // Dataset id bytes that are not UTF-8.
    let mut log = mint_log(&addr, 9, "37", None);
    let n = log.data.len();
    log.data[n - 1] = 0xff;
    assert!(decode_mint_event(&log).is_none());
    // A token id beyond the store's identifier space.
    let mut big = word(u64::MAX);
    big[23] = 1;
    let log = LogRecord {
        topics: vec![mint_event_topic(), address_topic(&addr), big],
        data: string_payload("37"),
        tx_hash: None,
    };
    assert!(decode_mint_event(&log).is_none());
}

#[test]
fn usage_log_decodes() {
    let payer = [0x22u8; 20];
    let log = usage_log(word(5), &payer, word(1500));
    let ev = decode_usage_event(&log).unwrap().unwrap();
    assert_eq!(ev.token_id, 5);
    assert_eq!(ev.amount, 1500);
    assert!(ev.user.starts_with("0x"));
    assert_eq!(ev.user.len(), 42);
    assert_eq!(ev.user.to_lowercase(), format!("0x{}", "22".repeat(20)));
}

#[test]
fn usage_log_of_other_shape_is_skipped() {
    let payer = [0x22u8; 20];
    let mut log = usage_log(word(5), &payer, word(1500));
    log.topics[0] = mint_event_topic();
    assert_eq!(decode_usage_event(&log).unwrap().is_none(), true);
    let mut log = usage_log(word(5), &payer, word(1500));
    log.data.push(0);
    assert_eq!(decode_usage_event(&log).unwrap().is_none(), true);
}

#[test]
fn usage_log_with_huge_token_is_an_error() {
    let payer = [0x22u8; 20];
    let mut tok = word(0);
    tok[0] = 1;
    let log = usage_log(tok, &payer, word(1500));
    assert!(matches!(
        decode_usage_event(&log),
        Err(AbiError::TokenIdOutOfRange)
    ));
}

#[test]
fn usage_amount_saturates_beyond_u128() {
    let payer = [0x22u8; 20];
    let mut amount = vec![0xffu8; 32];
    amount[0] = 1;
    let log = usage_log(word(5), &payer, amount);
    let ev = decode_usage_event(&log).unwrap().unwrap();
    assert_eq!(ev.amount, u128::MAX);
}

#[test]
fn big_endian_values() {
    assert_eq!(be_val_u64(&[]), Some(0));
    assert_eq!(be_val_u64(&[1, 0]), Some(256));
    assert_eq!(be_val_u64(&word(123456)), Some(123456));
    assert_eq!(be_val_u64(&vec![0xff; 9]), None);
    assert_eq!(be_val_saturating_u128(&[1, 0, 0]), 65536);
    assert_eq!(be_val_saturating_u128(&vec![0xff; 17]), u128::MAX);
}
