//! Decoding of the ledger's event logs.
//!
//! A log is a list of 32-byte topics and a byte payload. The two event
//! shapes this core consumes are
//! `DatasetNFTMinted(address to, uint256 tokenId, string datasetId)` with the
//! recipient and token id as indexed topics and the dataset id ABI-encoded in
//! the payload, and `DatasetUsed(uint256 tokenId, address user, uint256
//! amount)` with token id and payer indexed and the amount as the payload.
//! A log of any other shape is not an error: several event kinds share the
//! contract's log stream, so it is silently skipped.

use vstd::prelude::*;
use vstd::utf8::{decode_utf8, encode_utf8, valid_utf8};

use crate::reconcile::DatasetNFTMint;

verus! {

/// The unsigned big-endian value of a byte string.
pub open spec fn be_val(b: Seq<u8>) -> int
    decreases b.len(),
{
    if b.len() == 0 {
        0
    } else {
        be_val(b.drop_last()) * 256 + b.last()
    }
}

pub(crate) proof fn lemma_be_val_nonneg(b: Seq<u8>)
    ensures
        be_val(b) >= 0,
    decreases b.len(),
{
    if b.len() > 0 {
        lemma_be_val_nonneg(b.drop_last());
    }
}

/// A byte string is worth at least as much as any of its prefixes.
proof fn lemma_be_val_prefix(b: Seq<u8>, i: int)
    requires
        0 <= i <= b.len(),
    ensures
        be_val(b.subrange(0, i)) <= be_val(b),
    decreases b.len() - i,
{
    if i == b.len() {
        assert(b.subrange(0, i) =~= b);
    } else {
        let shorter = b.drop_last();
        assert(b.subrange(0, i) =~= shorter.subrange(0, i));
        lemma_be_val_prefix(shorter, i);
        lemma_be_val_nonneg(shorter);
    }
}

/// The big-endian value of `b`, or `None` when it exceeds `u64::MAX`.
pub fn be_val_u64(b: &[u8]) -> (r: Option<u64>)
    ensures
        match r {
            Option::Some(v) => v == be_val(b@),
            Option::None => be_val(b@) > u64::MAX,
        },
{
    let n = b.len();
    let mut acc: u64 = 0;
    let mut i: usize = 0;
    while i < n
        invariant
            0 <= i <= n,
            n == b@.len(),
            acc == be_val(b@.subrange(0, i as int)),
        decreases n - i,
    {
        let ghost prefix = b@.subrange(0, i as int);
        proof {
            assert(b@.subrange(0, i + 1) =~= prefix.push(b@[i as int]));
            assert(prefix.push(b@[i as int]).drop_last() =~= prefix);
        }
        let next = match acc.checked_mul(256) {
            Option::Some(m) => m.checked_add(b[i] as u64),
            Option::None => Option::None,
        };
        match next {
            Option::Some(v) => {
                acc = v;
            },
            Option::None => {
                proof {
                    lemma_be_val_prefix(b@, i + 1);
                }
                return Option::None;
            },
        }
        i = i + 1;
    }
    proof {
        assert(b@.subrange(0, n as int) =~= b@);
    }
    Option::Some(acc)
}

/// The big-endian value of `b`, saturated at `u128::MAX`. Prices are
/// 128-bit values themselves, so a saturated amount still settles every
/// per-price comparison the verifier makes exactly as the true value
/// would.
pub fn be_val_saturating_u128(b: &[u8]) -> (r: u128)
    ensures
        be_val(b@) <= u128::MAX ==> r == be_val(b@),
        be_val(b@) > u128::MAX ==> r == u128::MAX,
{
    let n = b.len();
    let mut acc: u128 = 0;
    let mut i: usize = 0;
    while i < n
        invariant
            0 <= i <= n,
            n == b@.len(),
            acc == be_val(b@.subrange(0, i as int)),
        decreases n - i,
    {
        let ghost prefix = b@.subrange(0, i as int);
        proof {
            assert(b@.subrange(0, i + 1) =~= prefix.push(b@[i as int]));
            assert(prefix.push(b@[i as int]).drop_last() =~= prefix);
        }
        let next = match acc.checked_mul(256) {
            Option::Some(m) => m.checked_add(b[i] as u128),
            Option::None => Option::None,
        };
        match next {
            Option::Some(v) => {
                acc = v;
            },
            Option::None => {
                proof {
                    lemma_be_val_prefix(b@, i + 1);
                }
                return u128::MAX;
            },
        }
        i = i + 1;
    }
    proof {
        assert(b@.subrange(0, n as int) =~= b@);
        lemma_be_val_prefix(b@, n as int);
    }
    acc
}

/// Whether two byte strings are equal.
pub fn bytes_eq(a: &[u8], b: &[u8]) -> (r: bool)
    ensures
        r == (a@ == b@),
{
    if a.len() != b.len() {
        return false;
    }
    let n = a.len();
    let mut i: usize = 0;
    while i < n
        invariant
            0 <= i <= n,
            n == a@.len() == b@.len(),
            forall|j: int| 0 <= j < i ==> a@[j] == b@[j],
        decreases n - i,
    {
        if a[i] != b[i] {
            return false;
        }
        i = i + 1;
    }
    proof {
        assert(a@ =~= b@);
    }
    true
}

/// The Keccak-256 digest of a byte string, as a function of nothing but
/// those bytes.
pub uninterp spec fn keccak_of(b: Seq<u8>) -> Seq<u8>;

/// The canonical checksummed display form of a 20-byte ledger address.
pub uninterp spec fn address_display(b: Seq<u8>) -> Seq<char>;

/// Relies on `alloy::primitives::keccak256`: the Keccak-256 digest depends
/// on the input bytes alone, and is 32 bytes long.
#[verifier::external_body]
fn keccak256_digest(b: &[u8]) -> (r: Vec<u8>)
    ensures
        r@ == keccak_of(b@),
        r@.len() == 32,
{
    alloy::primitives::keccak256(b).to_vec()
}

/// Relies on `alloy::primitives::Address::to_checksum`: the checksummed
/// display form depends on the 20 address bytes alone, is 42 characters, and
/// begins with `0x`.
#[verifier::external_body]
pub(crate) fn checksum_address(b: &[u8]) -> (r: String)
    requires
        b@.len() == 20,
    ensures
        r@ == address_display(b@),
        r@.len() == 42,
        r@[0] == '0' && r@[1] == 'x',
{
    alloy::primitives::Address::from_slice(b).to_checksum(None)
}

/// The topic that identifies a `DatasetNFTMinted` log.
pub open spec fn mint_event_topic_view() -> Seq<u8> {
    keccak_of(encode_utf8("DatasetNFTMinted(address,uint256,string)"@))
}

/// The topic that identifies a `DatasetUsed` log.
pub open spec fn usage_event_topic_view() -> Seq<u8> {
    keccak_of(encode_utf8("DatasetUsed(uint256,address,uint256)"@))
}

/// Computes the `DatasetNFTMinted` signature topic.
pub fn mint_event_topic() -> (r: Vec<u8>)
    ensures
        r@ == mint_event_topic_view(),
        r@.len() == 32,
{
    keccak256_digest("DatasetNFTMinted(address,uint256,string)".as_bytes())
}

/// Computes the `DatasetUsed` signature topic.
pub fn usage_event_topic() -> (r: Vec<u8>)
    ensures
        r@ == usage_event_topic_view(),
        r@.len() == 32,
{
    keccak256_digest("DatasetUsed(uint256,address,uint256)".as_bytes())
}

/// The value of a hexadecimal digit, or a negative marker for any other
/// character.
pub open spec fn hex_digit_val(c: char) -> int {
    if '0' <= c && c <= '9' {
        c as int - '0' as int
    } else if 'a' <= c && c <= 'f' {
        c as int - 'a' as int + 10
    } else if 'A' <= c && c <= 'F' {
        c as int - 'A' as int + 10
    } else {
        -1
    }
}

/// A 20-byte address written as `0x` followed by 40 hexadecimal digits, in
/// either case.
pub open spec fn is_hex_address(s: Seq<char>) -> bool {
    &&& s.len() == 42
    &&& s[0] == '0'
    &&& s[1] == 'x'
    &&& forall|i: int| 2 <= i < 42 ==> hex_digit_val(#[trigger] s[i]) >= 0
}

/// The 20 bytes a hexadecimal address string denotes.
pub open spec fn hex_address_bytes(s: Seq<char>) -> Seq<u8> {
    Seq::new(20, |i: int| (hex_digit_val(s[2 + 2 * i]) * 16 + hex_digit_val(s[3 + 2 * i])) as u8)
}

/// The value of one hexadecimal digit character.
fn hex_digit(c: char) -> (r: Option<u8>)
    ensures
        r matches Some(v) ==> v == hex_digit_val(c),
        r is None <==> hex_digit_val(c) < 0,
{
    if c >= '0' && c <= '9' {
        Some((c as u32 - 48) as u8)
    } else if c >= 'a' && c <= 'f' {
        Some((c as u32 - 97 + 10) as u8)
    } else if c >= 'A' && c <= 'F' {
        Some((c as u32 - 65 + 10) as u8)
    } else {
        None
    }
}

/// Parses a ledger address written as `0x` plus 40 hexadecimal digits into
/// its 20 bytes; any other string is rejected.
#[verifier::loop_isolation(false)]
pub fn parse_eth_address(s: &str) -> (r: Option<Vec<u8>>)
    ensures
        r is Some <==> is_hex_address(s@),
        r matches Some(b) ==> b@ == hex_address_bytes(s@) && b@.len() == 20,
{
    let n = s.unicode_len();
    if n != 42 {
        return None;
    }
    if s.get_char(0) != '0' || s.get_char(1) != 'x' {
        return None;
    }
    let mut out: Vec<u8> = Vec::new();
    let mut i: usize = 0;
    while i < 20
        invariant
            0 <= i <= 20,
            out@.len() == i,
            forall|j: int| 2 <= j < 2 + 2 * i ==> hex_digit_val(#[trigger] s@[j]) >= 0,
            forall|j: int|
                0 <= j < i ==> #[trigger] out@[j] == (hex_digit_val(s@[2 + 2 * j]) * 16
                    + hex_digit_val(s@[3 + 2 * j])) as u8,
        decreases 20 - i,
    {
        let hi = match hex_digit(s.get_char(2 + 2 * i)) {
            Option::None => {
                return None;
            },
            Option::Some(v) => v,
        };
        let lo = match hex_digit(s.get_char(3 + 2 * i)) {
            Option::None => {
                return None;
            },
            Option::Some(v) => v,
        };
        out.push(hi * 16 + lo);
        i = i + 1;
    }
    proof {
        assert(out@ =~= hex_address_bytes(s@));
    }
    Some(out)
}

/// Relies on `String::from_utf8`: it succeeds exactly on valid UTF-8 input
/// and the resulting string's characters are the decoding of those bytes.
#[verifier::external_body]
pub(crate) fn string_from_utf8(b: Vec<u8>) -> (r: Option<String>)
    ensures
        r is Some <==> valid_utf8(b@),
        r matches Some(s) ==> s@ == decode_utf8(b@),
{
    String::from_utf8(b).ok()
}

/// One raw ledger log: its 32-byte topics, its payload, and the transaction
/// that emitted it, when known.
pub struct LogRecord {
    pub topics: Vec<Vec<u8>>,
    pub data: Vec<u8>,
    pub tx_hash: Option<String>,
}

/// The ABI payload of a dynamic-string log body: an offset word of 32, a
/// length word, then that many bytes.
pub open spec fn mint_payload(data: Seq<u8>) -> Seq<u8> {
    data.subrange(64, 64 + be_val(data.subrange(32, 64)))
}

/// A log has the `DatasetNFTMinted` shape: the signature topic, two 32-byte
/// indexed words, a well-formed string payload, and a token id that fits the
/// store's `i64` identifier space.
pub open spec fn mint_log_matches(log: LogRecord) -> bool {
    &&& log.topics@.len() == 3
    &&& log.topics@[0]@ == mint_event_topic_view()
    &&& log.topics@[1]@.len() == 32
    &&& log.topics@[2]@.len() == 32
    &&& be_val(log.topics@[2]@) <= i64::MAX
    &&& log.data@.len() >= 64
    &&& be_val(log.data@.subrange(0, 32)) == 32
    &&& be_val(log.data@.subrange(32, 64)) + 64 <= log.data@.len()
    &&& valid_utf8(mint_payload(log.data@))
}

/// `ev` is the decoding of the `DatasetNFTMinted` log `log`.
pub open spec fn mint_event_of(ev: DatasetNFTMint, log: LogRecord) -> bool {
    &&& ev.to@ == address_display(log.topics@[1]@.subrange(12, 32))
    &&& ev.token_id == be_val(log.topics@[2]@)
    &&& ev.dataset_id@ == decode_utf8(mint_payload(log.data@))
    &&& ev.tx_hash == log.tx_hash
}

/// Decodes a log as a `DatasetNFTMinted` event; `None` exactly when the log
/// does not have that shape.
pub fn decode_mint_event(log: &LogRecord) -> (r: Option<DatasetNFTMint>)
    ensures
        r is Some <==> mint_log_matches(*log),
        r matches Some(ev) ==> mint_event_of(ev, *log),
{
    if log.topics.len() != 3 {
        return None;
    }
    let sig = mint_event_topic();
    if !bytes_eq(log.topics[0].as_slice(), sig.as_slice()) {
        return None;
    }
    if log.topics[1].len() != 32 || log.topics[2].len() != 32 {
        return None;
    }
    let token = match be_val_u64(log.topics[2].as_slice()) {
        Option::None => {
            return None;
        },
        Option::Some(v) => v,
    };
    if token > 0x7fffffffffffffffu64 {
        return None;
    }
    if log.data.len() < 64 {
        return None;
    }
    let data = log.data.as_slice();
    match be_val_u64(&data[0..32]) {
        Option::Some(off) => {
            if off != 32 {
                return None;
            }
        },
        Option::None => {
            return None;
        },
    }
    let len_word = match be_val_u64(&data[32..64]) {
        Option::None => {
            // A length beyond `u64::MAX` cannot fit in the payload that
            // follows the two header words.
            proof {
                lemma_be_val_nonneg(log.data@.subrange(32, 64));
            }
            return None;
        },
        Option::Some(l) => l,
    };
    if len_word > (log.data.len() - 64) as u64 {
        return None;
    }
    let plen = len_word as usize;
    let payload = &data[64..64 + plen];
    let ghost payload_view = mint_payload(log.data@);
    proof {
        assert(payload@ =~= payload_view);
    }
    let mut payload_vec: Vec<u8> = Vec::new();
    let mut i: usize = 0;
    while i < plen
        invariant
            0 <= i <= plen,
            plen == payload@.len(),
            payload@ == payload_view,
            payload_vec@ == payload@.subrange(0, i as int),
        decreases plen - i,
    {
        payload_vec.push(payload[i]);
        proof {
            assert(payload@.subrange(0, i + 1) =~= payload@.subrange(0, i as int).push(
                payload@[i as int],
            ));
        }
        i = i + 1;
    }
    proof {
        assert(payload_vec@ =~= payload@);
    }
    let dataset_id = match string_from_utf8(payload_vec) {
        Option::None => {
            return None;
        },
        Option::Some(s) => s,
    };
    let to = checksum_address(&log.topics[1].as_slice()[12..32]);
    Some(
        DatasetNFTMint {
            to,
            token_id: token as i64,
            dataset_id,
            tx_hash: crate::records::clone_opt_string(&log.tx_hash),
        },
    )
}

/// One decoded `DatasetUsed` ledger event: a payment of `amount` base units
/// against the minted token `token_id`, made by `user`.
pub struct DatasetUsed {
    pub token_id: i64,
    pub user: String,
    pub amount: u128,
}

/// A log has the `DatasetUsed` shape: the signature topic, two 32-byte
/// indexed words, and a 32-byte amount payload.
pub open spec fn usage_log_matches(log: LogRecord) -> bool {
    &&& log.topics@.len() == 3
    &&& log.topics@[0]@ == usage_event_topic_view()
    &&& log.topics@[1]@.len() == 32
    &&& log.topics@[2]@.len() == 32
    &&& log.data@.len() == 32
}

/// The paid amount a usage log carries, saturated at `u128::MAX`. A
/// saturated amount still settles every comparison the verifier makes the
/// same way as the true value; the payment laws prove this exactly.
pub open spec fn usage_amount_of(data: Seq<u8>) -> int {
    if be_val(data) > u128::MAX {
        u128::MAX as int
    } else {
        be_val(data)
    }
}

/// A usage-shaped log whose token id does not fit the store's `i64`
/// identifier space; such a log cannot be attributed to any record.
#[derive(Clone, Copy, Debug, PartialEq, Eq, Structural)]
pub enum AbiError {
    TokenIdOutOfRange,
}

/// Decodes a log as a `DatasetUsed` event. `Ok(None)` exactly when the log
/// does not have that shape; an error exactly when it has the shape but its
/// token id exceeds the identifier space.
pub fn decode_usage_event(log: &LogRecord) -> (r: Result<Option<DatasetUsed>, AbiError>)
    ensures
        r matches Ok(opt) ==> ((opt is Some) <==> (usage_log_matches(*log) && be_val(
            log.topics@[1]@,
        ) <= i64::MAX)),
        r is Err <==> (usage_log_matches(*log) && be_val(log.topics@[1]@) > i64::MAX),
        r matches Ok(Some(ev)) ==> {
            &&& ev.token_id == be_val(log.topics@[1]@)
            &&& ev.user@ == address_display(log.topics@[2]@.subrange(12, 32))
            &&& ev.amount == usage_amount_of(log.data@)
        },
{
    if log.topics.len() != 3 {
        return Ok(None);
    }
    let sig = usage_event_topic();
    if !bytes_eq(log.topics[0].as_slice(), sig.as_slice()) {
        return Ok(None);
    }
    if log.topics[1].len() != 32 || log.topics[2].len() != 32 {
        return Ok(None);
    }
    if log.data.len() != 32 {
        return Ok(None);
    }
    let token = match be_val_u64(log.topics[1].as_slice()) {
        Option::None => {
            return Err(AbiError::TokenIdOutOfRange);
        },
        Option::Some(v) => v,
    };
    if token > 0x7fffffffffffffffu64 {
        return Err(AbiError::TokenIdOutOfRange);
    }
    let amount = be_val_saturating_u128(log.data.as_slice());
    let user = checksum_address(&log.topics[2].as_slice()[12..32]);
    Ok(Some(DatasetUsed { token_id: token as i64, user, amount }))
}

} // verus!
