//! Payment verification: from a transaction's raw receipt, re-derive whether
//! the claimed payment covers every requested agent, then consume the
//! transaction hash so it cannot be replayed.
//!
//! A payment is accepted only when the receipt reports success, targets the
//! expected contract, every decoded usage event pays a requested record at
//! least its price (per-agent sufficiency), and the amounts paid add up to
//! at least the records' total price (aggregate sufficiency). The per-agent
//! floor stops a payer from covering the aggregate by overpaying one cheap
//! agent while underpaying an expensive one.

use vstd::prelude::*;

use crate::abi::{
    be_val, decode_usage_event, usage_amount_of, usage_log_matches, AbiError, LogRecord,
};
use crate::records::AgentDb;
use crate::txset::{consumed_hashes, ConsumedTxSet};

verus! {

/// A transaction receipt, as the ledger reports it: the success status, the
/// destination contract address (20 bytes, when present), and the ordered
/// list of logs the transaction emitted.
pub struct Receipt {
    pub status: bool,
    pub to: Option<Vec<u8>>,
    pub logs: Vec<LogRecord>,
}

/// A transport- or decoding-level failure, distinct from the plain "payment
/// not valid" verdict `Ok(false)`.
#[derive(Clone, Copy, Debug, PartialEq, Eq, Structural)]
pub enum VerifyError {
    /// A usage-shaped log carries a token id beyond the store's identifier
    /// space, so it cannot be resolved to any record.
    TokenIdOutOfRange,
}

/// The total price of a list of records, in base units.
pub open spec fn sum_prices(rows: Seq<AgentDb>) -> int
    decreases rows.len(),
{
    if rows.len() == 0 {
        0
    } else {
        sum_prices(rows.drop_last()) + rows.last().price
    }
}

/// The first record whose minted token is `token`, in list order.
pub open spec fn first_with_nft(rows: Seq<AgentDb>, token: i64) -> Option<AgentDb>
    decreases rows.len(),
{
    if rows.len() == 0 {
        Option::None
    } else if rows[0].nft_id == Some(token) {
        Option::Some(rows[0])
    } else {
        first_with_nft(rows.drop_first(), token)
    }
}

/// Addition capped at `u128::MAX`.
pub open spec fn sat_add_u128(a: int, b: int) -> int {
    if a + b > u128::MAX {
        u128::MAX as int
    } else {
        a + b
    }
}

/// The total price owed, capped at `u128::MAX` — the required total as the
/// verifier computes it. For any store whose total price fits 128 bits the
/// cap is never reached, and the aggregate-exactness law below shows the
/// capped comparison then equals the comparison of the true amounts.
pub open spec fn required_total_capped(rows: Seq<AgentDb>) -> int {
    if sum_prices(rows) > u128::MAX {
        u128::MAX as int
    } else {
        sum_prices(rows)
    }
}

/// What scanning a receipt's logs front to back yields: the first offending
/// log decides, otherwise the summed amount paid.
pub enum LogScan {
    /// A usage-shaped log carries a token id beyond the identifier space.
    TokenError,
    /// A usage event references a token that none of the requested records
    /// minted; an event for an unrelated token does not count as payment.
    AgentMissing,
    /// A usage event pays its record less than that record's price.
    Underpaid,
    /// Every usage event matched and sufficed; the total paid, capped at
    /// `u128::MAX`.
    Total(u128),
}

/// Scans `logs` front to back against the requested records: logs that are
/// not usage-shaped are skipped, and the first offending usage event decides
/// the outcome.
pub open spec fn scan_usage_logs(rows: Seq<AgentDb>, logs: Seq<LogRecord>) -> LogScan
    decreases logs.len(),
{
    if logs.len() == 0 {
        LogScan::Total(0)
    } else {
        let rest = scan_usage_logs(rows, logs.drop_last());
        match rest {
            LogScan::Total(t) => {
                let log = logs.last();
                if !usage_log_matches(log) {
                    LogScan::Total(t)
                } else if be_val(log.topics@[1]@) > i64::MAX {
                    LogScan::TokenError
                } else {
                    let token = be_val(log.topics@[1]@) as i64;
                    match first_with_nft(rows, token) {
                        Option::None => LogScan::AgentMissing,
                        Option::Some(rec) => if usage_amount_of(log.data@) < rec.price {
                            LogScan::Underpaid
                        } else {
                            LogScan::Total(sat_add_u128(t as int, usage_amount_of(log.data@)) as u128)
                        },
                    }
                }
            },
            _ => rest,
        }
    }
}

/// The verdict the verifier owes for a fetched receipt: `Ok(false)` for any
/// failed check, `Ok(true)` exactly when the receipt succeeded on the
/// expected contract and its usage events pay every requested record
/// individually and in aggregate.
pub open spec fn payment_verdict(
    rows: Seq<AgentDb>,
    receipt: Receipt,
    expected_contract: Seq<u8>,
) -> Result<bool, VerifyError> {
    if !receipt.status {
        Ok(false)
    } else if !(receipt.to matches Some(a) && a@ == expected_contract) {
        Ok(false)
    } else {
        match scan_usage_logs(rows, receipt.logs@) {
            LogScan::TokenError => Err(VerifyError::TokenIdOutOfRange),
            LogScan::AgentMissing => Ok(false),
            LogScan::Underpaid => Ok(false),
            LogScan::Total(t) => Ok(t >= required_total_capped(rows)),
        }
    }
}

/// A scan that has gone wrong stays wrong: once a prefix of the logs yields
/// a non-total outcome, the whole list yields the same outcome.
proof fn lemma_scan_sticky(rows: Seq<AgentDb>, logs: Seq<LogRecord>, k: int)
    requires
        0 <= k <= logs.len(),
        !(scan_usage_logs(rows, logs.subrange(0, k)) is Total),
    ensures
        scan_usage_logs(rows, logs) == scan_usage_logs(rows, logs.subrange(0, k)),
    decreases logs.len() - k,
{
    if k == logs.len() {
        assert(logs.subrange(0, k) =~= logs);
    } else {
        assert(logs.subrange(0, k + 1).drop_last() =~= logs.subrange(0, k));
        lemma_scan_sticky(rows, logs, k + 1);
    }
}

/// Finds the first requested record whose minted token is `token`.
fn find_record_by_nft(records: &Vec<AgentDb>, token: i64) -> (r: Option<&AgentDb>)
    ensures
        match r {
            Option::Some(rec) => first_with_nft(records@, token) == Some(*rec),
            Option::None => first_with_nft(records@, token) is None,
        },
{
    let n = records.len();
    let mut k: usize = 0;
    while k < n
        invariant
            0 <= k <= n,
            n == records@.len(),
            forall|j: int| 0 <= j < k ==> (#[trigger] records@[j]).nft_id != Some(token),
        decreases n - k,
    {
        let matches_token = match records[k].nft_id {
            Option::Some(t) => t == token,
            Option::None => false,
        };
        if matches_token {
            proof {
                lemma_first_with_nft_at(records@, token, k as int);
            }
            return Some(&records[k]);
        }
        k = k + 1;
    }
    proof {
        lemma_first_with_nft_none(records@, token);
    }
    None
}

proof fn lemma_first_with_nft_at(rows: Seq<AgentDb>, token: i64, k: int)
    requires
        0 <= k < rows.len(),
        rows[k].nft_id == Some(token),
        forall|j: int| 0 <= j < k ==> (#[trigger] rows[j]).nft_id != Some(token),
    ensures
        first_with_nft(rows, token) == Some(rows[k]),
    decreases k,
{
    if k > 0 {
        lemma_first_with_nft_at(rows.drop_first(), token, k - 1);
    }
}

proof fn lemma_first_with_nft_none(rows: Seq<AgentDb>, token: i64)
    requires
        forall|j: int| 0 <= j < rows.len() ==> (#[trigger] rows[j]).nft_id != Some(token),
    ensures
        first_with_nft(rows, token) is None,
    decreases rows.len(),
{
    if rows.len() > 0 {
        lemma_first_with_nft_none(rows.drop_first(), token);
    }
}

proof fn lemma_sum_prices_nonneg(rows: Seq<AgentDb>)
    ensures
        sum_prices(rows) >= 0,
    decreases rows.len(),
{
    if rows.len() > 0 {
        lemma_sum_prices_nonneg(rows.drop_last());
    }
}

/// A record list's total price is at least any prefix's total price.
proof fn lemma_sum_prices_prefix(rows: Seq<AgentDb>, i: int)
    requires
        0 <= i <= rows.len(),
    ensures
        sum_prices(rows.subrange(0, i)) <= sum_prices(rows),
    decreases rows.len() - i,
{
    if i == rows.len() {
        assert(rows.subrange(0, i) =~= rows);
    } else {
        let shorter = rows.drop_last();
        assert(rows.subrange(0, i) =~= shorter.subrange(0, i));
        lemma_sum_prices_prefix(shorter, i);
        lemma_sum_prices_nonneg(shorter);
    }
}

/// Computes the total price owed for the requested records, in base units,
/// capped at `u128::MAX`.
pub fn compute_required_total(records: &Vec<AgentDb>) -> (r: u128)
    ensures
        r == required_total_capped(records@),
{
    let n = records.len();
    let mut acc: u128 = 0;
    let mut k: usize = 0;
    while k < n
        invariant
            0 <= k <= n,
            n == records@.len(),
            acc == sum_prices(records@.subrange(0, k as int)),
        decreases n - k,
    {
        let ghost prefix = records@.subrange(0, k as int);
        proof {
            assert(records@.subrange(0, k + 1).drop_last() =~= prefix);
        }
        match acc.checked_add(records[k].price) {
            Option::Some(v) => {
                acc = v;
            },
            Option::None => {
                proof {
                    lemma_sum_prices_prefix(records@, k + 1);
                }
                return u128::MAX;
            },
        }
        k = k + 1;
    }
    proof {
        assert(records@.subrange(0, n as int) =~= records@);
    }
    acc
}

/// The replay check: whether this transaction hash was already consumed.
/// The caller makes this check before any ledger fetch; a hash already in
/// the set settles verification to false with no ledger call.
pub fn payment_replay_check(consumed: &ConsumedTxSet, tx_hash: &String) -> (blocked: bool)
    ensures
        blocked == consumed_hashes(*consumed).contains(tx_hash@),
{
    consumed.contains(tx_hash)
}

/// Verifies that the transaction `tx_hash`, whose fetched receipt is
/// `receipt` (`None` when the ledger has no receipt for it), pays for every
/// record in `records`. On success — and only then — the hash is consumed,
/// atomically, so a concurrent duplicate of the same hash cannot also
/// succeed.
#[verifier::loop_isolation(false)]
pub fn verif_selected_agents_payment(
    consumed: &mut ConsumedTxSet,
    records: &Vec<AgentDb>,
    receipt: &Option<Receipt>,
    tx_hash: &String,
    expected_contract: &Vec<u8>,
) -> (r: Result<bool, VerifyError>)
    ensures
        consumed_hashes(*old(consumed)).contains(tx_hash@) ==> r == Ok::<bool, VerifyError>(false)
            && consumed_hashes(*final(consumed)) == consumed_hashes(*old(consumed)),
        !consumed_hashes(*old(consumed)).contains(tx_hash@) ==> match receipt {
            Option::None => r == Ok::<bool, VerifyError>(false) && consumed_hashes(*final(consumed))
                == consumed_hashes(*old(consumed)),
            Option::Some(rc) => r == payment_verdict(records@, *rc, expected_contract@) && (
            if payment_verdict(records@, *rc, expected_contract@) == Ok::<bool, VerifyError>(true) {
                consumed_hashes(*final(consumed)) == consumed_hashes(*old(consumed)).insert(
                    tx_hash@,
                )
            } else {
                consumed_hashes(*final(consumed)) == consumed_hashes(*old(consumed))
            }),
        },
{
    if consumed.contains(tx_hash) {
        return Ok(false);
    }
    let rc = match receipt {
        Option::None => {
            return Ok(false);
        },
        Option::Some(rc) => rc,
    };
    if !rc.status {
        return Ok(false);
    }
    let to_matches = match &rc.to {
        Option::Some(a) => crate::abi::bytes_eq(a.as_slice(), expected_contract.as_slice()),
        Option::None => false,
    };
    if !to_matches {
        return Ok(false);
    }
    let required = compute_required_total(records);
    let n = rc.logs.len();
    let mut total: u128 = 0;
    let mut k: usize = 0;
    while k < n
        invariant
            0 <= k <= n,
            n == rc.logs@.len(),
            scan_usage_logs(records@, rc.logs@.subrange(0, k as int)) == LogScan::Total(total),
        decreases n - k,
    {
        let ghost prefix = rc.logs@.subrange(0, k as int);
        proof {
            assert(rc.logs@.subrange(0, k + 1).drop_last() =~= prefix);
        }
        let outcome = match decode_usage_event(&rc.logs[k]) {
            Result::Err(AbiError::TokenIdOutOfRange) => {
                proof {
                    lemma_scan_sticky(records@, rc.logs@, k + 1);
                }
                return Err(VerifyError::TokenIdOutOfRange);
            },
            Result::Ok(opt) => opt,
        };
        match outcome {
            Option::None => {
                // Not a usage event: another event kind on the same
                // contract; skipped.
            },
            Option::Some(ev) => {
                let record = match find_record_by_nft(records, ev.token_id) {
                    Option::None => {
                        proof {
                            lemma_scan_sticky(records@, rc.logs@, k + 1);
                        }
                        return Ok(false);
                    },
                    Option::Some(rec) => rec,
                };
                if ev.amount < record.price {
                    proof {
                        lemma_scan_sticky(records@, rc.logs@, k + 1);
                    }
                    return Ok(false);
                }
                total = match total.checked_add(ev.amount) {
                    Option::Some(t) => t,
                    Option::None => u128::MAX,
                };
            },
        }
        k = k + 1;
    }
    proof {
        assert(rc.logs@.subrange(0, n as int) =~= rc.logs@);
    }
    if total < required {
        return Ok(false);
    }
    let fresh = consumed.insert_if_absent(tx_hash.clone());
    Ok(fresh)
}

/// Amounts are integers in base units and prices fit in 64 bits, so
/// capping an amount at `u128::MAX` never changes whether it covers a
/// price: the per-agent floor is decided exactly, with no rounding that
/// could under- or over-credit a payment.
pub proof fn lemma_saturated_amount_decides_floor_exactly(data: Seq<u8>, price: u128)
    ensures
        (usage_amount_of(data) >= price) <==> (be_val(data) >= price),
{
}

/// The amount the ledger truly paid against the requested records: the
/// uncapped sum of the amounts of the usage logs that resolve to a
/// requested record.
pub open spec fn ledger_paid(rows: Seq<AgentDb>, logs: Seq<LogRecord>) -> int
    decreases logs.len(),
{
    if logs.len() == 0 {
        0
    } else {
        let rest = ledger_paid(rows, logs.drop_last());
        let log = logs.last();
        if usage_log_matches(log) && be_val(log.topics@[1]@) <= i64::MAX && first_with_nft(
            rows,
            be_val(log.topics@[1]@) as i64,
        ) is Some {
            rest + be_val(log.data@)
        } else {
            rest
        }
    }
}

proof fn lemma_ledger_paid_nonneg(rows: Seq<AgentDb>, logs: Seq<LogRecord>)
    ensures
        ledger_paid(rows, logs) >= 0,
    decreases logs.len(),
{
    if logs.len() > 0 {
        lemma_ledger_paid_nonneg(rows, logs.drop_last());
        crate::abi::lemma_be_val_nonneg(logs.last().data@);
    }
}

/// A completed scan's total is the true ledger total, capped at
/// `u128::MAX`.
proof fn lemma_scan_total_value(rows: Seq<AgentDb>, logs: Seq<LogRecord>, t: u128)
    requires
        scan_usage_logs(rows, logs) == LogScan::Total(t),
    ensures
        t == if ledger_paid(rows, logs) > u128::MAX {
            u128::MAX as int
        } else {
            ledger_paid(rows, logs)
        },
    decreases logs.len(),
{
    if logs.len() > 0 {
        let pre = logs.drop_last();
        assert(pre =~= logs.subrange(0, logs.len() - 1));
        if !(scan_usage_logs(rows, pre) is Total) {
            lemma_scan_sticky(rows, logs, logs.len() - 1);
            assert(false);
        }
        let prior = scan_usage_logs(rows, pre)->Total_0;
        lemma_scan_total_value(rows, pre, prior);
        lemma_ledger_paid_nonneg(rows, pre);
        crate::abi::lemma_be_val_nonneg(logs.last().data@);
    }
}

/// Capping never changes the aggregate verdict either: whenever the
/// records' total price itself fits in 128 bits, a completed scan's capped
/// total clears the capped required total exactly when the true, uncapped
/// ledger amounts clear the true required total. Together with the
/// per-agent lemma, the verifier's arithmetic credits payments exactly.
pub proof fn lemma_saturated_total_decides_aggregate_exactly(
    rows: Seq<AgentDb>,
    logs: Seq<LogRecord>,
    t: u128,
)
    requires
        sum_prices(rows) <= u128::MAX,
        scan_usage_logs(rows, logs) == LogScan::Total(t),
    ensures
        (t >= required_total_capped(rows)) <==> (ledger_paid(rows, logs) >= sum_prices(rows)),
{
    lemma_scan_total_value(rows, logs, t);
}

/// A receipt that reports failure status never verifies: the verdict is
/// false whatever the logs say.
pub proof fn lemma_failed_receipt_rejected(
    rows: Seq<AgentDb>,
    receipt: Receipt,
    expected_contract: Seq<u8>,
)
    requires
        !receipt.status,
    ensures
        payment_verdict(rows, receipt, expected_contract) == Ok::<bool, VerifyError>(false),
{
}

/// Per-agent sufficiency is a floor, not a suggestion: if any usage event
/// pays its matched record less than that record's price, the verdict is
/// never true — even when the amounts in aggregate would cover the total.
pub proof fn lemma_underpaid_never_verifies(
    rows: Seq<AgentDb>,
    receipt: Receipt,
    expected_contract: Seq<u8>,
    k: int,
)
    requires
        0 <= k < receipt.logs@.len(),
        usage_log_matches(receipt.logs@[k]),
        be_val(receipt.logs@[k].topics@[1]@) <= i64::MAX,
        first_with_nft(rows, be_val(receipt.logs@[k].topics@[1]@) as i64) matches Some(rec)
            && usage_amount_of(receipt.logs@[k].data@) < rec.price,
    ensures
        payment_verdict(rows, receipt, expected_contract) != Ok::<bool, VerifyError>(true),
{
    let logs = receipt.logs@;
    let pre = scan_usage_logs(rows, logs.subrange(0, k));
    assert(logs.subrange(0, k + 1).drop_last() =~= logs.subrange(0, k));
    assert(logs.subrange(0, k + 1).last() == logs[k]);
    if pre is Total {
        assert(!(scan_usage_logs(rows, logs.subrange(0, k + 1)) is Total));
        lemma_scan_sticky(rows, logs, k + 1);
    } else {
        lemma_scan_sticky(rows, logs, k);
    }
}

} // verus!
