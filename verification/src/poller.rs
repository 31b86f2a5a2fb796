//! The mint-event poller's cursor logic.
//!
//! The poller runs indefinitely on a fixed interval against an
//! eventually-consistent ledger. Each cycle reads the current block height,
//! queries the contract's logs from the cursor — inclusive, so consecutive
//! ranges overlap by one block on purpose: a little duplicate delivery is
//! traded for never missing a boundary block — decodes what matches the
//! mint-event shape, dispatches each decoded event without waiting on its
//! reconciliation, and advances the cursor. A failed cycle leaves the
//! cursor where it was and is simply retried on the next tick.
//!
//! Everything the loop decides is here and verified; the surrounding
//! process (the RPC calls, the sleep, the task spawning) only feeds it.

use vstd::prelude::*;

use crate::abi::{decode_mint_event, mint_event_of, mint_log_matches, LogRecord};
use crate::reconcile::DatasetNFTMint;

verus! {

/// The positions of the logs that decode as mint events, in order.
pub open spec fn mint_log_indices(logs: Seq<LogRecord>) -> Seq<int>
    decreases logs.len(),
{
    if logs.len() == 0 {
        Seq::empty()
    } else if mint_log_matches(logs.last()) {
        mint_log_indices(logs.drop_last()).push(logs.len() - 1)
    } else {
        mint_log_indices(logs.drop_last())
    }
}

/// The poller's state between cycles: the block-cursor, initialized to the
/// ledger's height at startup.
pub struct MintEventPoller {
    pub last_block: u64,
}

impl MintEventPoller {
    /// A poller whose cursor starts at the ledger's current height.
    pub fn new(current_block: u64) -> (r: MintEventPoller)
        ensures
            r.last_block == current_block,
    {
        MintEventPoller { last_block: current_block }
    }

    /// Decides one cycle's log query: query from the cursor (inclusive)
    /// exactly when the ledger has not moved backwards, otherwise skip the
    /// cycle.
    pub fn poll_range(&self, current_block: u64) -> (r: Option<u64>)
        ensures
            current_block >= self.last_block ==> r == Some(self.last_block),
            current_block < self.last_block ==> r is None,
    {
        if current_block >= self.last_block {
            Some(self.last_block)
        } else {
            None
        }
    }

    /// Consumes one cycle's fetched logs: decodes every log that has the
    /// mint-event shape — in log order, one event per matching log, logs of
    /// any other shape silently skipped — and advances the cursor to the
    /// height the cycle saw.
    pub fn ingest_logs(&mut self, current_block: u64, logs: &Vec<LogRecord>) -> (events: Vec<
        DatasetNFTMint,
    >)
        ensures
            final(self).last_block == current_block,
            events@.len() == mint_log_indices(logs@).len(),
            forall|k: int|
                0 <= k < events@.len() ==> mint_event_of(
                    #[trigger] events@[k],
                    logs@[mint_log_indices(logs@)[k]],
                ),
    {
        let n = logs.len();
        let mut events: Vec<DatasetNFTMint> = Vec::new();
        let mut i: usize = 0;
        while i < n
            invariant
                0 <= i <= n,
                n == logs@.len(),
                events@.len() == mint_log_indices(logs@.subrange(0, i as int)).len(),
                forall|k: int|
                    0 <= k < events@.len() ==> mint_event_of(
                        #[trigger] events@[k],
                        logs@[mint_log_indices(logs@.subrange(0, i as int))[k]],
                    ),
                forall|k: int|
                    0 <= k < mint_log_indices(logs@.subrange(0, i as int)).len() ==> 0 <= (
                    #[trigger] mint_log_indices(logs@.subrange(0, i as int))[k]) < i,
            decreases n - i,
        {
            let ghost prefix = logs@.subrange(0, i as int);
            proof {
                assert(logs@.subrange(0, i + 1).drop_last() =~= prefix);
                assert(logs@.subrange(0, i + 1).last() == logs@[i as int]);
            }
            match decode_mint_event(&logs[i]) {
                Option::Some(ev) => {
                    events.push(ev);
                },
                Option::None => {},
            }
            i = i + 1;
        }
        proof {
            assert(logs@.subrange(0, n as int) =~= logs@);
        }
        self.last_block = current_block;
        events
    }
}

} // verus!
