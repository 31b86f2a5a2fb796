use enclava::abi::{mint_event_topic, usage_event_topic, LogRecord};
use enclava::category::AgentCategory;
use enclava::poller::MintEventPoller;
use enclava::reconcile::{DatasetNFTMint, ReconcileError};
use enclava::records::{AgentDb, RecordTable, StoreError, UserTable};

fn record(id: i64, price: u128, owner_address: &str, nft_id: Option<i64>) -> AgentDb {
    AgentDb {
        id,
        name: format!("agent-{}", id),
        description: "a dataset".to_string(),
        price,
        owner_id: 1,
        owner_address: owner_address.to_string(),
        dataset_path: format!("{}.csv", id),
        category: AgentCategory::Analytics,
        dataset_size: 100,
        nft_id,
        nft_tx: None,
        status: "active".to_string(),
        created_at: 0,
        updated_at: 0,
    }
}

fn mint_event(owner: &str, token_id: i64, dataset_id: &str) -> DatasetNFTMint {
    DatasetNFTMint {
        to: owner.to_string(),
        token_id,
        dataset_id: dataset_id.to_string(),
        tx_hash: Some("0xfeed".to_string()),
    }
}

#[test]
fn mint_applies_once_then_already_minted() {
    let owner = "0x5aAeb6053F3E94C9b9A09f33669435E7Ef1BeAed".to_string();
    let mut table = RecordTable { rows: vec![record(7, 10, &owner, None)] };
    let ev = mint_event(&owner, 99, "7");

    assert!(table.handle_new_nft_mint(&ev).is_ok());
    assert_eq!(table.rows[0].nft_id, Some(99));
    assert_eq!(table.rows[0].nft_tx.as_deref(), Some("0xfeed"));

    // The identical event a second time is a no-op error.
    let before: Vec<(i64, Option<i64>)> = table.rows.iter().map(|r| (r.id, r.nft_id)).collect();
    assert_eq!(
        table.handle_new_nft_mint(&ev),
        Err(ReconcileError::AlreadyMinted)
    );
    let after: Vec<(i64, Option<i64>)> = table.rows.iter().map(|r| (r.id, r.nft_id)).collect();
    assert_eq!(before, after);
}

#[test]
fn mint_for_unknown_dataset_is_not_found() {
    let owner = "0x5aAeb6053F3E94C9b9A09f33669435E7Ef1BeAed".to_string();
    let mut table = RecordTable { rows: vec![record(7, 10, &owner, None)] };
    let ev = mint_event(&owner, 99, "8");
    assert_eq!(
        table.handle_new_nft_mint(&ev),
        Err(ReconcileError::NotFound)
    );
    assert_eq!(table.rows[0].nft_id, None);
}

#[test]
fn mint_to_wrong_address_is_rejected() {
    let owner = "0x5aAeb6053F3E94C9b9A09f33669435E7Ef1BeAed".to_string();
    let other = "0xfB6916095ca1df60bB79Ce92cE3Ea74c37c5d359".to_string();
    let mut table = RecordTable { rows: vec![record(7, 10, &owner, None)] };
    let ev = mint_event(&other, 99, "7");
    assert_eq!(
        table.handle_new_nft_mint(&ev),
        Err(ReconcileError::AddressMismatch)
    );
    assert_eq!(table.rows[0].nft_id, None);
}

#[test]
fn mint_with_unparsable_dataset_id_is_rejected() {
    let owner = "0x5aAeb6053F3E94C9b9A09f33669435E7Ef1BeAed".to_string();
    let mut table = RecordTable { rows: vec![record(7, 10, &owner, None)] };
    let ev = mint_event(&owner, 99, "seven");
    assert_eq!(
        table.handle_new_nft_mint(&ev),
        Err(ReconcileError::InvalidDatasetId)
    );
}

fn word(v: u64) -> Vec<u8> {
    let mut b = vec![0u8; 32];
    b[24..].copy_from_slice(&v.to_be_bytes());
    b
}

fn address_topic(addr: &[u8]) -> Vec<u8> {
    let mut b = vec![0u8; 32];
    b[12..].copy_from_slice(addr);
    b
}

fn mint_log(addr: &[u8], token: u64, dataset_id: &str) -> LogRecord {
    let mut data = word(32);
    data.extend_from_slice(&word(dataset_id.len() as u64));
    data.extend_from_slice(dataset_id.as_bytes());
    LogRecord {
        topics: vec![mint_event_topic(), address_topic(addr), word(token)],
        data,
        tx_hash: Some("0xcafe".to_string()),
    }
}

#[test]
fn poller_cycle_dispatches_one_event_per_matching_log() {
    // Cursor at block 100; the ledger reaches 105 with one matching log.
    let mut poller = MintEventPoller::new(100);
    assert_eq!(poller.poll_range(105), Some(100));

    let addr = [0x5au8; 20];
    let unrelated = LogRecord {
        topics: vec![usage_event_topic(), word(1), address_topic(&addr)],
        data: word(10),
        tx_hash: None,
    };
    let logs = vec![unrelated, mint_log(&addr, 99, "7")];
    let events = poller.ingest_logs(105, &logs);
    assert_eq!(events.len(), 1);
    assert_eq!(events[0].token_id, 99);
    assert_eq!(events[0].dataset_id, "7");
    assert_eq!(events[0].to.to_lowercase(), format!("0x{}", "5a".repeat(20)));
    assert_eq!(poller.last_block, 105);
}

#[test]
fn poller_skips_cycle_when_height_regressed() {
    let poller = MintEventPoller::new(100);
    assert_eq!(poller.poll_range(99), None);
}

#[test]
fn user_insert_is_lazy_and_idempotent() {
    let mut users = UserTable::new();
    let addr = "0xabc".to_string();
    assert!(users.get_user_by_address(&addr).is_none());
    users.insert_user(&addr);
    let id = users.get_user_by_address(&addr).unwrap().id;
    users.insert_user(&addr);
    assert_eq!(users.rows.len(), 1);
    assert_eq!(users.get_user_by_address(&addr).unwrap().id, id);
}

#[test]
fn nft_details_update_touches_exactly_one_row() {
    let owner = "0x5aAeb6053F3E94C9b9A09f33669435E7Ef1BeAed".to_string();
    let mut table = RecordTable {
        rows: vec![record(1, 10, &owner, None), record(2, 5, &owner, None)],
    };
    assert!(table
        .update_agent_with_nft_details(2, 44, Some("0xbeef".to_string()))
        .is_ok());
    assert_eq!(table.rows[0].nft_id, None);
    assert_eq!(table.rows[1].nft_id, Some(44));
    assert_eq!(table.rows[1].nft_tx.as_deref(), Some("0xbeef"));
    assert!(matches!(
        table.update_agent_with_nft_details(9, 44, None),
        Err(StoreError::RowNotFound)
    ));
}

#[test]
fn record_table_lookup_and_selection() {
    let owner_a = "0xownerA".to_string();
    let owner_b = "0xownerB".to_string();
    let table = RecordTable {
        rows: vec![
            record(1, 10, &owner_a, Some(11)),
            record(2, 5, &owner_b, Some(22)),
            record(3, 7, &owner_a, None),
        ],
    };
    assert!(table.get_agent_by_id_optional(4).is_none());
    assert_eq!(table.get_agent_by_id_optional(2).unwrap().price, 5);

    let picked = table.get_agents_by_ids(&vec![3, 1]);
    let ids: Vec<i64> = picked.iter().map(|r| r.id).collect();
    assert_eq!(ids, vec![1, 3]);

    let owned = table.get_agents_by_user_address(&owner_a);
    let ids: Vec<i64> = owned.iter().map(|r| r.id).collect();
    assert_eq!(ids, vec![1, 3]);
}
