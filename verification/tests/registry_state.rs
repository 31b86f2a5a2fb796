use enclava::category::AgentCategory;
use enclava::config::AppConfig;
use enclava::records::AgentDb;
use enclava::registry::{
    build_agent_instruction, init_ai_agent_with_dataset, load_db_agents, AgentHandle,
    AgentRegistry,
};
use enclava::state::AppState;
use enclava::types::{
    compute_stats, filter_agents_by_ids, plan_agent_query, validate_answer_request,
    validate_upload_fields, AgentQueryParams, AgentQueryResult, AnswerRequestError,
    GetResponseFromAgentsRequest, QueryPlanError, SortField, SortOrder, UploadFieldError,
};

fn record(id: i64, price: u128, size: u64) -> AgentDb {
    AgentDb {
        id,
        name: format!("agent-{}", id),
        description: "facts".to_string(),
        price,
        owner_id: 1,
        owner_address: "0xowner".to_string(),
        dataset_path: format!("{}.csv", id),
        category: AgentCategory::IoT,
        dataset_size: size,
        nft_id: None,
        nft_tx: None,
        status: "active".to_string(),
        created_at: 0,
        updated_at: 0,
    }
}

#[test]
fn registry_put_and_get() {
    let mut reg = AgentRegistry::new();
    assert!(reg.get(1).is_none());
    reg.put(
        1,
        AgentHandle { agent_id: 1, name: "a".to_string(), instruction: "i".to_string() },
    );
    let h = reg.get(1).unwrap();
    assert_eq!(h.agent_id, 1);
    assert_eq!(h.instruction, "i");
    assert!(reg.get(2).is_none());
}

#[test]
fn instruction_binds_record_metadata_and_content() {
    let rec = record(4, 10, 100);
    let content = "h1,h2\n1,2\n".to_string();
    let instruction = build_agent_instruction(&rec, &content);
    let expected = format!(
        "You are an AI agent ({}) who is responsible for answering questions about the csv dataset added to you (it is your only context). Do not use any other knowledge source to answer questions. Return only the answer. PLease Do not reveal any personal information about specific user like its email, name, phone number, etc. The Dataset description is {}. The Dataset Category is {}. The Dataset csv : {}",
        rec.name, rec.description, "IoT", content
    );
    assert_eq!(instruction, expected);
}

#[test]
fn upload_registers_the_new_agent() {
    let mut reg = AgentRegistry::new();
    let rec = record(9, 10, 100);
    let content = "a,b\n".to_string();
    init_ai_agent_with_dataset(&mut reg, &rec, &content);
    let h = reg.get(9).unwrap();
    assert_eq!(h.name, rec.name);
    assert_eq!(h.instruction, build_agent_instruction(&rec, &content));
}

#[test]
fn startup_loads_every_record() {
    let records = vec![record(1, 10, 100), record(2, 5, 50)];
    let contents = vec!["x\n".to_string(), "y\n".to_string()];
    let reg = load_db_agents(&records, &contents);
    assert!(reg.get(1).is_some());
    assert!(reg.get(2).is_some());
    assert!(reg.get(3).is_none());
    assert_eq!(
        reg.get(2).unwrap().instruction,
        build_agent_instruction(&records[1], &contents[1])
    );
}

#[test]
fn fresh_state_is_empty() {
    let state = AppState::new();
    assert!(state.tee_agents.get(1).is_none());
    assert!(!state.handled_txs.contains(&"0x1".to_string()));
}

fn answer_request(ids: Vec<i64>, prompt: &str, tx: &str) -> GetResponseFromAgentsRequest {
    GetResponseFromAgentsRequest {
        agent_ids: ids,
        prompt: prompt.to_string(),
        tx_hash: tx.to_string(),
    }
}

#[test]
fn answer_request_validation_order() {
    assert_eq!(
        validate_answer_request(&answer_request(vec![], "", "")),
        Err(AnswerRequestError::NoTxHash)
    );
    assert_eq!(
        validate_answer_request(&answer_request(vec![], "", "0x1")),
        Err(AnswerRequestError::NoPrompt)
    );
    assert_eq!(
        validate_answer_request(&answer_request(vec![], "hi", "0x1")),
        Err(AnswerRequestError::NoAgents)
    );
    assert_eq!(
        validate_answer_request(&answer_request(vec![1, 2, 3, 4], "hi", "0x1")),
        Err(AnswerRequestError::TooManyAgents)
    );
    assert_eq!(
        validate_answer_request(&answer_request(vec![1, 2, 3], "hi", "0x1")),
        Ok(())
    );
}

#[test]
fn upload_field_validation_order() {
    let addr = Some("0xabc".to_string());
    let desc = Some("d".to_string());
    let name = Some("n".to_string());
    let cat = Some(AgentCategory::Gaming);
    assert!(matches!(
        validate_upload_fields(false, 0, None, None, None, None, None),
        Err(UploadFieldError::NoFileFound)
    ));
    assert!(matches!(
        validate_upload_fields(true, 10 * 1024 * 1024 + 1, addr.clone(), Some(10), desc.clone(), name.clone(), cat),
        Err(UploadFieldError::FileTooLarge)
    ));
    assert!(matches!(
        validate_upload_fields(true, 100, None, Some(10), desc.clone(), name.clone(), cat),
        Err(UploadFieldError::MissingUserAddress)
    ));
    assert!(matches!(
        validate_upload_fields(true, 100, addr.clone(), None, desc.clone(), name.clone(), cat),
        Err(UploadFieldError::MissingDatasetPrice)
    ));
    assert!(matches!(
        validate_upload_fields(true, 100, addr.clone(), Some(10), None, name.clone(), cat),
        Err(UploadFieldError::MissingDescription)
    ));
    assert!(matches!(
        validate_upload_fields(true, 100, addr.clone(), Some(10), desc.clone(), None, cat),
        Err(UploadFieldError::MissingName)
    ));
    assert!(matches!(
        validate_upload_fields(true, 100, addr.clone(), Some(10), desc.clone(), name.clone(), None),
        Err(UploadFieldError::MissingCategory)
    ));
    // The cap itself is allowed; one byte past it is not.
    assert!(validate_upload_fields(
        true,
        10 * 1024 * 1024,
        addr.clone(),
        Some(10),
        desc.clone(),
        name.clone(),
        cat
    )
    .is_ok());
    let meta = validate_upload_fields(true, 100, addr, Some(10), desc, name, cat).unwrap();
    assert_eq!(meta.user_address, "0xabc");
    assert_eq!(meta.dataset_price, 10);
    assert_eq!(meta.category, AgentCategory::Gaming);
}

fn params(
    search: Option<&str>,
    category: Option<&str>,
    status: Option<&str>,
    sort_by: Option<&str>,
    sort_order: Option<&str>,
) -> AgentQueryParams {
    AgentQueryParams {
        search: search.map(|s| s.to_string()),
        category: category.map(|s| s.to_string()),
        status: status.map(|s| s.to_string()),
        sort_by: sort_by.map(|s| s.to_string()),
        sort_order: sort_order.map(|s| s.to_string()),
    }
}

#[test]
fn query_plan_defaults_and_validation() {
    let plan = plan_agent_query(&params(None, None, None, None, None)).unwrap();
    assert_eq!(plan.sort_by, SortField::CreatedAt);
    assert_eq!(plan.sort_order, SortOrder::Asc);
    assert!(plan.search.is_none());

    let plan =
        plan_agent_query(&params(Some("iot"), Some("IoT"), Some("  "), Some("price"), Some("DESC")))
            .unwrap();
    assert_eq!(plan.sort_by, SortField::Price);
    assert_eq!(plan.sort_order, SortOrder::Desc);
    assert_eq!(plan.search.as_deref(), Some("iot"));
    assert_eq!(plan.category.as_deref(), Some("IoT"));
    assert!(plan.status.is_none());

    assert!(matches!(
        plan_agent_query(&params(None, None, None, Some("owner"), None)),
        Err(QueryPlanError::InvalidSortField)
    ));
    assert!(matches!(
        plan_agent_query(&params(None, None, None, Some("name"), Some("upwards"))),
        Err(QueryPlanError::InvalidSortOrder)
    ));
}

#[test]
fn stats_aggregate_counts_prices_and_sizes() {
    let stats = compute_stats(&vec![record(1, 10, 100), record(2, 5, 50)]);
    assert!(stats.success);
    assert_eq!(stats.total_count, 2);
    assert_eq!(stats.total_price, 15);
    assert_eq!(stats.total_size, 150);
    let empty = compute_stats(&vec![]);
    assert_eq!(empty.total_count, 0);
    assert_eq!(empty.total_price, 0);
}

#[test]
fn filtering_agents_keeps_table_order() {
    let agents = vec![record(1, 10, 1), record(2, 5, 1), record(3, 7, 1)];
    let picked = filter_agents_by_ids(&agents, &vec![3, 1]);
    let ids: Vec<i64> = picked.iter().map(|r| r.id).collect();
    assert_eq!(ids, vec![1, 3]);
    assert!(filter_agents_by_ids(&agents, &vec![]).is_empty());
}

#[test]
fn query_result_maps_to_record() {
    let row = AgentQueryResult {
        id: 3,
        name: "n".to_string(),
        description: "d".to_string(),
        price: 9,
        owner_id: 4,
        address: "0xowner".to_string(),
        dataset_path: "p.csv".to_string(),
        category: AgentCategory::Web3,
        dataset_size: 12,
        status: "active".to_string(),
        created_at: 1,
        updated_at: 2,
        nft_id: Some(8),
        nft_tx: Some("0xt".to_string()),
    };
    let rec = row.to_agent_db();
    assert_eq!(rec.id, 3);
    assert_eq!(rec.owner_address, "0xowner");
    assert_eq!(rec.nft_id, Some(8));
    assert_eq!(rec.nft_tx.as_deref(), Some("0xt"));
}

#[test]
fn config_assembles_from_parts() {
    let cfg = AppConfig::from_parts(
        "postgres://localhost/db".to_string(),
        "https://eth.example/v2/key".to_string(),
        8080,
    );
    assert_eq!(cfg.alchemy_ws_url, "wss://eth.example/v2/key");
    assert_eq!(cfg.port, 8080);
}
