use std::collections::HashMap;

use strata_mcp::output::{
    BranchDiffResult, DatabaseInfo, DiffSummary, EmbedInfo, ForkInfo, MergeInfo, SearchResult,
};
use strata_mcp::output_to_json;
use strata_mcp::{
    resume, Action, Command, Json, McpError, McpSession, Output, Pending, Step, StoreFault,
    ToolRegistry, Value, VersionedValue,
};

fn clone_value(v: &Value) -> Value {
    match v {
        Value::Null => Value::Null,
        Value::Bool(b) => Value::Bool(*b),
        Value::Int(i) => Value::Int(*i),
        Value::Float(bits) => Value::Float(*bits),
        Value::Str(s) => Value::Str(s.clone()),
        Value::Arr(items) => Value::Arr(items.iter().map(clone_value).collect()),
        Value::Obj(fields) => {
            Value::Obj(fields.iter().map(|(k, x)| (k.clone(), clone_value(x))).collect())
        }
    }
}

/// An in-memory reference store: versioned documents per (branch, space,
/// key), deletions kept as tombstones, branches as a name list.
struct MockStore {
    docs: HashMap<(String, String, String), Vec<(Value, u64, u64, bool)>>,
    branches: Vec<String>,
    clock: u64,
    event_seq: u64,
    writes: u64,
}

impl MockStore {
    fn new() -> MockStore {
        MockStore {
            docs: HashMap::new(),
            branches: vec!["default".to_string()],
            clock: 1000,
            event_seq: 0,
            writes: 0,
        }
    }

    fn slot(branch: &Option<String>, space: &Option<String>, key: &str) -> (String, String, String) {
        (
            branch.clone().unwrap_or_else(|| "default".to_string()),
            space.clone().unwrap_or_else(|| "default".to_string()),
            key.to_string(),
        )
    }

    fn perform(&mut self, action: &Action) -> Result<Output, StoreFault> {
        match action {
            Action::Execute(cmd) => self.execute(cmd),
            Action::BranchFork { source, destination } => {
                self.writes += 1;
                self.branches.push(destination.clone());
                Ok(Output::BranchForked(ForkInfo {
                    source: source.clone(),
                    destination: destination.clone(),
                    keys_copied: self.docs.len() as u64,
                }))
            }
            Action::BranchDiff { branch_a, branch_b } => Ok(Output::BranchDiff(BranchDiffResult {
                branch_a: branch_a.clone(),
                branch_b: branch_b.clone(),
                summary: DiffSummary { total_added: 0, total_removed: 0, total_modified: 0 },
            })),
            Action::BranchMerge { .. } => {
                self.writes += 1;
                Ok(Output::BranchMerged(MergeInfo {
                    keys_applied: 0,
                    spaces_merged: 1,
                    conflicts: vec![],
                }))
            }
        }
    }

    fn execute(&mut self, cmd: &Command) -> Result<Output, StoreFault> {
        match cmd {
            Command::JsonSet { branch, space, key, value, .. } => {
                self.writes += 1;
                self.clock += 1;
                let slot = Self::slot(branch, space, key);
                let entries = self.docs.entry(slot).or_default();
                let version = entries.len() as u64 + 1;
                entries.push((clone_value(value), version, self.clock, false));
                Ok(Output::Version(version))
            }
            Command::JsonGet { branch, space, key, .. } => {
                let slot = Self::slot(branch, space, key);
                match self.docs.get(&slot).and_then(|entries| entries.last()) {
                    Some((value, version, timestamp, deleted)) if !deleted => {
                        Ok(Output::MaybeVersioned(Some(VersionedValue {
                            value: clone_value(value),
                            version: *version,
                            timestamp: *timestamp,
                        })))
                    }
                    _ => Ok(Output::MaybeVersioned(None)),
                }
            }
            Command::JsonDelete { branch, space, key, .. } => {
                self.writes += 1;
                let slot = Self::slot(branch, space, key);
                match self.docs.get_mut(&slot) {
                    Some(entries) if entries.last().is_some_and(|e| !e.3) => {
                        self.clock += 1;
                        let version = entries.len() as u64 + 1;
                        entries.push((Value::Null, version, self.clock, true));
                        Ok(Output::Uint(1))
                    }
                    _ => Ok(Output::Uint(0)),
                }
            }
            Command::JsonGetv { branch, space, key, .. } => {
                let slot = Self::slot(branch, space, key);
                match self.docs.get(&slot) {
                    Some(entries) => Ok(Output::VersionHistory(Some(
                        entries
                            .iter()
                            .filter(|e| !e.3)
                            .map(|(value, version, timestamp, _)| VersionedValue {
                                value: clone_value(value),
                                version: *version,
                                timestamp: *timestamp,
                            })
                            .collect(),
                    ))),
                    None => Ok(Output::VersionHistory(None)),
                }
            }
            Command::EventAppend { .. } => {
                self.writes += 1;
                self.event_seq += 1;
                Ok(Output::Version(self.event_seq))
            }
            Command::BranchExists { branch } => {
                Ok(Output::Bool(self.branches.iter().any(|b| b == branch)))
            }
            Command::BranchCreate { branch_id } => {
                self.writes += 1;
                let name = branch_id.clone().unwrap_or_else(|| "unnamed".to_string());
                self.branches.push(name);
                Ok(Output::Unit)
            }
            Command::TimeRange { .. } => Ok(Output::TimeRange {
                oldest_ts: Some(1001),
                latest_ts: Some(self.clock),
            }),
            Command::Info => Ok(Output::DatabaseInfo(DatabaseInfo {
                version: "1.0".to_string(),
                uptime_secs: 5,
                branch_count: self.branches.len() as u64,
                total_keys: self.docs.len() as u64,
            })),
            Command::EmbedStatus => Ok(Output::EmbedStatus(EmbedInfo {
                auto_embed: true,
                batch_size: 8,
                pending: 0,
                total_queued: 0,
                total_embedded: 0,
                total_failed: 0,
                scheduler_queue_depth: 0,
                scheduler_active_tasks: 0,
            })),
            Command::Search { query, .. } => Ok(Output::SearchResults(vec![SearchResult {
                entity: "a".to_string(),
                primitive: "json".to_string(),
                score: (0.75f64).to_bits(),
                rank: 1,
                snippet: query.clone(),
            }])),
            Command::DurabilityCounters => {
                Ok(Output::DurabilityCounters(strata_mcp::output::DurabilityCounters {
                    wal_appends: 3,
                    sync_calls: 2,
                    bytes_written: 64,
                    sync_nanos: 9,
                }))
            }
            _ => Err(StoreFault {
                code: "UNSUPPORTED".to_string(),
                message: "not backed here".to_string(),
            }),
        }
    }
}

fn run_tool(
    reg: &ToolRegistry,
    sess: &mut McpSession,
    store: &mut MockStore,
    name: &str,
    args: Vec<(String, Json)>,
) -> Result<Json, McpError> {
    let mut step = reg.dispatch(sess, name, &args);
    loop {
        match step {
            Step::Reply(r) => return r,
            Step::Store { action, pending } => {
                let reply = store.perform(&action);
                step = resume(sess, pending, reply);
            }
        }
    }
}

fn str_arg(name: &str, value: &str) -> (String, Json) {
    (name.to_string(), Json::Str(value.to_string()))
}

fn obj_x1() -> Json {
    Json::Obj(vec![("x".to_string(), Json::Int(1))])
}

#[test]
fn store_recall_forget_scenario() {
    let reg = ToolRegistry::new();
    let mut sess = McpSession::new(false);
    let mut store = MockStore::new();

    let stored = run_tool(
        &reg,
        &mut sess,
        &mut store,
        "strata_store",
        vec![str_arg("key", "a"), ("value".to_string(), obj_x1())],
    )
    .unwrap();
    assert_eq!(
        stored,
        Json::Obj(vec![
            ("key".to_string(), Json::Str("a".to_string())),
            ("version".to_string(), Json::Int(1)),
            ("stored".to_string(), Json::Bool(true)),
        ])
    );

    let recalled =
        run_tool(&reg, &mut sess, &mut store, "strata_recall", vec![str_arg("key", "a")]).unwrap();
    assert_eq!(
        recalled,
        Json::Obj(vec![
            ("value".to_string(), obj_x1()),
            ("version".to_string(), Json::Int(1)),
            ("timestamp".to_string(), Json::Int(1001)),
        ])
    );

    let forgotten =
        run_tool(&reg, &mut sess, &mut store, "strata_forget", vec![str_arg("key", "a")]).unwrap();
    assert_eq!(forgotten, Json::Obj(vec![("deleted".to_string(), Json::Bool(true))]));

    let gone =
        run_tool(&reg, &mut sess, &mut store, "strata_recall", vec![str_arg("key", "a")]).unwrap();
    assert_eq!(gone, Json::Null);
}

#[test]
fn storing_twice_increases_the_version() {
    let reg = ToolRegistry::new();
    let mut sess = McpSession::new(false);
    let mut store = MockStore::new();
    let first = run_tool(
        &reg,
        &mut sess,
        &mut store,
        "strata_store",
        vec![str_arg("key", "a"), ("value".to_string(), Json::Int(1))],
    )
    .unwrap();
    let second = run_tool(
        &reg,
        &mut sess,
        &mut store,
        "strata_store",
        vec![str_arg("key", "a"), ("value".to_string(), Json::Int(2))],
    )
    .unwrap();
    let version_of = |j: &Json| -> i64 {
        match j {
            Json::Obj(fields) => match fields.iter().find(|(k, _)| k == "version") {
                Some((_, Json::Int(v))) => *v,
                _ => panic!("no version field in {:?}", j),
            },
            _ => panic!("not an object: {:?}", j),
        }
    };
    assert_eq!(version_of(&first), 1);
    assert_eq!(version_of(&second), 2);
    assert!(version_of(&second) > version_of(&first));
}

#[test]
fn recall_is_idempotent_without_writes() {
    let reg = ToolRegistry::new();
    let mut sess = McpSession::new(false);
    let mut store = MockStore::new();
    run_tool(
        &reg,
        &mut sess,
        &mut store,
        "strata_store",
        vec![str_arg("key", "a"), ("value".to_string(), obj_x1())],
    )
    .unwrap();
    let one =
        run_tool(&reg, &mut sess, &mut store, "strata_recall", vec![str_arg("key", "a")]).unwrap();
    let two =
        run_tool(&reg, &mut sess, &mut store, "strata_recall", vec![str_arg("key", "a")]).unwrap();
    assert_eq!(one, two);
}

#[test]
fn deletion_semantics_and_history() {
    let reg = ToolRegistry::new();
    let mut sess = McpSession::new(false);
    let mut store = MockStore::new();

    let missing =
        run_tool(&reg, &mut sess, &mut store, "strata_forget", vec![str_arg("key", "nope")])
            .unwrap();
    assert_eq!(missing, Json::Obj(vec![("deleted".to_string(), Json::Bool(false))]));

    run_tool(
        &reg,
        &mut sess,
        &mut store,
        "strata_store",
        vec![str_arg("key", "a"), ("value".to_string(), obj_x1())],
    )
    .unwrap();
    let deleted =
        run_tool(&reg, &mut sess, &mut store, "strata_forget", vec![str_arg("key", "a")]).unwrap();
    assert_eq!(deleted, Json::Obj(vec![("deleted".to_string(), Json::Bool(true))]));

    let history =
        run_tool(&reg, &mut sess, &mut store, "strata_history", vec![str_arg("key", "a")]).unwrap();
    match &history {
        Json::Arr(items) => {
            assert_eq!(items.len(), 1);
            match &items[0] {
                Json::Obj(fields) => {
                    assert!(fields.iter().any(|(k, v)| k == "version" && *v == Json::Int(1)));
                    assert!(fields.iter().any(|(k, v)| k == "value" && *v == obj_x1()));
                }
                other => panic!("expected an object, got {:?}", other),
            }
        }
        other => panic!("expected an array, got {:?}", other),
    }
}

#[test]
fn read_only_sessions_refuse_every_write_tool() {
    let reg = ToolRegistry::new();
    let mut rw = McpSession::new(false);
    let mut store = MockStore::new();
    run_tool(
        &reg,
        &mut rw,
        &mut store,
        "strata_store",
        vec![str_arg("key", "a"), ("value".to_string(), Json::Int(7))],
    )
    .unwrap();
    let before =
        run_tool(&reg, &mut rw, &mut store, "strata_recall", vec![str_arg("key", "a")]).unwrap();
    let writes_before = store.writes;

    let mut ro = McpSession::new(true);
    let write_calls: Vec<(&str, Vec<(String, Json)>)> = vec![
        ("strata_store", vec![str_arg("key", "a"), ("value".to_string(), Json::Int(9))]),
        ("strata_forget", vec![str_arg("key", "a")]),
        ("strata_log", vec![str_arg("event", "e"), ("data".to_string(), Json::Int(1))]),
        ("strata_branch", vec![str_arg("action", "create"), str_arg("name", "b")]),
        ("strata_branch", vec![str_arg("action", "fork"), str_arg("name", "b")]),
        ("strata_branch", vec![str_arg("action", "merge"), str_arg("source", "b")]),
        ("strata_branch", vec![str_arg("action", "delete"), str_arg("name", "b")]),
    ];
    for (name, args) in write_calls {
        match run_tool(&reg, &mut ro, &mut store, name, args) {
            Err(McpError::AccessDenied(_)) => {}
            other => panic!("{} on a read-only store gave {:?}", name, other),
        }
    }
    let dev = ToolRegistry::developer();
    let dev_write_calls: Vec<(&str, Vec<(String, Json)>)> = vec![
        ("strata_retention_apply", vec![]),
        ("strata_models_pull", vec![str_arg("name", "m")]),
    ];
    for (name, args) in dev_write_calls {
        match run_tool(&dev, &mut ro, &mut store, name, args) {
            Err(McpError::AccessDenied(_)) => {}
            other => panic!("{} on a read-only store gave {:?}", name, other),
        }
    }
    assert_eq!(store.writes, writes_before);

    let after =
        run_tool(&reg, &mut rw, &mut store, "strata_recall", vec![str_arg("key", "a")]).unwrap();
    assert_eq!(before, after);
}

#[test]
fn branch_switch_to_missing_branch_leaves_context() {
    let reg = ToolRegistry::new();
    let mut sess = McpSession::new(false);
    let mut store = MockStore::new();
    match run_tool(
        &reg,
        &mut sess,
        &mut store,
        "strata_branch",
        vec![str_arg("action", "switch"), str_arg("name", "ghost")],
    ) {
        Err(McpError::BranchNotFound(name)) => assert_eq!(name, "ghost"),
        other => panic!("expected branch-not-found, got {:?}", other),
    }
    assert_eq!(sess.branch(), "default");

    run_tool(
        &reg,
        &mut sess,
        &mut store,
        "strata_branch",
        vec![str_arg("action", "create"), str_arg("name", "feature")],
    )
    .unwrap();
    let switched = run_tool(
        &reg,
        &mut sess,
        &mut store,
        "strata_branch",
        vec![str_arg("action", "switch"), str_arg("name", "feature")],
    )
    .unwrap();
    assert_eq!(
        switched,
        Json::Obj(vec![
            ("switched".to_string(), Json::Bool(true)),
            ("branch".to_string(), Json::Str("feature".to_string())),
        ])
    );
    assert_eq!(sess.branch(), "feature");
}

#[test]
fn branch_fork_merge_diff_render_their_results() {
    let reg = ToolRegistry::new();
    let mut sess = McpSession::new(false);
    let mut store = MockStore::new();
    let forked = run_tool(
        &reg,
        &mut sess,
        &mut store,
        "strata_branch",
        vec![str_arg("action", "fork"), str_arg("name", "copy")],
    )
    .unwrap();
    assert_eq!(
        forked,
        Json::Obj(vec![
            ("forked".to_string(), Json::Bool(true)),
            ("source".to_string(), Json::Str("default".to_string())),
            ("destination".to_string(), Json::Str("copy".to_string())),
            ("keys_copied".to_string(), Json::Int(0)),
        ])
    );
    let merged = run_tool(
        &reg,
        &mut sess,
        &mut store,
        "strata_branch",
        vec![str_arg("action", "merge"), str_arg("source", "copy")],
    )
    .unwrap();
    assert_eq!(
        merged,
        Json::Obj(vec![
            ("merged".to_string(), Json::Bool(true)),
            ("keys_applied".to_string(), Json::Int(0)),
            ("spaces_merged".to_string(), Json::Int(1)),
            ("conflicts".to_string(), Json::Arr(vec![])),
        ])
    );
    let diffed = run_tool(
        &reg,
        &mut sess,
        &mut store,
        "strata_branch",
        vec![str_arg("action", "diff"), str_arg("compare", "copy")],
    )
    .unwrap();
    assert_eq!(
        diffed,
        Json::Obj(vec![
            ("current_branch".to_string(), Json::Str("default".to_string())),
            ("compare_branch".to_string(), Json::Str("copy".to_string())),
            ("added".to_string(), Json::Int(0)),
            ("removed".to_string(), Json::Int(0)),
            ("modified".to_string(), Json::Int(0)),
        ])
    );
}

#[test]
fn unknown_branch_action_is_invalid() {
    let reg = ToolRegistry::new();
    let mut sess = McpSession::new(false);
    let mut store = MockStore::new();
    match run_tool(
        &reg,
        &mut sess,
        &mut store,
        "strata_branch",
        vec![str_arg("action", "rebase")],
    ) {
        Err(McpError::InvalidArg { name, reason }) => {
            assert_eq!(name, "action");
            assert_eq!(
                reason,
                "Unknown action 'rebase'. Use: create, switch, list, fork, merge, diff, or delete."
            );
        }
        other => panic!("expected an invalid-argument error, got {:?}", other),
    }
}

#[test]
fn history_without_key_reports_the_time_range() {
    let reg = ToolRegistry::new();
    let mut sess = McpSession::new(false);
    let mut store = MockStore::new();
    run_tool(
        &reg,
        &mut sess,
        &mut store,
        "strata_store",
        vec![str_arg("key", "a"), ("value".to_string(), Json::Int(1))],
    )
    .unwrap();
    let range = run_tool(&reg, &mut sess, &mut store, "strata_history", vec![]).unwrap();
    assert_eq!(
        range,
        Json::Obj(vec![
            ("branch".to_string(), Json::Str("default".to_string())),
            ("oldest".to_string(), Json::Int(1001)),
            ("latest".to_string(), Json::Int(1001)),
        ])
    );
}

#[test]
fn status_merges_database_info_and_embed_flag() {
    let reg = ToolRegistry::new();
    let mut sess = McpSession::new(false);
    let mut store = MockStore::new();
    let status = run_tool(&reg, &mut sess, &mut store, "strata_status", vec![]).unwrap();
    assert_eq!(
        status,
        Json::Obj(vec![
            ("version".to_string(), Json::Str("1.0".to_string())),
            ("branch".to_string(), Json::Str("default".to_string())),
            ("namespace".to_string(), Json::Str("default".to_string())),
            ("branches".to_string(), Json::Int(1)),
            ("keys".to_string(), Json::Int(0)),
            ("uptime_secs".to_string(), Json::Int(5)),
            ("auto_embed".to_string(), Json::Bool(true)),
        ])
    );
}

#[test]
fn search_returns_simplified_items() {
    let reg = ToolRegistry::new();
    let mut sess = McpSession::new(false);
    let mut store = MockStore::new();
    let found = run_tool(
        &reg,
        &mut sess,
        &mut store,
        "strata_search",
        vec![str_arg("query", "notes about x")],
    )
    .unwrap();
    assert_eq!(
        found,
        Json::Arr(vec![Json::Obj(vec![
            ("key".to_string(), Json::Str("a".to_string())),
            ("score".to_string(), Json::Float((0.75f64).to_bits())),
            ("snippet".to_string(), Json::Str("notes about x".to_string())),
        ])])
    );
}

#[test]
fn missing_and_unknown_tool_errors() {
    let reg = ToolRegistry::new();
    let mut sess = McpSession::new(false);
    let mut store = MockStore::new();
    match run_tool(&reg, &mut sess, &mut store, "strata_store", vec![]) {
        Err(McpError::MissingArg(name)) => assert_eq!(name, "key"),
        other => panic!("expected a missing-argument error, got {:?}", other),
    }
    match run_tool(&reg, &mut sess, &mut store, "strata_explode", vec![]) {
        Err(McpError::UnknownTool(name)) => assert_eq!(name, "strata_explode"),
        other => panic!("expected an unknown-tool error, got {:?}", other),
    }
}

#[test]
fn store_faults_surface_as_store_errors() {
    let reg = ToolRegistry::new();
    let mut sess = McpSession::new(false);
    let mut store = MockStore::new();
    // The reference store does not back embedding commands, so the
    // developer registry's embed tool surfaces its fault verbatim.
    let dev = ToolRegistry::developer();
    match run_tool(&dev, &mut sess, &mut store, "strata_embed", vec![str_arg("text", "hi")]) {
        Err(McpError::Store { code, .. }) => assert_eq!(code, "UNSUPPORTED"),
        other => panic!("expected a store error, got {:?}", other),
    }
    // And an in-range tool on the agent registry still works.
    assert!(run_tool(&reg, &mut sess, &mut store, "strata_status", vec![]).is_ok());
}

#[test]
fn unexpected_fork_output_is_an_internal_error() {
    let mut sess = McpSession::new(false);
    let step = resume(&mut sess, Pending::BranchFork, Ok(Output::Bool(true)));
    match step {
        Step::Reply(Err(McpError::Internal(_))) => {}
        other => panic!("expected an internal error, got {:?}", other),
    }
}

#[test]
fn registry_catalogues() {
    let reg = ToolRegistry::new();
    let names: Vec<&str> = reg.tools().iter().map(|t| t.name.as_str()).collect();
    assert_eq!(
        names,
        vec![
            "strata_store",
            "strata_recall",
            "strata_search",
            "strata_forget",
            "strata_log",
            "strata_branch",
            "strata_history",
            "strata_status",
        ]
    );
    for t in reg.tools() {
        assert!(!t.description.is_empty());
        match &t.input_schema {
            Json::Obj(fields) => assert!(fields.iter().any(|(k, _)| k == "type")),
            other => panic!("schema is not an object: {:?}", other),
        }
    }

    let dev = ToolRegistry::developer();
    assert_eq!(dev.tools().len(), 12);
    let dev_names: Vec<&str> = dev.tools().iter().map(|t| t.name.as_str()).collect();
    assert!(dev_names.contains(&"strata_durability_counters"));
    assert!(dev_names.contains(&"strata_embed_batch"));
    assert!(dev_names.contains(&"strata_generate"));
    assert!(dev_names.contains(&"strata_models_pull"));
    assert!(dev_names.contains(&"strata_retention_apply"));
}

#[test]
fn developer_registry_routes_by_prefix() {
    let dev = ToolRegistry::developer();
    let mut sess = McpSession::new(false);
    let mut store = MockStore::new();
    let counters =
        run_tool(&dev, &mut sess, &mut store, "strata_durability_counters", vec![]).unwrap();
    assert_eq!(
        counters,
        Json::Obj(vec![
            ("wal_appends".to_string(), Json::Int(3)),
            ("sync_calls".to_string(), Json::Int(2)),
            ("bytes_written".to_string(), Json::Int(64)),
            ("sync_nanos".to_string(), Json::Int(9)),
        ])
    );
    match run_tool(&dev, &mut sess, &mut store, "strata_kv_get", vec![]) {
        Err(McpError::UnknownTool(name)) => assert_eq!(name, "strata_kv_get"),
        other => panic!("expected an unknown-tool error, got {:?}", other),
    }
    // A known prefix with an unknown suffix is refused by the owning module.
    match run_tool(&dev, &mut sess, &mut store, "strata_models_push", vec![]) {
        Err(McpError::UnknownTool(name)) => assert_eq!(name, "strata_models_push"),
        other => panic!("expected an unknown-tool error, got {:?}", other),
    }
}

#[test]
fn output_shapes_for_representative_variants() {
    assert_eq!(output_to_json(Output::Unit), Json::Null);
    assert_eq!(output_to_json(Output::Bool(true)), Json::Bool(true));
    assert_eq!(output_to_json(Output::Uint(4)), Json::Int(4));
    assert_eq!(
        output_to_json(Output::Version(9)),
        Json::Obj(vec![("version".to_string(), Json::Int(9))])
    );
    assert_eq!(
        output_to_json(Output::TxnCommitted { version: 3 }),
        Json::Obj(vec![
            ("status".to_string(), Json::Str("committed".to_string())),
            ("version".to_string(), Json::Int(3)),
        ])
    );
    assert_eq!(
        output_to_json(Output::TxnBegun),
        Json::Obj(vec![("status".to_string(), Json::Str("begun".to_string()))])
    );
    assert_eq!(
        output_to_json(Output::TimeRange { oldest_ts: None, latest_ts: Some(7) }),
        Json::Obj(vec![
            ("oldest_ts".to_string(), Json::Null),
            ("latest_ts".to_string(), Json::Int(7)),
        ])
    );
    // An unsigned value above the signed range renders as decimal text.
    assert_eq!(
        output_to_json(Output::Uint(u64::MAX)),
        Json::BigNum("18446744073709551615".to_string())
    );
    assert_eq!(
        output_to_json(Output::Embedding(vec![(0.5f64).to_bits()])),
        Json::Arr(vec![Json::Float((0.5f64).to_bits())])
    );
}

#[test]
fn embed_status_derives_the_idle_flag() {
    let busy = EmbedInfo {
        auto_embed: false,
        batch_size: 4,
        pending: 2,
        total_queued: 10,
        total_embedded: 8,
        total_failed: 0,
        scheduler_queue_depth: 0,
        scheduler_active_tasks: 0,
    };
    match output_to_json(Output::EmbedStatus(busy)) {
        Json::Obj(fields) => {
            assert!(fields.iter().any(|(k, v)| k == "is_idle" && *v == Json::Bool(false)));
            assert!(fields.iter().any(|(k, v)| k == "pending" && *v == Json::Int(2)));
        }
        other => panic!("expected an object, got {:?}", other),
    }
    let idle = EmbedInfo {
        auto_embed: true,
        batch_size: 4,
        pending: 0,
        total_queued: 10,
        total_embedded: 10,
        total_failed: 0,
        scheduler_queue_depth: 0,
        scheduler_active_tasks: 0,
    };
    match output_to_json(Output::EmbedStatus(idle)) {
        Json::Obj(fields) => {
            assert!(fields.iter().any(|(k, v)| k == "is_idle" && *v == Json::Bool(true)));
        }
        other => panic!("expected an object, got {:?}", other),
    }
}

#[test]
fn transactions_track_through_the_session_path() {
    let mut sess = McpSession::new(false);
    assert!(sess.begin_execute(&Command::TxnBegin).is_ok());
    sess.finish_execute(Ok(Output::TxnBegun)).unwrap();
    assert!(sess.in_transaction());
    assert!(sess.begin_execute(&Command::JsonSet {
        branch: sess.branch_id(),
        space: sess.space_id(),
        key: "a".to_string(),
        path: "$".to_string(),
        value: Value::Int(1),
    })
    .is_ok());
    sess.finish_execute(Ok(Output::Version(1))).unwrap();
    assert!(sess.in_transaction());
    assert!(sess.begin_execute(&Command::TxnCommit).is_ok());
    sess.finish_execute(Ok(Output::TxnCommitted { version: 2 })).unwrap();
    assert!(!sess.in_transaction());
}
