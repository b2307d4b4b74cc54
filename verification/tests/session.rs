use strata_mcp::{Command, McpError, McpSession, Output, StoreFault, Value};

#[test]
fn new_session_defaults() {
    let s = McpSession::new(false);
    assert_eq!(s.branch(), "default");
    assert_eq!(s.space(), "default");
    assert!(!s.in_transaction());
    assert!(!s.is_read_only());
    assert_eq!(s.branch_id(), Some("default".to_string()));
    assert_eq!(s.space_id(), Some("default".to_string()));
}

#[test]
fn switch_space_always_succeeds() {
    let mut s = McpSession::new(false);
    s.switch_space("scratch");
    assert_eq!(s.space(), "scratch");
    assert_eq!(s.branch(), "default");
}

#[test]
fn transaction_flag_follows_outputs() {
    let mut s = McpSession::new(false);
    assert!(!s.in_transaction());
    s.finish_execute(Ok(Output::TxnBegun)).unwrap();
    assert!(s.in_transaction());
    s.finish_execute(Ok(Output::Version(1))).unwrap();
    assert!(s.in_transaction());
    s.finish_execute(Ok(Output::TxnCommitted { version: 2 })).unwrap();
    assert!(!s.in_transaction());

    s.finish_execute(Ok(Output::TxnBegun)).unwrap();
    assert!(s.in_transaction());
    s.finish_execute(Ok(Output::TxnAborted)).unwrap();
    assert!(!s.in_transaction());
}

#[test]
fn other_outputs_leave_transaction_flag_alone() {
    let mut s = McpSession::new(false);
    s.finish_execute(Ok(Output::Bool(true))).unwrap();
    assert!(!s.in_transaction());
    s.finish_execute(Ok(Output::TxnBegun)).unwrap();
    s.finish_execute(Ok(Output::Maybe(Some(Value::Int(1))))).unwrap();
    assert!(s.in_transaction());
    let fault = StoreFault { code: "IO".to_string(), message: "disk".to_string() };
    assert!(s.finish_execute(Err(fault)).is_err());
    assert!(s.in_transaction());
}

#[test]
fn store_faults_pass_through_verbatim() {
    let mut s = McpSession::new(false);
    let fault = StoreFault { code: "CORRUPT".to_string(), message: "bad page".to_string() };
    match s.finish_execute(Err(fault)) {
        Err(McpError::Store { code, message }) => {
            assert_eq!(code, "CORRUPT");
            assert_eq!(message, "bad page");
        }
        other => panic!("expected a store error, got {:?}", other),
    }
}

#[test]
fn write_guard_refuses_writes_when_read_only() {
    let s = McpSession::new(true);
    let cmd = Command::TxnBegin;
    match s.begin_execute(&cmd) {
        Err(McpError::AccessDenied(op)) => assert_eq!(op, "TxnBegin"),
        other => panic!("expected access denied, got {:?}", other),
    }
    let read = Command::Info;
    assert!(s.begin_execute(&read).is_ok());
}

#[test]
fn write_guard_is_open_when_writable() {
    let s = McpSession::new(false);
    assert!(s.begin_execute(&Command::TxnBegin).is_ok());
    assert!(s.begin_execute(&Command::BranchList).is_ok());
}

#[test]
fn branch_switch_commits_only_on_confirmed_existence() {
    let mut s = McpSession::new(false);
    let cmd = s.switch_branch_command("feature");
    assert_eq!(cmd, Command::BranchExists { branch: "feature".to_string() });

    // The branch exists: the context updates.
    assert!(s.switch_branch_apply("feature", Ok(Output::Bool(true))).is_ok());
    assert_eq!(s.branch(), "feature");

    // The branch does not exist: the context stays put.
    match s.switch_branch_apply("ghost", Ok(Output::Bool(false))) {
        Err(McpError::BranchNotFound(name)) => assert_eq!(name, "ghost"),
        other => panic!("expected branch-not-found, got {:?}", other),
    }
    assert_eq!(s.branch(), "feature");

    // An unexpected output shape is an internal error; the context stays put.
    match s.switch_branch_apply("other", Ok(Output::Uint(1))) {
        Err(McpError::Internal(_)) => {}
        other => panic!("expected an internal error, got {:?}", other),
    }
    assert_eq!(s.branch(), "feature");

    // A store fault passes through; the context stays put.
    let fault = StoreFault { code: "IO".to_string(), message: "oops".to_string() };
    assert!(s.switch_branch_apply("other", Err(fault)).is_err());
    assert_eq!(s.branch(), "feature");
}

#[test]
fn fork_and_merge_are_guarded_and_diff_is_not() {
    let rw = McpSession::new(false);
    match rw.fork_branch("copy") {
        Ok(strata_mcp::Action::BranchFork { source, destination }) => {
            assert_eq!(source, "default");
            assert_eq!(destination, "copy");
        }
        other => panic!("expected a fork action, got {:?}", other),
    }
    match rw.merge_branch("copy", strata_mcp::MergeStrategy::LastWriterWins) {
        Ok(strata_mcp::Action::BranchMerge { source, destination, strategy }) => {
            assert_eq!(source, "copy");
            assert_eq!(destination, "default");
            assert_eq!(strategy, strata_mcp::MergeStrategy::LastWriterWins);
        }
        other => panic!("expected a merge action, got {:?}", other),
    }

    let ro = McpSession::new(true);
    match ro.fork_branch("copy") {
        Err(McpError::AccessDenied(op)) => assert_eq!(op, "BranchFork"),
        other => panic!("expected access denied, got {:?}", other),
    }
    match ro.merge_branch("copy", strata_mcp::MergeStrategy::LastWriterWins) {
        Err(McpError::AccessDenied(op)) => assert_eq!(op, "BranchMerge"),
        other => panic!("expected access denied, got {:?}", other),
    }
    match ro.diff_branches("default", "copy") {
        strata_mcp::Action::BranchDiff { branch_a, branch_b } => {
            assert_eq!(branch_a, "default");
            assert_eq!(branch_b, "copy");
        }
        other => panic!("expected a diff action, got {:?}", other),
    }
}

#[test]
fn command_write_classification() {
    assert!(Command::TxnBegin.is_write());
    assert!(Command::TxnCommit.is_write());
    assert!(Command::TxnAbort.is_write());
    assert!(Command::BranchCreate { branch_id: None }.is_write());
    assert!(Command::BranchDelete { branch: "b".to_string() }.is_write());
    assert!(Command::RetentionApply { branch: None }.is_write());
    assert!(Command::ModelsPull { name: "m".to_string() }.is_write());
    assert!(!Command::Info.is_write());
    assert!(!Command::BranchList.is_write());
    assert!(!Command::EmbedStatus.is_write());
    assert!(!Command::BranchExists { branch: "b".to_string() }.is_write());
    assert_eq!(Command::Info.name(), "Info");
    assert_eq!(Command::TxnBegin.name(), "TxnBegin");
}
