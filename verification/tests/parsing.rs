use query_analysis::{predict_final_state, State, Statement, StmtError, StmtKind};

fn collect(sql: &str) -> Vec<Result<Statement, StmtError>> {
    let mut out = Vec::new();
    let mut stream = Statement::parse(sql);
    while let Some(item) = stream.next() {
        out.push(item);
    }
    out
}

fn ok_statements(sql: &str) -> Vec<Statement> {
    collect(sql).into_iter().map(|r| r.expect("statement should parse")).collect()
}

#[test]
fn select_single_statement() {
    let stmts = ok_statements("SELECT 1");
    assert_eq!(stmts.len(), 1);
    assert_eq!(stmts[0].kind, StmtKind::Read);
    assert!(stmts[0].is_read_only());
    assert!(!stmts[0].is_iud);
    assert!(!stmts[0].is_insert);
}

#[test]
fn begin_insert_commit_batch() {
    let stmts = ok_statements("BEGIN; INSERT INTO t VALUES(1); COMMIT;");
    assert_eq!(stmts.len(), 3);
    assert_eq!(stmts[0].kind, StmtKind::TxnBegin);
    assert_eq!(stmts[1].kind, StmtKind::Write);
    assert_eq!(stmts[2].kind, StmtKind::TxnEnd);
    assert!(stmts[1].is_iud);
    assert!(stmts[1].is_insert);
    assert_eq!(predict_final_state(State::Init, &stmts), State::Init);
}

#[test]
fn pragma_cache_size_without_argument_is_write() {
    let stmts = ok_statements("PRAGMA cache_size");
    assert_eq!(stmts.len(), 1);
    assert_eq!(stmts[0].kind, StmtKind::Write);
    assert!(!stmts[0].is_read_only());
}

#[test]
fn pragma_cache_size_with_argument_is_unsupported() {
    let items = collect("PRAGMA cache_size=10");
    assert_eq!(items.len(), 1);
    assert_eq!(
        items[0].as_ref().unwrap_err(),
        &StmtError::UnsupportedStatement { unknown_pragma: None }
    );
}

#[test]
fn pragma_table_info_is_read() {
    let stmts = ok_statements("PRAGMA table_info(t)");
    assert_eq!(stmts.len(), 1);
    assert_eq!(stmts[0].kind, StmtKind::Read);
    assert!(stmts[0].is_read_only());
}

#[test]
fn unknown_pragma_does_not_stop_the_scan() {
    let items = collect("PRAGMA made_up_pragma; SELECT 1");
    assert_eq!(items.len(), 2);
    assert_eq!(
        items[0].as_ref().unwrap_err(),
        &StmtError::UnsupportedStatement { unknown_pragma: Some("made_up_pragma".to_owned()) }
    );
    let second = items[1].as_ref().expect("second statement should parse");
    assert_eq!(second.kind, StmtKind::Read);
}

#[test]
fn denied_pragma_is_unsupported() {
    let items = collect("PRAGMA wal_checkpoint");
    assert_eq!(items.len(), 1);
    assert_eq!(
        items[0].as_ref().unwrap_err(),
        &StmtError::UnsupportedStatement { unknown_pragma: None }
    );
}

#[test]
fn primary_read_pragma_is_write() {
    let stmts = ok_statements("PRAGMA integrity_check");
    assert_eq!(stmts.len(), 1);
    assert_eq!(stmts[0].kind, StmtKind::Write);
}

#[test]
fn encoding_pragma_is_read() {
    let stmts = ok_statements("PRAGMA encoding");
    assert_eq!(stmts.len(), 1);
    assert_eq!(stmts[0].kind, StmtKind::Read);
}

#[test]
fn create_virtual_table_keeps_original_text() {
    let sql = "CREATE VIRTUAL TABLE vt USING fts4(content TEXT)";
    let stmts = ok_statements(sql);
    assert_eq!(stmts.len(), 1);
    assert_eq!(stmts[0].kind, StmtKind::Write);
    assert_eq!(stmts[0].stmt, sql);
    assert!(!stmts[0].is_iud);
    assert!(!stmts[0].is_insert);
}

#[test]
fn create_table_is_write() {
    let stmts = ok_statements("CREATE TABLE t (x INTEGER)");
    assert_eq!(stmts.len(), 1);
    assert_eq!(stmts[0].kind, StmtKind::Write);
}

#[test]
fn create_temp_table_is_unsupported() {
    let items = collect("CREATE TEMP TABLE t (x INTEGER)");
    assert_eq!(items.len(), 1);
    assert_eq!(
        items[0].as_ref().unwrap_err(),
        &StmtError::UnsupportedStatement { unknown_pragma: None }
    );
}

#[test]
fn create_temp_qualified_table_is_unsupported() {
    let items = collect("CREATE TABLE TEMP.t (x INTEGER)");
    assert_eq!(items.len(), 1);
    assert_eq!(
        items[0].as_ref().unwrap_err(),
        &StmtError::UnsupportedStatement { unknown_pragma: None }
    );
}

#[test]
fn update_and_delete_are_mutations() {
    let stmts = ok_statements("UPDATE t SET x = 1; DELETE FROM t;");
    assert_eq!(stmts.len(), 2);
    for st in &stmts {
        assert_eq!(st.kind, StmtKind::Write);
        assert!(st.is_iud);
        assert!(!st.is_insert);
    }
}

#[test]
fn ddl_statements_are_writes() {
    let stmts = ok_statements(
        "DROP TABLE t; ALTER TABLE t RENAME TO u; CREATE INDEX i ON t(x); \
         CREATE TRIGGER tr AFTER INSERT ON t BEGIN SELECT 1; END",
    );
    assert_eq!(stmts.len(), 4);
    for st in &stmts {
        assert_eq!(st.kind, StmtKind::Write);
        assert!(!st.is_iud);
    }
}

#[test]
fn create_temp_trigger_is_unsupported() {
    let items = collect("CREATE TEMP TRIGGER tr AFTER INSERT ON t BEGIN SELECT 1; END");
    assert_eq!(items.len(), 1);
    assert_eq!(
        items[0].as_ref().unwrap_err(),
        &StmtError::UnsupportedStatement { unknown_pragma: None }
    );
}

#[test]
fn explain_is_other() {
    let stmts = ok_statements("EXPLAIN SELECT 1");
    assert_eq!(stmts.len(), 1);
    assert_eq!(stmts[0].kind, StmtKind::Other);
    assert!(!stmts[0].is_read_only());
    assert!(!stmts[0].is_iud);
}

#[test]
fn explain_query_plan_is_other() {
    let stmts = ok_statements("EXPLAIN QUERY PLAN SELECT 1");
    assert_eq!(stmts.len(), 1);
    assert_eq!(stmts[0].kind, StmtKind::Other);
}

#[test]
fn vacuum_is_unsupported() {
    let items = collect("VACUUM");
    assert_eq!(items.len(), 1);
    assert_eq!(
        items[0].as_ref().unwrap_err(),
        &StmtError::UnsupportedStatement { unknown_pragma: None }
    );
}

#[test]
fn rollback_ends_a_transaction() {
    let stmts = ok_statements("BEGIN; ROLLBACK;");
    assert_eq!(stmts.len(), 2);
    assert_eq!(stmts[0].kind, StmtKind::TxnBegin);
    assert_eq!(stmts[1].kind, StmtKind::TxnEnd);
    assert!(stmts[1].is_read_only());
}

#[test]
fn syntax_error_ends_the_stream() {
    let items = collect("SELECT 1; SELEC 2");
    assert_eq!(items.len(), 2);
    assert!(items[0].is_ok());
    match &items[1] {
        Err(StmtError::SyntaxError { token, .. }) => {
            assert_eq!(token, "SELEC");
        }
        other => panic!("expected a syntax error, got {:?}", other),
    }
}

#[test]
fn unsupported_statement_message_form() {
    let items = collect("VACUUM; SELECT 1");
    assert_eq!(items.len(), 2);
    let err = items[0].as_ref().unwrap_err();
    assert_eq!(err.message(), "unsupported statement");
}

#[test]
fn syntax_error_message_form() {
    let err = StmtError::SyntaxError { line: 1, column: 17, token: "SELEC".to_owned() };
    assert_eq!(err.message(), "syntax error around L1:17: `SELEC`");
    let err = StmtError::SyntaxError { line: 204, column: 0, token: "x".to_owned() };
    assert_eq!(err.message(), "syntax error around L204:0: `x`");
}

#[test]
fn parsed_syntax_error_message() {
    let items = collect("SELEC 2");
    assert_eq!(items.len(), 1);
    let err = items[0].as_ref().unwrap_err();
    let msg = err.message();
    assert!(msg.starts_with("syntax error around L1:"), "message was {msg:?}");
    assert!(msg.ends_with(": `SELEC`"), "message was {msg:?}");
}

#[test]
fn empty_input_yields_nothing() {
    let items = collect("");
    assert_eq!(items.len(), 0);
}

#[test]
fn semicolon_only_input_yields_nothing() {
    let items = collect(";");
    assert_eq!(items.len(), 0);
}

#[test]
fn statement_free_tail_is_skipped() {
    let stmts = ok_statements("SELECT 1;;");
    assert_eq!(stmts.len(), 1);
    assert_eq!(stmts[0].kind, StmtKind::Read);
}

#[test]
fn empty_commands_between_statements_are_skipped() {
    let stmts = ok_statements("SELECT 1;; SELECT 2");
    assert_eq!(stmts.len(), 2);
    assert_eq!(stmts[0].kind, StmtKind::Read);
    assert_eq!(stmts[1].kind, StmtKind::Read);
}

#[test]
fn leading_empty_command_is_skipped() {
    let stmts = ok_statements("; SELECT 1");
    assert_eq!(stmts.len(), 1);
    assert_eq!(stmts[0].kind, StmtKind::Read);
}
