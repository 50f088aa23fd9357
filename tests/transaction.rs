use psqlpy::cursor::Cursor;
use psqlpy::options::{start_transaction_command, IsolationLevel, ReadVariant};
use psqlpy::pipeline::pipeline_results;
use psqlpy::transaction::{Statement, Transaction, TransactionError, TransactionState};

type TxResult<T> = Result<T, TransactionError<String>>;

/// A connection that records what it is sent and answers from canned rows.
struct StubConnection {
    log: Vec<String>,
    params_log: Vec<Vec<i64>>,
    rows: Vec<Vec<i64>>,
    fail_on: Option<String>,
    cursor_rows: Vec<i64>,
}

impl StubConnection {
    fn new() -> Self {
        StubConnection {
            log: Vec::new(),
            params_log: Vec::new(),
            rows: Vec::new(),
            fail_on: None,
            cursor_rows: Vec::new(),
        }
    }

    fn batch_execute(&mut self, command: &str) -> Result<(), String> {
        self.log.push(command.to_string());
        if self.fail_on.as_deref() == Some(command) {
            return Err(format!("server refused {command}"));
        }
        Ok(())
    }

    fn query(&mut self, statement: Statement<Vec<i64>>) -> Result<Vec<Vec<i64>>, String> {
        self.log.push(statement.querystring.clone());
        self.params_log.push(statement.parameters.clone());
        if self.fail_on.as_deref() == Some(statement.querystring.as_str())
            || self.fail_on == Some(format!("{:?}", statement.parameters))
        {
            return Err(format!("server refused {}", statement.querystring));
        }
        if let Some(rest) = statement.querystring.strip_prefix("FETCH ") {
            let n: usize = rest.split(' ').next().unwrap().parse().unwrap();
            let take = n.min(self.cursor_rows.len());
            let page: Vec<Vec<i64>> = self.cursor_rows.drain(..take).map(|v| vec![v]).collect();
            return Ok(page);
        }
        Ok(self.rows.clone())
    }
}

fn begin(tx: &mut Transaction, conn: &mut StubConnection) -> TxResult<()> {
    let command = tx.begin_command()?;
    let outcome = conn.batch_execute(&command);
    tx.begin(outcome)
}

fn commit(tx: &mut Transaction, conn: &mut StubConnection) -> TxResult<()> {
    let command = tx.commit_command()?;
    let outcome = conn.batch_execute(&command);
    tx.commit(outcome)
}

fn rollback(tx: &mut Transaction, conn: &mut StubConnection) -> TxResult<()> {
    let command = tx.rollback_command()?;
    let outcome = conn.batch_execute(&command);
    tx.rollback(outcome)
}

fn savepoint(tx: &mut Transaction, conn: &mut StubConnection, name: &str) -> TxResult<()> {
    let name = name.to_string();
    let command = tx.savepoint_command(&name)?;
    let outcome = conn.batch_execute(&command);
    tx.savepoint(name, outcome)
}

fn rollback_to(tx: &mut Transaction, conn: &mut StubConnection, name: &str) -> TxResult<()> {
    let name = name.to_string();
    let command = tx.rollback_to_command(&name)?;
    let outcome = conn.batch_execute(&command);
    tx.rollback_to(&name, outcome)
}

fn release(tx: &mut Transaction, conn: &mut StubConnection, name: &str) -> TxResult<()> {
    let name = name.to_string();
    let command = tx.release_savepoint_command(&name)?;
    let outcome = conn.batch_execute(&command);
    tx.release_savepoint(&name, outcome)
}

fn execute_many(
    tx: &Transaction,
    conn: &mut StubConnection,
    query: &str,
    sets: Vec<Vec<i64>>,
) -> TxResult<()> {
    for statement in tx.execute_many(query.to_string(), sets, true)? {
        conn.query(statement).map_err(TransactionError::DriverError)?;
    }
    Ok(())
}

fn fetch_row(tx: &Transaction, conn: &mut StubConnection, query: &str) -> TxResult<Vec<i64>> {
    let statement = tx.execute(query.to_string(), Vec::new(), true)?;
    let outcome = conn.query(statement);
    tx.fetch_row(outcome)
}

fn cursor_fetch(
    cursor: &mut Cursor<Vec<i64>>,
    tx: &Transaction,
    conn: &mut StubConnection,
) -> TxResult<Vec<Vec<i64>>> {
    let step = cursor.fetch(tx)?;
    if let Some(declare) = step.declare {
        conn.query(declare).map_err(TransactionError::DriverError)?;
    }
    let fetch = Statement { querystring: step.fetch, parameters: Vec::new(), prepared: false };
    conn.query(fetch).map_err(TransactionError::DriverError)
}

fn started() -> (Transaction, StubConnection) {
    let mut tx = Transaction::new(None, None, None);
    let mut conn = StubConnection::new();
    begin(&mut tx, &mut conn).unwrap();
    (tx, conn)
}

#[test]
fn commit_or_rollback_after_done_fails() {
    let (mut tx, mut conn) = started();
    commit(&mut tx, &mut conn).unwrap();
    assert!(tx.is_done());
    assert_eq!(commit(&mut tx, &mut conn), Err(TransactionError::AlreadyDone));
    assert_eq!(rollback(&mut tx, &mut conn), Err(TransactionError::AlreadyDone));
    assert_eq!(tx.commit::<String>(Ok(())), Err(TransactionError::AlreadyDone));
    assert_eq!(tx.rollback::<String>(Ok(())), Err(TransactionError::AlreadyDone));
    assert_eq!(conn.log, vec!["START TRANSACTION".to_string(), "COMMIT;".to_string()]);

    let (mut tx, mut conn) = started();
    rollback(&mut tx, &mut conn).unwrap();
    assert_eq!(rollback(&mut tx, &mut conn), Err(TransactionError::AlreadyDone));
    assert_eq!(commit(&mut tx, &mut conn), Err(TransactionError::AlreadyDone));
    assert_eq!(conn.log, vec!["START TRANSACTION".to_string(), "ROLLBACK".to_string()]);
}

#[test]
fn queries_before_begin_fail_with_not_started() {
    let mut tx = Transaction::new(None, None, None);
    let mut conn = StubConnection::new();
    assert_eq!(
        tx.execute::<Vec<i64>, String>("SELECT 1".to_string(), vec![], true).err(),
        Some(TransactionError::NotStarted)
    );
    assert_eq!(
        execute_many(&tx, &mut conn, "INSERT", vec![vec![1]]),
        Err(TransactionError::NotStarted)
    );
    assert_eq!(
        tx.execute_many::<Vec<i64>, String>("INSERT".to_string(), vec![], true).err(),
        Some(TransactionError::NotStarted)
    );
    assert_eq!(fetch_row(&tx, &mut conn, "SELECT 1"), Err(TransactionError::NotStarted));
    assert_eq!(tx.fetch_row::<i64, String>(Ok(vec![1])), Err(TransactionError::NotStarted));
    assert_eq!(
        tx.pipeline::<Vec<i64>, String>(vec![("SELECT 1".to_string(), vec![])], true).err(),
        Some(TransactionError::NotStarted)
    );
    assert_eq!(
        tx.pipeline::<Vec<i64>, String>(vec![], true).err(),
        Some(TransactionError::NotStarted)
    );
    let mut cursor = tx.cursor("SELECT 1".to_string(), vec![], None, None, None);
    assert_eq!(cursor_fetch(&mut cursor, &tx, &mut conn), Err(TransactionError::NotStarted));
    assert_eq!(savepoint(&mut tx, &mut conn, "a"), Err(TransactionError::NotStarted));
    assert_eq!(commit(&mut tx, &mut conn), Err(TransactionError::NotStarted));
    assert_eq!(rollback(&mut tx, &mut conn), Err(TransactionError::NotStarted));
    assert!(conn.log.is_empty());
    assert_eq!(tx.state(), TransactionState::NotStarted);
}

#[test]
fn savepoint_names_are_unique() {
    let (mut tx, mut conn) = started();
    savepoint(&mut tx, &mut conn, "a").unwrap();
    assert_eq!(savepoint(&mut tx, &mut conn, "a"), Err(TransactionError::SavepointAlreadyExists));
    release(&mut tx, &mut conn, "a").unwrap();
    assert!(!tx.has_savepoint(&"a".to_string()));
    savepoint(&mut tx, &mut conn, "a").unwrap();
    assert!(tx.has_savepoint(&"a".to_string()));
    assert_eq!(
        conn.log,
        vec![
            "START TRANSACTION".to_string(),
            "SAVEPOINT a".to_string(),
            "RELEASE SAVEPOINT a".to_string(),
            "SAVEPOINT a".to_string(),
        ]
    );
}

#[test]
fn rollback_to_keeps_the_savepoint() {
    let (mut tx, mut conn) = started();
    savepoint(&mut tx, &mut conn, "a").unwrap();
    assert_eq!(rollback_to(&mut tx, &mut conn, "a"), Ok(()));
    assert_eq!(rollback_to(&mut tx, &mut conn, "a"), Ok(()));
    assert!(tx.has_savepoint(&"a".to_string()));
    assert_eq!(conn.log[2], "ROLLBACK TO SAVEPOINT a");
    assert_eq!(conn.log[3], "ROLLBACK TO SAVEPOINT a");
}

#[test]
fn unknown_savepoint_is_not_found() {
    let (mut tx, mut conn) = started();
    assert_eq!(rollback_to(&mut tx, &mut conn, "b"), Err(TransactionError::SavepointNotFound));
    assert_eq!(release(&mut tx, &mut conn, "b"), Err(TransactionError::SavepointNotFound));
    assert_eq!(conn.log.len(), 1);
}

#[test]
fn failed_savepoint_is_not_registered() {
    let (mut tx, mut conn) = started();
    conn.fail_on = Some("SAVEPOINT a".to_string());
    assert_eq!(
        savepoint(&mut tx, &mut conn, "a"),
        Err(TransactionError::DriverError("server refused SAVEPOINT a".to_string()))
    );
    assert!(!tx.has_savepoint(&"a".to_string()));
    conn.fail_on = None;
    savepoint(&mut tx, &mut conn, "a").unwrap();
    conn.fail_on = Some("RELEASE SAVEPOINT a".to_string());
    assert!(matches!(release(&mut tx, &mut conn, "a"), Err(TransactionError::DriverError(_))));
    assert!(tx.has_savepoint(&"a".to_string()));
}

#[test]
fn execute_many_runs_each_set_in_order() {
    let (tx, mut conn) = started();
    let sets = vec![vec![1], vec![2], vec![3]];
    execute_many(&tx, &mut conn, "INSERT INTO t VALUES ($1)", sets).unwrap();
    assert_eq!(conn.params_log, vec![vec![1], vec![2], vec![3]]);
    assert_eq!(conn.log[1..], vec!["INSERT INTO t VALUES ($1)".to_string(); 3][..]);
}

#[test]
fn execute_many_statements_keep_query_and_flag() {
    let (tx, _conn) = started();
    let statements = tx
        .execute_many::<Vec<i64>, String>("UPDATE t".to_string(), vec![vec![7], vec![8]], false)
        .ok()
        .unwrap();
    assert_eq!(statements.len(), 2);
    assert_eq!(statements[0].parameters, vec![7]);
    assert_eq!(statements[1].parameters, vec![8]);
    assert!(statements.iter().all(|s| s.querystring == "UPDATE t" && !s.prepared));
}

#[test]
fn execute_many_stops_at_first_failure() {
    let (tx, mut conn) = started();
    conn.fail_on = Some("[2]".to_string());
    let result = execute_many(&tx, &mut conn, "INSERT", vec![vec![1], vec![2], vec![3]]);
    assert!(matches!(result, Err(TransactionError::DriverError(_))));
    assert_eq!(conn.params_log, vec![vec![1], vec![2]]);
    assert_eq!(tx.state(), TransactionState::Started);
}

#[test]
fn execute_many_without_sets_fails() {
    let (tx, mut conn) = started();
    assert_eq!(execute_many(&tx, &mut conn, "INSERT", vec![]), Err(TransactionError::EmptyParameterSet));
    assert_eq!(conn.log.len(), 1);
}

#[test]
fn pipeline_keeps_query_order() {
    let (tx, _conn) = started();
    let queries = vec![
        ("SELECT 1".to_string(), vec![1]),
        ("SELECT 2".to_string(), vec![2]),
        ("SELECT 3".to_string(), vec![3]),
    ];
    let statements = tx.pipeline::<Vec<i64>, String>(queries, true).ok().unwrap();
    let texts: Vec<&str> = statements.iter().map(|s| s.querystring.as_str()).collect();
    assert_eq!(texts, vec!["SELECT 1", "SELECT 2", "SELECT 3"]);
    // The first query is the slowest: the answers come back as 2, 3, 1.
    let completions: Vec<(usize, Result<&str, String>)> =
        vec![(1, Ok("r2")), (2, Ok("r3")), (0, Ok("r1"))];
    assert_eq!(pipeline_results(3, completions), Ok(vec!["r1", "r2", "r3"]));
}

#[test]
fn pipeline_fails_fast() {
    let completions: Vec<(usize, Result<&str, String>)> =
        vec![(2, Ok("r3")), (0, Err("first".to_string())), (1, Err("second".to_string()))];
    assert_eq!(
        pipeline_results(3, completions),
        Err(TransactionError::DriverError("first".to_string()))
    );
    let empty: Vec<(usize, Result<&str, String>)> = vec![];
    assert_eq!(pipeline_results(0, empty), Ok(vec![]));
}

#[test]
fn cursor_fetch_until_exhausted() {
    let (mut tx, mut conn) = started();
    conn.cursor_rows = vec![10, 20];
    let mut cursor = tx.cursor("SELECT v FROM t".to_string(), vec![5], Some(10), None, None);
    let first = cursor_fetch(&mut cursor, &tx, &mut conn).unwrap();
    assert_eq!(first, vec![vec![10], vec![20]]);
    let second = cursor_fetch(&mut cursor, &tx, &mut conn).unwrap();
    assert!(second.is_empty());
    assert_eq!(
        conn.log[1..],
        [
            "DECLARE cur0 CURSOR FOR SELECT v FROM t".to_string(),
            "FETCH 10 FROM cur0".to_string(),
            "FETCH 10 FROM cur0".to_string(),
        ]
    );
    assert_eq!(conn.params_log[0], vec![5]);
    assert_eq!(conn.params_log[1], Vec::<i64>::new());
}

#[test]
fn cursor_names_count_up() {
    let (mut tx, _conn) = started();
    let a: Cursor<Vec<i64>> = tx.cursor("SELECT 1".to_string(), vec![], None, None, None);
    let b: Cursor<Vec<i64>> = tx.cursor("SELECT 2".to_string(), vec![], None, None, None);
    assert_eq!(a.cursor_name(), "cur0");
    assert_eq!(b.cursor_name(), "cur1");
    assert_eq!(a.fetch_number(), 10);
}

#[test]
fn cursor_scroll_and_page_size_in_commands() {
    let (mut tx, _conn) = started();
    let mut cursor = tx.cursor("SELECT 1".to_string(), vec![1i64], Some(1234), Some(true), Some(false));
    let step = cursor.fetch::<String>(&tx).ok().unwrap();
    let declare = step.declare.unwrap();
    assert_eq!(declare.querystring, "DECLARE cur0 SCROLL CURSOR FOR SELECT 1");
    assert_eq!(declare.parameters, vec![1]);
    assert!(!declare.prepared);
    assert_eq!(step.fetch, "FETCH 1234 FROM cur0");
    assert!(cursor.is_declared());
    let again = cursor.fetch::<String>(&tx).ok().unwrap();
    assert!(again.declare.is_none());
}

#[test]
fn cursor_close_is_idempotent() {
    let (mut tx, mut conn) = started();
    let mut cursor = tx.cursor("SELECT 1".to_string(), vec![], Some(0), None, None);
    cursor_fetch(&mut cursor, &tx, &mut conn).unwrap();
    assert_eq!(cursor.close::<String>(&tx), Ok(Some("CLOSE cur0".to_string())));
    assert!(cursor.is_closed());
    assert_eq!(cursor.close::<String>(&tx), Ok(None));
    let mut never_used: Cursor<Vec<i64>> = tx.cursor("SELECT 2".to_string(), vec![], None, None, None);
    assert_eq!(never_used.close::<String>(&tx), Ok(None));
    commit(&mut tx, &mut conn).unwrap();
    assert_eq!(cursor.close::<String>(&tx), Ok(None));
}

#[test]
fn cursor_close_after_commit_fails_once() {
    let (mut tx, mut conn) = started();
    let mut cursor = tx.cursor("SELECT 1".to_string(), vec![], None, None, None);
    cursor_fetch(&mut cursor, &tx, &mut conn).unwrap();
    commit(&mut tx, &mut conn).unwrap();
    assert_eq!(cursor.close::<String>(&tx), Err(TransactionError::AlreadyDone));
    assert!(!cursor.is_closed());
}

#[test]
fn start_transaction_clauses() {
    let tx = Transaction::new(
        Some(IsolationLevel::Serializable),
        Some(ReadVariant::ReadOnly),
        Some(true),
    );
    assert_eq!(tx.start_transaction(), "START TRANSACTION ISOLATION LEVEL SERIALIZABLE READ ONLY DEFERRABLE");
    assert_eq!(start_transaction_command(None, None, None), "START TRANSACTION");
    assert_eq!(
        start_transaction_command(Some(IsolationLevel::ReadCommitted), None, Some(false)),
        "START TRANSACTION ISOLATION LEVEL READ COMMITTED NOT DEFERRABLE"
    );
    assert_eq!(
        start_transaction_command(None, Some(ReadVariant::ReadWrite), None),
        "START TRANSACTION READ WRITE"
    );
    assert_eq!(IsolationLevel::ReadUncommitted.to_str_level(), "READ UNCOMMITTED");
    assert_eq!(IsolationLevel::RepeatableRead.to_str_level(), "REPEATABLE READ");
}

#[test]
fn begin_sends_the_configured_command() {
    let mut tx = Transaction::new(Some(IsolationLevel::RepeatableRead), None, None);
    let mut conn = StubConnection::new();
    begin(&mut tx, &mut conn).unwrap();
    assert_eq!(conn.log, vec!["START TRANSACTION ISOLATION LEVEL REPEATABLE READ".to_string()]);
    assert!(tx.is_started());
    assert!(!tx.is_done());
}

#[test]
fn begin_twice_or_after_done_fails() {
    let (mut tx, mut conn) = started();
    assert_eq!(begin(&mut tx, &mut conn), Err(TransactionError::AlreadyStarted));
    commit(&mut tx, &mut conn).unwrap();
    assert_eq!(begin(&mut tx, &mut conn), Err(TransactionError::AlreadyDone));
    assert_eq!(tx.begin::<String>(Ok(())), Err(TransactionError::AlreadyDone));
}

#[test]
fn failed_begin_leaves_transaction_unstarted() {
    let mut tx = Transaction::new(None, None, None);
    let mut conn = StubConnection::new();
    conn.fail_on = Some("START TRANSACTION".to_string());
    assert_eq!(
        begin(&mut tx, &mut conn),
        Err(TransactionError::DriverError("server refused START TRANSACTION".to_string()))
    );
    assert_eq!(tx.state(), TransactionState::NotStarted);
    conn.fail_on = None;
    begin(&mut tx, &mut conn).unwrap();
    assert_eq!(tx.state(), TransactionState::Started);
}

#[test]
fn failed_commit_keeps_transaction_running() {
    let (mut tx, mut conn) = started();
    conn.fail_on = Some("COMMIT;".to_string());
    assert!(matches!(commit(&mut tx, &mut conn), Err(TransactionError::DriverError(_))));
    assert_eq!(tx.state(), TransactionState::Started);
    conn.fail_on = None;
    rollback(&mut tx, &mut conn).unwrap();
    assert_eq!(tx.state(), TransactionState::Done);
}

#[test]
fn fetch_row_with_two_rows_fails() {
    let (tx, mut conn) = started();
    conn.rows = vec![vec![1], vec![2]];
    assert_eq!(fetch_row(&tx, &mut conn, "SELECT v FROM t"), Err(TransactionError::TooManyRows));
}

#[test]
fn fetch_row_with_one_or_no_row() {
    let (tx, mut conn) = started();
    conn.rows = vec![vec![42]];
    assert_eq!(fetch_row(&tx, &mut conn, "SELECT 42"), Ok(vec![42]));
    conn.rows = vec![];
    assert_eq!(fetch_row(&tx, &mut conn, "SELECT 42"), Err(TransactionError::NoRows));
    assert_eq!(
        tx.fetch_row::<i64, String>(Err("lost".to_string())),
        Err(TransactionError::DriverError("lost".to_string()))
    );
}

#[test]
fn execute_hands_back_the_statement() {
    let (tx, _conn) = started();
    let statement = tx.execute::<Vec<i64>, String>("SELECT $1".to_string(), vec![9], false).ok().unwrap();
    assert_eq!(statement.querystring, "SELECT $1");
    assert_eq!(statement.parameters, vec![9]);
    assert!(!statement.prepared);
    assert_eq!(tx.check_is_transaction_ready::<String>(), Ok(()));
}

#[test]
fn test_action() {
    let (tx, _conn) = started();
    assert_eq!(tx.commit_command::<String>(), Ok("COMMIT;".to_string()));
    assert_eq!(tx.rollback_command::<String>(), Ok("ROLLBACK".to_string()));
    let name = "sp_1".to_string();
    assert_eq!(tx.savepoint_command::<String>(&name), Ok("SAVEPOINT sp_1".to_string()));
    assert_eq!(tx.rollback_to_command::<String>(&name), Err(TransactionError::SavepointNotFound));
    assert_eq!(tx.release_savepoint_command::<String>(&name), Err(TransactionError::SavepointNotFound));
}

#[test]
fn test_com_socket() {
    let mut tx = Transaction::new(None, Some(ReadVariant::ReadWrite), None);
    let mut conn = StubConnection::new();
    begin(&mut tx, &mut conn).unwrap();
    savepoint(&mut tx, &mut conn, "s").unwrap();
    rollback_to(&mut tx, &mut conn, "s").unwrap();
    release(&mut tx, &mut conn, "s").unwrap();
    commit(&mut tx, &mut conn).unwrap();
    assert_eq!(
        conn.log,
        vec![
            "START TRANSACTION READ WRITE".to_string(),
            "SAVEPOINT s".to_string(),
            "ROLLBACK TO SAVEPOINT s".to_string(),
            "RELEASE SAVEPOINT s".to_string(),
            "COMMIT;".to_string(),
        ]
    );
}
