use std::cell::{Cell, RefCell};

use interactive_transaction::{begin, resolved, Execute, RawBatch, Statement, Transaction};

/// What the recording client was asked to do.
#[derive(Debug, PartialEq)]
enum Seen {
    RawBatch(Vec<Statement>),
    Execute(Statement),
}

/// A client that writes down every call and refuses those whose number, in
/// order of arrival from zero, is listed in `refuse`.
struct Recorder {
    seen: RefCell<Vec<Seen>>,
    calls: Cell<usize>,
    refuse: Vec<usize>,
}

impl Recorder {
    fn new() -> Recorder {
        Recorder::refusing(Vec::new())
    }

    fn refusing(refuse: Vec<usize>) -> Recorder {
        Recorder { seen: RefCell::new(Vec::new()), calls: Cell::new(0), refuse }
    }

    fn answer(&self, call: Seen) -> Result<usize, String> {
        let number = self.calls.get();
        self.calls.set(number + 1);
        self.seen.borrow_mut().push(call);
        if self.refuse.contains(&number) {
            Err(format!("call {} refused", number))
        } else {
            Ok(number)
        }
    }

    fn raw_batch(&self, stmts: Vec<Statement>) -> Result<(), String> {
        self.answer(Seen::RawBatch(stmts)).map(|_| ())
    }

    /// The result set of this client is the number of the call.
    fn execute(&self, stmt: Statement) -> Result<usize, String> {
        self.answer(Seen::Execute(stmt))
    }

    /// The calls that arrived since this was last asked.
    fn seen(&self) -> Vec<Seen> {
        self.seen.replace(Vec::new())
    }
}

fn open(client: &Recorder) -> Result<Transaction<'_, Recorder>, String> {
    let RawBatch { statements } = begin();
    let begun = client.raw_batch(statements);
    Transaction::new(client, begun)
}

fn execute(tx: &Transaction<'_, Recorder>, stmt: Statement) -> Result<usize, String> {
    let (client, Execute { statement }) = tx.execute(stmt);
    let reply = client.execute(statement);
    tx.executed(reply)
}

fn commit(tx: Transaction<'_, Recorder>) -> Result<(), String> {
    let (client, Execute { statement }) = tx.commit();
    resolved(client.execute(statement))
}

fn rollback(tx: Transaction<'_, Recorder>) -> Result<(), String> {
    let (client, Execute { statement }) = tx.rollback();
    resolved(client.execute(statement))
}

fn insert(name: &str) -> Statement {
    Statement::with_args("INSERT INTO users (name) VALUES (?)", vec![name.to_string()])
}

#[test]
fn begin_is_a_batch_of_one() {
    let batch = begin();
    assert_eq!(batch.statements.len(), 1);
    assert_eq!(batch.statements[0].sql(), "BEGIN");
    assert!(batch.statements[0].args().is_empty());
    assert_eq!(batch, RawBatch { statements: vec![Statement::new("BEGIN")] });
}

#[test]
fn insert_then_commit() {
    let client = Recorder::new();
    let tx = open(&client).unwrap();
    assert_eq!(client.seen(), vec![Seen::RawBatch(vec![Statement::new("BEGIN")])]);

    assert_eq!(execute(&tx, insert("John")), Ok(1));
    assert_eq!(client.seen(), vec![Seen::Execute(insert("John"))]);

    assert_eq!(commit(tx), Ok(()));
    assert_eq!(client.seen(), vec![Seen::Execute(Statement::new("COMMIT"))]);
}

#[test]
fn failed_insert_then_rollback() {
    // Calls 0 and 1 are BEGIN and the first insert; call 2 is refused.
    let client = Recorder::refusing(vec![2]);
    let tx = open(&client).unwrap();
    assert_eq!(execute(&tx, insert("John")), Ok(1));
    let second = execute(&tx, insert("Jane"));
    assert_eq!(second, Err("call 2 refused".to_string()));

    assert_eq!(rollback(tx), Ok(()));
    assert_eq!(
        client.seen(),
        vec![
            Seen::RawBatch(vec![Statement::new("BEGIN")]),
            Seen::Execute(insert("John")),
            Seen::Execute(insert("Jane")),
            Seen::Execute(Statement::new("ROLLBACK")),
        ]
    );
}

#[test]
fn begin_then_commit_makes_two_calls() {
    let client = Recorder::new();
    let tx = open(&client).unwrap();
    assert_eq!(commit(tx), Ok(()));
    assert_eq!(
        client.seen(),
        vec![
            Seen::RawBatch(vec![Statement::new("BEGIN")]),
            Seen::Execute(Statement::new("COMMIT")),
        ]
    );
}

#[test]
fn begin_then_rollback_makes_two_calls() {
    let client = Recorder::new();
    let tx = open(&client).unwrap();
    assert_eq!(rollback(tx), Ok(()));
    assert_eq!(
        client.seen(),
        vec![
            Seen::RawBatch(vec![Statement::new("BEGIN")]),
            Seen::Execute(Statement::new("ROLLBACK")),
        ]
    );
}

#[test]
fn statements_arrive_in_the_order_executed() {
    let client = Recorder::new();
    let tx = open(&client).unwrap();
    let texts = ["SELECT 3", "SELECT 1", "SELECT 2", "SELECT 1"];
    for (i, text) in texts.iter().enumerate() {
        assert_eq!(execute(&tx, Statement::new(text)), Ok(i + 1));
    }
    let mut expected = vec![Seen::RawBatch(vec![Statement::new("BEGIN")])];
    for text in texts.iter() {
        expected.push(Seen::Execute(Statement::new(text)));
    }
    assert_eq!(client.seen(), expected);
}

#[test]
fn refused_begin_gives_no_handle() {
    let client = Recorder::refusing(vec![0]);
    let opened = open(&client);
    assert_eq!(opened.err(), Some("call 0 refused".to_string()));
    assert_eq!(client.seen(), vec![Seen::RawBatch(vec![Statement::new("BEGIN")])]);
}

#[test]
fn failed_statement_then_commit() {
    let client = Recorder::refusing(vec![1]);
    let tx = open(&client).unwrap();
    assert_eq!(execute(&tx, Statement::new("SELECT 1")), Err("call 1 refused".to_string()));
    // The handle is as usable as before: more statements, and either ending.
    assert_eq!(execute(&tx, Statement::new("SELECT 2")), Ok(2));
    assert_eq!(commit(tx), Ok(()));
    assert_eq!(
        client.seen(),
        vec![
            Seen::RawBatch(vec![Statement::new("BEGIN")]),
            Seen::Execute(Statement::new("SELECT 1")),
            Seen::Execute(Statement::new("SELECT 2")),
            Seen::Execute(Statement::new("COMMIT")),
        ]
    );
}

#[test]
fn failed_commit_returns_the_error() {
    let client = Recorder::refusing(vec![1]);
    let tx = open(&client).unwrap();
    assert_eq!(commit(tx), Err("call 1 refused".to_string()));
    assert_eq!(
        client.seen(),
        vec![
            Seen::RawBatch(vec![Statement::new("BEGIN")]),
            Seen::Execute(Statement::new("COMMIT")),
        ]
    );
}

#[test]
fn failed_rollback_returns_the_error() {
    let client = Recorder::refusing(vec![1]);
    let tx = open(&client).unwrap();
    assert_eq!(rollback(tx), Err("call 1 refused".to_string()));
    assert_eq!(
        client.seen(),
        vec![
            Seen::RawBatch(vec![Statement::new("BEGIN")]),
            Seen::Execute(Statement::new("ROLLBACK")),
        ]
    );
}

#[test]
fn dropped_handle_sends_nothing() {
    let client = Recorder::new();
    let tx = open(&client).unwrap();
    assert_eq!(execute(&tx, Statement::new("SELECT 1")), Ok(1));
    drop(tx);
    assert_eq!(
        client.seen(),
        vec![
            Seen::RawBatch(vec![Statement::new("BEGIN")]),
            Seen::Execute(Statement::new("SELECT 1")),
        ]
    );
}

#[test]
fn handle_stays_on_its_client() {
    let first = Recorder::new();
    let second = Recorder::new();
    let tx = open(&first).unwrap();
    assert!(std::ptr::eq(tx.client(), &first));
    assert!(!std::ptr::eq(tx.client(), &second));

    let (client, call) = tx.execute(Statement::new("SELECT 1"));
    assert!(std::ptr::eq(client, &first));
    assert_eq!(call, Execute { statement: Statement::new("SELECT 1") });

    let (client, call) = tx.rollback();
    assert!(std::ptr::eq(client, &first));
    assert_eq!(call, Execute { statement: Statement::new("ROLLBACK") });
    assert!(second.seen().is_empty());
}

#[test]
fn commit_hands_out_commit() {
    let client = Recorder::new();
    let tx = open(&client).unwrap();
    let (on, call) = tx.commit();
    assert!(std::ptr::eq(on, &client));
    assert_eq!(call.statement.sql(), "COMMIT");
    assert!(call.statement.args().is_empty());
}

#[test]
fn execute_keeps_text_and_arguments() {
    let client = Recorder::new();
    let tx = open(&client).unwrap();
    let (_, call) = tx.execute(Statement::with_args(
        "UPDATE t SET a = ? WHERE b = ?",
        vec!["x".to_string(), "y".to_string()],
    ));
    assert_eq!(call.statement.sql(), "UPDATE t SET a = ? WHERE b = ?");
    assert_eq!(call.statement.args(), &vec!["x".to_string(), "y".to_string()]);
}

#[test]
fn executed_returns_the_reply() {
    let client = Recorder::new();
    let tx = open(&client).unwrap();
    assert_eq!(tx.executed::<u32, String>(Ok(7)), Ok(7));
    assert_eq!(tx.executed::<u32, String>(Err("no".to_string())), Err("no".to_string()));
}

#[test]
fn resolved_drops_the_result_set() {
    assert_eq!(resolved::<Vec<u8>, String>(Ok(vec![1, 2, 3])), Ok(()));
    assert_eq!(resolved::<Vec<u8>, String>(Err("lost".to_string())), Err("lost".to_string()));
}

#[test]
fn new_follows_the_reply() {
    let client = Recorder::new();
    let opened = Transaction::new(&client, Ok::<(), String>(()));
    assert!(std::ptr::eq(opened.unwrap().client(), &client));
    let refused = Transaction::new(&client, Err::<(), String>("down".to_string()));
    assert_eq!(refused.err(), Some("down".to_string()));
    // Neither sent anything by itself.
    assert!(client.seen().is_empty());
}

#[test]
fn errors_pass_through_as_they_are() {
    let client = Recorder::new();
    let cause = anyhow::Error::msg("connection reset");
    let refused = Transaction::new(&client, Err::<(), anyhow::Error>(cause));
    let error = refused.err().unwrap();
    assert_eq!(error.to_string(), "connection reset");

    let outcome = resolved::<(), anyhow::Error>(Err(anyhow::Error::msg("commit lost")));
    assert_eq!(outcome.unwrap_err().to_string(), "commit lost");
}
