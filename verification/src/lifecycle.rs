//! The lifecycle of one transaction as a state machine, and what follows from
//! it for every caller.
//!
//! A caller asks for operations one after another: `begin` with
//! `Transaction::new`, then `execute`, `commit` or `rollback` on the handle.
//! Ownership decides which operation can be asked for when: there is no handle
//! before the client has accepted `BEGIN`, `execute` borrows the handle, and
//! `commit` and `rollback` take it away. `permitted` writes that rule down,
//! `call_of` gives the call that the contract of each operation fixes, and
//! `phase_after` says what the reply changes.
//!
//! The first lemmas bind each operation of the handle to the machine: what
//! the operation hands out is what the machine says. The others hold of every
//! sequence of operations that the rule admits.
//!
//! The machine follows a single transaction. That a client carries one
//! transaction at a time is left to the caller; nothing here enforces it.

use vstd::prelude::*;
use crate::request::{Call, Execute, RawBatch};
use crate::statement::{Statement, StatementView};
use crate::transaction::{
    begin, begin_batch, begin_statement, commit_statement, rollback_statement, Transaction,
};

verus! {

/// Where a transaction stands.
pub enum Phase {
    /// No handle exists: `BEGIN` was not sent yet, or the client refused it.
    Absent,
    /// The client has accepted `BEGIN`, and the handle is in the caller's hands.
    Open,
    /// `COMMIT` or `ROLLBACK` was asked for. The handle is gone for good.
    Resolved,
}

/// What a caller can ask for.
pub enum Operation {
    /// `begin`, followed by `Transaction::new` on the reply.
    Begin,
    /// `execute` with this statement, followed by `executed` on the reply.
    Execute(StatementView),
    /// `commit`, followed by `resolved` on the reply.
    Commit,
    /// `rollback`, followed by `resolved` on the reply.
    Rollback,
}

/// An operation together with the client's answer to the call it made.
pub struct Exchange {
    /// What the caller asked for.
    pub operation: Operation,
    /// Whether the client replied with success.
    pub accepted: bool,
}

/// Whether `operation` can be asked for in `phase`.
pub open spec fn permitted(phase: Phase, operation: Operation) -> bool {
    match operation {
        Operation::Begin => phase is Absent,
        _ => phase is Open,
    }
}

/// The one call that `operation` makes.
pub open spec fn call_of(operation: Operation) -> Call {
    match operation {
        Operation::Begin => Call::RawBatch(begin_batch()),
        Operation::Execute(stmt) => Call::Execute(stmt),
        Operation::Commit => Call::Execute(commit_statement()),
        Operation::Rollback => Call::Execute(rollback_statement()),
    }
}

/// The phase that `exchange` leaves behind when it starts in `phase`.
///
/// Only the reply to `BEGIN` matters. A statement that failed leaves the
/// transaction open, and a resolution that failed has resolved it all the same.
pub open spec fn phase_after(phase: Phase, exchange: Exchange) -> Phase {
    if !permitted(phase, exchange.operation) {
        phase
    } else {
        match exchange.operation {
            Operation::Begin => if exchange.accepted {
                Phase::Open
            } else {
                Phase::Absent
            },
            Operation::Execute(_) => Phase::Open,
            Operation::Commit | Operation::Rollback => Phase::Resolved,
        }
    }
}

/// The phase after the first `n` exchanges of `script`, starting in `start`.
pub open spec fn phase_at(start: Phase, script: Seq<Exchange>, n: int) -> Phase
    decreases n,
{
    if n <= 0 {
        start
    } else {
        phase_after(phase_at(start, script, n - 1), script[n - 1])
    }
}

/// Whether every operation of `script` can be asked for when its turn comes.
pub open spec fn in_order(start: Phase, script: Seq<Exchange>) -> bool {
    forall|i: int|
        0 <= i < script.len() ==> permitted(
            #[trigger] phase_at(start, script, i),
            script[i].operation,
        )
}

/// The calls that the client receives in the course of `script`.
pub open spec fn calls(script: Seq<Exchange>) -> Seq<Call> {
    script.map_values(|exchange: Exchange| call_of(exchange.operation))
}

/// A transaction that is opened and then carries `stmts`, each accepted.
pub open spec fn opened_with(stmts: Seq<StatementView>) -> Seq<Exchange> {
    seq![Exchange { operation: Operation::Begin, accepted: true }] + stmts.map_values(
        |stmt: StatementView| Exchange { operation: Operation::Execute(stmt), accepted: true },
    )
}

/// `begin` makes the call of `Operation::Begin`.
pub proof fn lemma_begin_makes_its_call(batch: RawBatch)
    requires
        call_ensures(begin, (), batch),
    ensures
        batch@ == call_of(Operation::Begin),
{
}

/// `Transaction::new` gives a handle exactly when the reply to `BEGIN` takes
/// the machine from `Absent` to `Open`, and the handle is on the client given.
pub proof fn lemma_new_opens_when_accepted<'a, Client: ?Sized, E>(
    client: &'a Client,
    begun: Result<(), E>,
    opened: Result<Transaction<'a, Client>, E>,
)
    requires
        call_ensures(Transaction::<'a, Client>::new::<E>, (client, begun), opened),
    ensures
        opened is Ok <==> phase_after(
            Phase::Absent,
            Exchange { operation: Operation::Begin, accepted: begun is Ok },
        ) is Open,
        opened is Ok ==> opened->Ok_0.client() == client,
{
}

/// `execute` makes the call of `Operation::Execute` with the statement it was
/// given, on the client of the handle.
pub proof fn lemma_execute_makes_its_call<'a, Client: ?Sized>(
    tx: &Transaction<'a, Client>,
    stmt: Statement,
    send: (&'a Client, Execute),
)
    requires
        call_ensures(Transaction::<'a, Client>::execute, (tx, stmt), send),
    ensures
        send.0 == tx.client(),
        send.1@ == call_of(Operation::Execute(stmt@)),
{
}

/// `commit` makes the call of `Operation::Commit`, on the client of the
/// handle.
pub proof fn lemma_commit_makes_its_call<'a, Client: ?Sized>(
    tx: Transaction<'a, Client>,
    send: (&'a Client, Execute),
)
    requires
        call_ensures(Transaction::<'a, Client>::commit, (tx,), send),
    ensures
        send.0 == tx.client(),
        send.1@ == call_of(Operation::Commit),
{
}

/// `rollback` makes the call of `Operation::Rollback`, on the client of the
/// handle.
pub proof fn lemma_rollback_makes_its_call<'a, Client: ?Sized>(
    tx: Transaction<'a, Client>,
    send: (&'a Client, Execute),
)
    requires
        call_ensures(Transaction::<'a, Client>::rollback, (tx,), send),
    ensures
        send.0 == tx.client(),
        send.1@ == call_of(Operation::Rollback),
{
}

/// The three statements that the protocol writes itself are three different
/// statements.
pub proof fn lemma_protocol_statements_differ()
    ensures
        begin_statement() != commit_statement(),
        begin_statement() != rollback_statement(),
        commit_statement() != rollback_statement(),
{
    reveal_strlit("BEGIN");
    reveal_strlit("COMMIT");
    reveal_strlit("ROLLBACK");
    assert("BEGIN"@.len() == 5);
    assert("COMMIT"@.len() == 6);
    assert("ROLLBACK"@.len() == 8);
}

/// Every operation makes one call, and the calls reach the client in the
/// order in which the operations were asked for: nothing is sent twice, held
/// back, or sent on the caller's behalf.
pub proof fn lemma_one_call_for_each_operation(script: Seq<Exchange>)
    ensures
        calls(script).len() == script.len(),
        forall|i: int|
            0 <= i < script.len() ==> #[trigger] calls(script)[i] == call_of(script[i].operation),
{
}

/// Statements reach the client in the order in which they were executed,
/// after one opening batch and no other: the client receives the batch
/// `BEGIN` first and then, call for call, the statements as they were given.
/// The transaction is open at the end.
pub proof fn lemma_statements_arrive_in_order(stmts: Seq<StatementView>)
    ensures
        in_order(Phase::Absent, opened_with(stmts)),
        phase_at(Phase::Absent, opened_with(stmts), opened_with(stmts).len() as int) is Open,
        calls(opened_with(stmts)) == seq![Call::RawBatch(begin_batch())] + stmts.map_values(
            |stmt: StatementView| Call::Execute(stmt),
        ),
{
    let script = opened_with(stmts);
    assert forall|n: int| 1 <= n <= script.len() implies #[trigger] phase_at(
        Phase::Absent,
        script,
        n,
    ) is Open by {
        lemma_open_while_executing(stmts, n);
    }
    assert(calls(script) =~= seq![Call::RawBatch(begin_batch())] + stmts.map_values(
        |stmt: StatementView| Call::Execute(stmt),
    ));
}

proof fn lemma_open_while_executing(stmts: Seq<StatementView>, n: int)
    requires
        1 <= n <= opened_with(stmts).len(),
    ensures
        phase_at(Phase::Absent, opened_with(stmts), n) is Open,
    decreases n,
{
    let script = opened_with(stmts);
    if n > 1 {
        lemma_open_while_executing(stmts, n - 1);
        assert(script[n - 1].operation is Execute);
    } else {
        assert(phase_at(Phase::Absent, script, 0) is Absent);
        assert(script[0].operation is Begin && script[0].accepted);
    }
}

/// A transaction is opened once: after the `BEGIN` that the client accepted,
/// no further opening batch is sent.
pub proof fn lemma_opened_once(script: Seq<Exchange>, i: int, j: int)
    requires
        in_order(Phase::Absent, script),
        0 <= i < j < script.len(),
        script[i].operation is Begin,
        script[i].accepted,
    ensures
        !(script[j].operation is Begin),
        calls(script)[j] is Execute,
{
    lemma_never_absent_again(script, i, j);
    assert(permitted(phase_at(Phase::Absent, script, j), script[j].operation));
}

proof fn lemma_never_absent_again(script: Seq<Exchange>, i: int, n: int)
    requires
        in_order(Phase::Absent, script),
        0 <= i < n <= script.len(),
        script[i].operation is Begin,
        script[i].accepted,
    ensures
        !(phase_at(Phase::Absent, script, n) is Absent),
    decreases n,
{
    if n == i + 1 {
        assert(permitted(phase_at(Phase::Absent, script, i), script[i].operation));
    } else {
        lemma_never_absent_again(script, i, n - 1);
    }
}

/// A transaction is resolved at most once, and nothing comes after: in every
/// sequence of operations that can be asked for, a `commit` or `rollback` is
/// the last one, whatever the client replied to it.
pub proof fn lemma_resolution_is_final(start: Phase, script: Seq<Exchange>, i: int)
    requires
        in_order(start, script),
        0 <= i < script.len(),
        script[i].operation is Commit || script[i].operation is Rollback,
    ensures
        i == script.len() - 1,
        phase_at(start, script, script.len() as int) is Resolved,
        forall|operation: Operation| !permitted(Phase::Resolved, operation),
{
    assert(permitted(phase_at(start, script, i), script[i].operation));
    assert(phase_at(start, script, i + 1) is Resolved);
    if i + 1 < script.len() {
        assert(permitted(phase_at(start, script, i + 1), script[i + 1].operation));
    }
}

/// Until the client has accepted `BEGIN` there is no handle, and without a
/// handle the client receives nothing but opening batches: a refused `BEGIN`
/// is followed by no statement, no `COMMIT` and no `ROLLBACK`.
pub proof fn lemma_nothing_without_a_handle(script: Seq<Exchange>, n: int)
    requires
        in_order(Phase::Absent, script),
        0 <= n <= script.len(),
        forall|j: int| 0 <= j < n ==> !(#[trigger] script[j]).accepted,
    ensures
        phase_at(Phase::Absent, script, n) is Absent,
        forall|j: int| 0 <= j < n ==> #[trigger] calls(script)[j] == Call::RawBatch(begin_batch()),
        n < script.len() ==> calls(script)[n] == Call::RawBatch(begin_batch()),
    decreases n,
{
    if n > 0 {
        lemma_nothing_without_a_handle(script, n - 1);
    }
    if n < script.len() {
        assert(permitted(phase_at(Phase::Absent, script, n), script[n].operation));
    }
}

/// A statement leaves the transaction open whatever the client replied to it,
/// an error included. Either resolution can be asked for next, `commit` then
/// sends `COMMIT` and `rollback` sends `ROLLBACK`, and the call that follows
/// the statement is that of the next operation: nothing is rolled back on the
/// caller's behalf.
pub proof fn lemma_statement_leaves_open(start: Phase, script: Seq<Exchange>, i: int)
    requires
        in_order(start, script),
        0 <= i < script.len(),
        script[i].operation is Execute,
    ensures
        phase_at(start, script, i + 1) is Open,
        permitted(phase_at(start, script, i + 1), Operation::Commit),
        permitted(phase_at(start, script, i + 1), Operation::Rollback),
        call_of(Operation::Commit) == Call::Execute(commit_statement()),
        call_of(Operation::Rollback) == Call::Execute(rollback_statement()),
        call_of(Operation::Commit) != call_of(Operation::Rollback),
        i + 1 < script.len() ==> calls(script)[i + 1] == call_of(script[i + 1].operation),
{
    assert(permitted(phase_at(start, script, i), script[i].operation));
    lemma_protocol_statements_differ();
}

} // verus!
