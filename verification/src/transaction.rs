//! The transaction handle.
//!
//! Every operation is split where the connection comes in. One function says
//! which call is to be made, and on which client; the caller makes it and
//! hands the client's reply to a second function, which says what the
//! operation returns.

use vstd::prelude::*;
use crate::request::{Call, Execute, RawBatch};
use crate::statement::{plain, Statement, StatementView};

verus! {

/// The statement that opens a transaction.
pub open spec fn begin_statement() -> StatementView {
    plain("BEGIN"@)
}

/// The statement that makes a transaction's effects permanent.
pub open spec fn commit_statement() -> StatementView {
    plain("COMMIT"@)
}

/// The statement that undoes a transaction's effects.
pub open spec fn rollback_statement() -> StatementView {
    plain("ROLLBACK"@)
}

/// The batch that opens a transaction: `BEGIN` and nothing else.
pub open spec fn begin_batch() -> Seq<StatementView> {
    seq![begin_statement()]
}

/// What `commit` and `rollback` return for a reply of the client: success
/// carries no value, and an error is the client's own.
pub open spec fn resolution<R, E>(reply: Result<R, E>) -> Result<(), E> {
    match reply {
        Ok(_) => Ok(()),
        Err(e) => Err(e),
    }
}

/// An open transaction on a client.
///
/// A handle exists from the moment the client has acknowledged `BEGIN` until
/// `commit` or `rollback` takes it. It borrows the client and never owns it.
/// Dropping a handle sends nothing: the transaction then stays as the
/// connection leaves it.
pub struct Transaction<'a, Client: ?Sized> {
    client: &'a Client,
}

/// The call that opens a transaction. It is made before a handle exists, and
/// its reply goes to `Transaction::new`.
#[must_use]
pub fn begin() -> (batch: RawBatch)
    ensures
        batch@ == Call::RawBatch(begin_batch()),
{
    let mut statements: Vec<Statement> = Vec::new();
    statements.push(Statement::new("BEGIN"));
    assert(statements.deep_view() =~= begin_batch());
    RawBatch { statements }
}

/// What `commit` or `rollback` returns to its caller, given the client's reply
/// to the call. The handle is gone either way: after an error the same
/// transaction cannot be resolved a second time.
pub fn resolved<R, E>(reply: Result<R, E>) -> (outcome: Result<(), E>)
    ensures
        outcome == resolution(reply),
{
    match reply {
        Ok(_) => Ok(()),
        Err(e) => Err(e),
    }
}

impl<'a, Client: ?Sized> Transaction<'a, Client> {
    /// The client this handle was opened on, as contracts name it.
    pub closed spec fn spec_client(&self) -> &'a Client {
        self.client
    }

    /// The handle on `client`, given the client's reply to the call of
    /// `begin`.
    ///
    /// A handle comes out exactly when the client accepted the batch. An error
    /// of the client is returned as it is, and nothing is tried again.
    pub fn new<E>(client: &'a Client, begun: Result<(), E>) -> (opened: Result<Self, E>)
        ensures
            match begun {
                Ok(_) => opened is Ok && opened->Ok_0.client() == client,
                Err(e) => opened == Err::<Self, E>(e),
            },
    {
        match begun {
            Ok(_) => Ok(Transaction { client }),
            Err(e) => Err(e),
        }
    }

    /// The client this handle was opened on.
    #[verifier::when_used_as_spec(spec_client)]
    pub fn client(&self) -> (client: &'a Client)
        ensures
            client == self.spec_client(),
    {
        self.client
    }

    /// Takes a statement for this transaction: the call that runs it, as it
    /// was given, and the client to make the call on. The reply goes to
    /// `executed`.
    #[must_use]
    pub fn execute(&self, stmt: Statement) -> (send: (&'a Client, Execute))
        ensures
            send.0 == self.client(),
            send.1.statement == stmt,
    {
        (self.client, Execute { statement: stmt })
    }

    /// What `execute` returns to its caller: the client's reply, untouched.
    /// After an error the transaction is as open as before; nothing is rolled
    /// back on the caller's behalf.
    pub fn executed<R, E>(&self, reply: Result<R, E>) -> (outcome: Result<R, E>)
        ensures
            outcome == reply,
    {
        reply
    }

    /// Ends the transaction by `COMMIT`: the call that runs it, and the client
    /// to make the call on. The reply goes to `resolved`.
    ///
    /// The handle is spent by asking, whether or not the call is then made,
    /// answered, or accepted. To try again is to open another transaction.
    #[must_use]
    pub fn commit(self) -> (send: (&'a Client, Execute))
        ensures
            send.0 == self.client(),
            send.1@ == Call::Execute(commit_statement()),
    {
        (self.client, Execute { statement: Statement::new("COMMIT") })
    }

    /// Ends the transaction by `ROLLBACK`: the call that runs it, and the
    /// client to make the call on. The reply goes to `resolved`.
    ///
    /// The handle is spent by asking, as it is by `commit`.
    #[must_use]
    pub fn rollback(self) -> (send: (&'a Client, Execute))
        ensures
            send.0 == self.client(),
            send.1@ == Call::Execute(rollback_statement()),
    {
        (self.client, Execute { statement: Statement::new("ROLLBACK") })
    }
}

} // verus!
