//! The calls that a transaction makes on its client.
//!
//! A client offers two operations: one takes a batch of statements, the other
//! a single statement. There is one type for each, so that what a handle hands
//! out says by its type which operation it is for.

use vstd::prelude::*;
use crate::statement::{Statement, StatementView};

verus! {

/// One call, as the client receives it.
pub enum Call {
    /// The batch operation, with the statements of the batch in order.
    RawBatch(Seq<StatementView>),
    /// The single-statement operation, with its statement.
    Execute(StatementView),
}

/// A call of the client's batch operation.
#[derive(Debug, PartialEq, Eq)]
pub struct RawBatch {
    /// The statements of the batch, in order.
    pub statements: Vec<Statement>,
}

impl View for RawBatch {
    type V = Call;

    open spec fn view(&self) -> Call {
        Call::RawBatch(self.statements.deep_view())
    }
}

/// A call of the client's single-statement operation.
#[derive(Debug, PartialEq, Eq)]
pub struct Execute {
    /// The statement to run.
    pub statement: Statement,
}

impl View for Execute {
    type V = Call;

    open spec fn view(&self) -> Call {
        Call::Execute(self.statement@)
    }
}

} // verus!
