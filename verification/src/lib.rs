//! The protocol of an interactive transaction, apart from the connection.
//!
//! A transaction is opened by a batch holding the one statement `BEGIN`, carries
//! any number of statements, and ends with exactly one `COMMIT` or `ROLLBACK`.
//! This crate decides what is sent and what each reply means; it performs no
//! I/O. The caller owns the connection, sends what the handle hands out, and
//! gives the replies back.
//!
//! - `statement`: the commands that are sent.
//! - `request`: the two kinds of call that a client takes.
//! - `transaction`: the handle and its operations.
//! - `lifecycle`: the state machine that the operations follow, and what holds
//!   of every sequence of them.

pub mod lifecycle;
pub mod request;
pub mod statement;
pub mod transaction;

pub use request::{Call, Execute, RawBatch};
pub use statement::{Statement, StatementView};
pub use transaction::{begin, resolved, Transaction};
