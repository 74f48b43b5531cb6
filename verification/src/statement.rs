//! Statements: the text of a database command and its positional arguments.

use vstd::prelude::*;

verus! {

/// The value of a statement: what contracts say about a `Statement`, they say
/// about this.
pub struct StatementView {
    /// The command text.
    pub sql: Seq<char>,
    /// The positional arguments, in order.
    pub args: Seq<Seq<char>>,
}

/// One database command: its text, and the positional arguments bound to it.
///
/// The transaction protocol never looks inside a statement; it hands each one
/// on as it was given.
#[derive(Clone, Debug, PartialEq, Eq)]
pub struct Statement {
    sql: String,
    args: Vec<String>,
}

impl View for Statement {
    type V = StatementView;

    closed spec fn view(&self) -> StatementView {
        StatementView { sql: self.sql@, args: self.args.deep_view() }
    }
}

impl DeepView for Statement {
    type V = StatementView;

    open spec fn deep_view(&self) -> StatementView {
        self@
    }
}

/// The statement that consists of `sql` alone.
pub open spec fn plain(sql: Seq<char>) -> StatementView {
    StatementView { sql, args: Seq::empty() }
}

impl Statement {
    /// A statement without arguments.
    pub fn new(sql: &str) -> (stmt: Statement)
        ensures
            stmt@ == plain(sql@),
    {
        let stmt = Statement { sql: sql.to_owned(), args: Vec::new() };
        assert(stmt.args.deep_view() =~= Seq::<Seq<char>>::empty());
        stmt
    }

    /// A statement with positional arguments, bound in the order given.
    pub fn with_args(sql: &str, args: Vec<String>) -> (stmt: Statement)
        ensures
            stmt@.sql == sql@,
            stmt@.args == args.deep_view(),
    {
        Statement { sql: sql.to_owned(), args }
    }

    /// The command text.
    pub fn sql(&self) -> (sql: &str)
        ensures
            sql@ == self@.sql,
    {
        self.sql.as_str()
    }

    /// The positional arguments, in order.
    pub fn args(&self) -> (args: &Vec<String>)
        ensures
            args.deep_view() == self@.args,
    {
        &self.args
    }
}

impl<'a> From<&'a str> for Statement {
    /// Plain text stands for the statement without arguments.
    fn from(sql: &'a str) -> (stmt: Statement)
        ensures
            stmt@ == plain(sql@),
    {
        Statement::new(sql)
    }
}

/// Two statements of one value need not be one and the same, so the
/// conversion is not bound to a result chosen beforehand: what `from` returns
/// is known by its value, through the contract on `from` itself.
impl<'a> vstd::std_specs::convert::FromSpecImpl<&'a str> for Statement {
    open spec fn obeys_from_spec() -> bool {
        false
    }

    open spec fn from_spec(sql: &'a str) -> Statement {
        choose|stmt: Statement| stmt@ == plain(sql@)
    }
}

} // verus!
