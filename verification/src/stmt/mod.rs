//! Statements: one builder for each kind, and the record each one fills.

pub mod clause;
pub mod create;
pub mod delete;
pub mod insert;
pub mod use_stmt;

pub use create::{CreateStatement, CreateStmt};
pub use delete::{DeleteStatement, DeleteStmt};
pub use insert::{InsertStatement, InsertStmt};
pub use use_stmt::{UseStatement, UseStmt};

use vstd::prelude::*;

verus! {

/// A builder that hands out the statement it has filled.
pub trait StmtBridge: Sized {
    type OriginType;

    /// The statement that the builder holds.
    spec fn held(&self) -> Self::OriginType;

    /// The statement, given away.
    fn to_origin(self) -> (origin: Self::OriginType)
        ensures
            origin == self.held(),
    ;

    /// The statement, lent.
    fn origin(&self) -> (origin: &Self::OriginType)
        ensures
            *origin == self.held(),
    ;
}

/// Where every statement starts.
pub struct Stmt;

impl Stmt {
    /// A USE statement with nothing set.
    pub fn use_stmt() -> (s: UseStmt)
        ensures
            s@ == UseStatement::empty(),
    {
        UseStmt::new()
    }

    /// A DELETE statement with nothing set.
    pub fn delete() -> (s: DeleteStmt)
        ensures
            s@ == DeleteStatement::empty(),
    {
        DeleteStmt::new()
    }

    /// A CREATE statement with nothing set.
    pub fn create() -> (s: CreateStmt)
        ensures
            s@ == CreateStatement::empty(),
    {
        CreateStmt::new()
    }
}

} // verus!
