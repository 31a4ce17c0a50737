//! The DELETE statement.

use crate::value::cond::Cond;
use crate::stmt::clause::{flag_text, push_flag, push_tail, push_target, tail_text, target_text};
use crate::stmt::StmtBridge;
use crate::value::duration::Duration;
use crate::value::field::Output;
use crate::value::table::SurrrealTable;
use vstd::prelude::*;

verus! {

/// What a DELETE statement holds.
#[derive(Clone, Debug, PartialEq)]
pub struct DeleteStatement {
    pub only: bool,
    pub what: Option<SurrrealTable>,
    pub cond: Option<Cond>,
    pub output: Option<Output>,
    pub timeout: Option<Duration>,
    pub parallel: bool,
}

impl DeleteStatement {
    /// The statement with nothing set.
    pub open spec fn empty() -> DeleteStatement {
        DeleteStatement { only: false, what: None, cond: None, output: None, timeout: None, parallel: false }
    }

    /// The WHERE clause after a space; nothing where no condition is set.
    pub open spec fn cond_clause(self) -> Seq<char> {
        match self.cond {
            Some(c) => " "@ + c.text(),
            None => Seq::empty(),
        }
    }

    /// The statement as text: `DELETE`, `ONLY` where it is set, the target,
    /// the condition, and the tail.
    pub open spec fn text(self) -> Seq<char> {
        "DELETE"@ + flag_text(self.only, " ONLY"@) + " "@ + target_text(self.what)
            + self.cond_clause() + tail_text(self.output, self.timeout, self.parallel)
    }

    pub fn to_string(&self) -> (out: String)
        ensures
            out@ == self.text(),
    {
        let mut out = String::from_str("DELETE");
        push_flag(&mut out, self.only, " ONLY");
        out.append(" ");
        push_target(&mut out, &self.what);
        match &self.cond {
            Some(c) => {
                let c = c.to_string();
                out.append(" ");
                out.append(c.as_str());
            },
            None => {},
        }
        assert(out@ =~= "DELETE"@ + flag_text(self.only, " ONLY"@) + " "@ + target_text(self.what)
            + self.cond_clause());
        push_tail(&mut out, &self.output, &self.timeout, self.parallel);
        out
    }
}

/// The builder of a DELETE statement.
#[derive(Clone, Debug, PartialEq)]
pub struct DeleteStmt {
    origin: DeleteStatement,
}

impl View for DeleteStmt {
    type V = DeleteStatement;

    closed spec fn view(&self) -> DeleteStatement {
        self.origin
    }
}

impl DeleteStmt {
    pub fn new() -> (s: DeleteStmt)
        ensures
            s@ == DeleteStatement::empty(),
    {
        DeleteStmt { origin: DeleteStatement { only: false, what: None, cond: None, output: None, timeout: None, parallel: false } }
    }

    /// The statement, marked as one that yields a single record.
    pub fn only(self) -> (s: DeleteStmt)
        ensures
            s@ == (DeleteStatement { only: true, ..self@ }),
    {
        DeleteStmt { origin: DeleteStatement { only: true, ..self.origin } }
    }

    /// The statement with `table` as its target.
    pub fn table(self, table: SurrrealTable) -> (s: DeleteStmt)
        ensures
            s@ == (DeleteStatement { what: Some(table), ..self@ }),
    {
        DeleteStmt { origin: DeleteStatement { what: Some(table), ..self.origin } }
    }

    /// The statement with `cond` as its WHERE clause.
    pub fn cond(self, cond: Cond) -> (s: DeleteStmt)
        ensures
            s@ == (DeleteStatement { cond: Some(cond), ..self@ }),
    {
        DeleteStmt { origin: DeleteStatement { cond: Some(cond), ..self.origin } }
    }

    /// The statement's tail: what it returns.
    pub fn output(self, output: Output) -> (s: DeleteStmt)
        ensures
            s@ == (DeleteStatement { output: Some(output), ..self@ }),
    {
        DeleteStmt { origin: DeleteStatement { output: Some(output), ..self.origin } }
    }

    /// The statement with a limit on the time it may run.
    pub fn timeout(self, timeout: Duration) -> (s: DeleteStmt)
        ensures
            s@ == (DeleteStatement { timeout: Some(timeout), ..self@ }),
    {
        DeleteStmt { origin: DeleteStatement { timeout: Some(timeout), ..self.origin } }
    }

    /// The statement, marked as one that may run in parallel.
    pub fn parallel(self) -> (s: DeleteStmt)
        ensures
            s@ == (DeleteStatement { parallel: true, ..self@ }),
    {
        DeleteStmt { origin: DeleteStatement { parallel: true, ..self.origin } }
    }

    pub fn to_string(&self) -> (out: String)
        ensures
            out@ == self@.text(),
    {
        self.origin.to_string()
    }
}

impl StmtBridge for DeleteStmt {
    type OriginType = DeleteStatement;

    open spec fn held(&self) -> DeleteStatement {
        self@
    }

    fn to_origin(self) -> (origin: DeleteStatement) {
        self.origin
    }

    fn origin(&self) -> (origin: &DeleteStatement) {
        &self.origin
    }
}

/// Rendering changes nothing and depends on nothing but the statement: two
/// texts of one statement, or of two builders that hold the same statement,
/// are the same text.
pub proof fn law_delete_text_is_settled(a: DeleteStmt, b: DeleteStmt, first: Seq<char>, second: Seq<char>)
    requires
        a@ == b@,
        first == a@.text(),
        second == b@.text(),
    ensures
        first == second,
{
}

} // verus!
