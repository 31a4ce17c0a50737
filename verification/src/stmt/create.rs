//! The CREATE statement.

use crate::data::create::CreateData;
use crate::stmt::clause::{flag_text, push_flag, push_tail, push_target, tail_text, target_text};
use crate::stmt::StmtBridge;
use crate::value::duration::Duration;
use crate::value::field::Output;
use crate::value::table::SurrrealTable;
use vstd::prelude::*;

verus! {

/// What a CREATE statement holds.
#[derive(Clone, Debug, PartialEq)]
pub struct CreateStatement {
    pub only: bool,
    pub what: Option<SurrrealTable>,
    pub data: Option<CreateData>,
    pub output: Option<Output>,
    pub timeout: Option<Duration>,
    pub parallel: bool,
}

impl CreateStatement {
    /// The statement with nothing set.
    pub open spec fn empty() -> CreateStatement {
        CreateStatement { only: false, what: None, data: None, output: None, timeout: None, parallel: false }
    }

    /// The data clause after a space; nothing where no data is set.
    pub open spec fn data_clause(self) -> Seq<char> {
        match self.data {
            Some(d) => " "@ + d.text(),
            None => Seq::empty(),
        }
    }

    /// The statement as text: `CREATE`, `ONLY` where it is set, the target,
    /// the data, and the tail.
    pub open spec fn text(self) -> Seq<char> {
        "CREATE"@ + flag_text(self.only, " ONLY"@) + " "@ + target_text(self.what)
            + self.data_clause() + tail_text(self.output, self.timeout, self.parallel)
    }

    pub fn to_string(&self) -> (out: String)
        ensures
            out@ == self.text(),
    {
        let mut out = String::from_str("CREATE");
        push_flag(&mut out, self.only, " ONLY");
        out.append(" ");
        push_target(&mut out, &self.what);
        match &self.data {
            Some(d) => {
                let d = d.to_string();
                out.append(" ");
                out.append(d.as_str());
            },
            None => {},
        }
        assert(out@ =~= "CREATE"@ + flag_text(self.only, " ONLY"@) + " "@ + target_text(self.what)
            + self.data_clause());
        push_tail(&mut out, &self.output, &self.timeout, self.parallel);
        out
    }
}

/// The builder of a CREATE statement.
#[derive(Clone, Debug, PartialEq)]
pub struct CreateStmt {
    origin: CreateStatement,
}

impl View for CreateStmt {
    type V = CreateStatement;

    closed spec fn view(&self) -> CreateStatement {
        self.origin
    }
}

impl CreateStmt {
    pub fn new() -> (s: CreateStmt)
        ensures
            s@ == CreateStatement::empty(),
    {
        CreateStmt { origin: CreateStatement { only: false, what: None, data: None, output: None, timeout: None, parallel: false } }
    }

    /// The statement with `table` as its target.
    pub fn table(self, table: SurrrealTable) -> (s: CreateStmt)
        ensures
            s@ == (CreateStatement { what: Some(table), ..self@ }),
    {
        CreateStmt { origin: CreateStatement { what: Some(table), ..self.origin } }
    }

    /// The statement, marked as one that yields a single record.
    pub fn only(self) -> (s: CreateStmt)
        ensures
            s@ == (CreateStatement { only: true, ..self@ }),
    {
        CreateStmt { origin: CreateStatement { only: true, ..self.origin } }
    }

    /// The statement with `data` as its data.
    pub fn data(self, data: CreateData) -> (s: CreateStmt)
        ensures
            s@ == (CreateStatement { data: Some(data), ..self@ }),
    {
        CreateStmt { origin: CreateStatement { data: Some(data), ..self.origin } }
    }

    /// The statement's tail: what it returns.
    pub fn output(self, output: Output) -> (s: CreateStmt)
        ensures
            s@ == (CreateStatement { output: Some(output), ..self@ }),
    {
        CreateStmt { origin: CreateStatement { output: Some(output), ..self.origin } }
    }

    /// The statement with a limit on the time it may run.
    pub fn timeout(self, timeout: Duration) -> (s: CreateStmt)
        ensures
            s@ == (CreateStatement { timeout: Some(timeout), ..self@ }),
    {
        CreateStmt { origin: CreateStatement { timeout: Some(timeout), ..self.origin } }
    }

    /// The statement, marked as one that may run in parallel.
    pub fn parallel(self) -> (s: CreateStmt)
        ensures
            s@ == (CreateStatement { parallel: true, ..self@ }),
    {
        CreateStmt { origin: CreateStatement { parallel: true, ..self.origin } }
    }

    pub fn to_string(&self) -> (out: String)
        ensures
            out@ == self@.text(),
    {
        self.origin.to_string()
    }
}

impl StmtBridge for CreateStmt {
    type OriginType = CreateStatement;

    open spec fn held(&self) -> CreateStatement {
        self@
    }

    fn to_origin(self) -> (origin: CreateStatement) {
        self.origin
    }

    fn origin(&self) -> (origin: &CreateStatement) {
        &self.origin
    }
}

/// Rendering changes nothing and depends on nothing but the statement: two
/// texts of one statement, or of two builders that hold the same statement,
/// are the same text.
pub proof fn law_create_text_is_settled(a: CreateStmt, b: CreateStmt, first: Seq<char>, second: Seq<char>)
    requires
        a@ == b@,
        first == a@.text(),
        second == b@.text(),
    ensures
        first == second,
{
}

} // verus!
