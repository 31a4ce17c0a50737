//! The INSERT statement.

use crate::data::insert::InsertData;
use crate::data::set_field::SetField;
use crate::data::update::{assignments_text, render_assignments};
use crate::stmt::clause::{flag_text, named, named_text, push_flag, push_tail, tail_text};
use crate::stmt::StmtBridge;
use crate::value::duration::Duration;
use crate::value::field::Output;
use crate::value::table::SurrrealTable;
use vstd::prelude::*;

verus! {

/// What an INSERT statement holds.
#[derive(Clone, Debug, PartialEq)]
pub struct InsertStatement {
    pub into: Option<SurrrealTable>,
    pub data: Option<InsertData>,
    pub ignore: bool,
    pub update: Option<Vec<SetField>>,
    pub output: Option<Output>,
    pub timeout: Option<Duration>,
    pub parallel: bool,
}

impl InsertStatement {
    /// The statement with nothing set.
    pub open spec fn empty() -> InsertStatement {
        InsertStatement { into: None, data: None, ignore: false, update: None, output: None, timeout: None, parallel: false }
    }

    /// The table to insert into; `NONE` where none is set.
    pub open spec fn into_text(self) -> Seq<char> {
        match self.into {
            Some(t) => named_text(t),
            None => "NONE"@,
        }
    }

    /// The data; nothing where none is set.
    pub open spec fn data_text(self) -> Seq<char> {
        match self.data {
            Some(d) => d.text(),
            None => Seq::empty(),
        }
    }

    /// ` ON DUPLICATE KEY UPDATE ` and the assignments; nothing where no
    /// list is set.
    pub open spec fn update_clause(self) -> Seq<char> {
        match self.update {
            Some(list) => " ON DUPLICATE KEY UPDATE "@ + assignments_text(list@),
            None => Seq::empty(),
        }
    }

    /// The statement as text: `INSERT`, `IGNORE` where it is set, `INTO`
    /// and the table, the data, the update clause, and the tail.
    pub open spec fn text(self) -> Seq<char> {
        "INSERT"@ + flag_text(self.ignore, " IGNORE"@) + " INTO "@ + self.into_text() + " "@
            + self.data_text() + self.update_clause() + tail_text(
            self.output,
            self.timeout,
            self.parallel,
        )
    }

    pub fn to_string(&self) -> (out: String)
        ensures
            out@ == self.text(),
    {
        let mut out = String::from_str("INSERT");
        push_flag(&mut out, self.ignore, " IGNORE");
        out.append(" INTO ");
        match &self.into {
            Some(t) => {
                let t = named(t);
                out.append(t.as_str());
            },
            None => out.append("NONE"),
        }
        out.append(" ");
        match &self.data {
            Some(d) => {
                let d = d.to_string();
                out.append(d.as_str());
            },
            None => {},
        }
        match &self.update {
            Some(list) => {
                let list = render_assignments(list);
                out.append(" ON DUPLICATE KEY UPDATE ");
                out.append(list.as_str());
            },
            None => {},
        }
        assert(out@ =~= "INSERT"@ + flag_text(self.ignore, " IGNORE"@) + " INTO "@
            + self.into_text() + " "@ + self.data_text() + self.update_clause());
        push_tail(&mut out, &self.output, &self.timeout, self.parallel);
        out
    }
}

/// The builder of an INSERT statement.
#[derive(Clone, Debug, PartialEq)]
pub struct InsertStmt {
    origin: InsertStatement,
}

impl View for InsertStmt {
    type V = InsertStatement;

    closed spec fn view(&self) -> InsertStatement {
        self.origin
    }
}

impl InsertStmt {
    pub fn new() -> (s: InsertStmt)
        ensures
            s@ == InsertStatement::empty(),
    {
        InsertStmt { origin: InsertStatement { into: None, data: None, ignore: false, update: None, output: None, timeout: None, parallel: false } }
    }

    /// The statement, marked as one that passes over records that exist.
    pub fn ignore(self) -> (s: InsertStmt)
        ensures
            s@ == (InsertStatement { ignore: true, ..self@ }),
    {
        InsertStmt { origin: InsertStatement { ignore: true, ..self.origin } }
    }

    /// The statement with `table` as the table to insert into.
    pub fn table(self, table: SurrrealTable) -> (s: InsertStmt)
        ensures
            s@ == (InsertStatement { into: Some(table), ..self@ }),
    {
        InsertStmt { origin: InsertStatement { into: Some(table), ..self.origin } }
    }

    /// The statement with `data` as its data.
    pub fn data(self, data: InsertData) -> (s: InsertStmt)
        ensures
            s@ == (InsertStatement { data: Some(data), ..self@ }),
    {
        InsertStmt { origin: InsertStatement { data: Some(data), ..self.origin } }
    }

    /// The statement with `sf` as the assignments to make where a record exists.
    pub fn update(self, sf: Vec<SetField>) -> (s: InsertStmt)
        ensures
            s@ == (InsertStatement { update: Some(sf), ..self@ }),
    {
        InsertStmt { origin: InsertStatement { update: Some(sf), ..self.origin } }
    }

    /// The statement's tail: what it returns.
    pub fn output(self, output: Output) -> (s: InsertStmt)
        ensures
            s@ == (InsertStatement { output: Some(output), ..self@ }),
    {
        InsertStmt { origin: InsertStatement { output: Some(output), ..self.origin } }
    }

    /// The statement with a limit on the time it may run.
    pub fn timeout(self, timeout: Duration) -> (s: InsertStmt)
        ensures
            s@ == (InsertStatement { timeout: Some(timeout), ..self@ }),
    {
        InsertStmt { origin: InsertStatement { timeout: Some(timeout), ..self.origin } }
    }

    /// The statement, marked as one that may run in parallel.
    pub fn parallel(self) -> (s: InsertStmt)
        ensures
            s@ == (InsertStatement { parallel: true, ..self@ }),
    {
        InsertStmt { origin: InsertStatement { parallel: true, ..self.origin } }
    }

    pub fn to_string(&self) -> (out: String)
        ensures
            out@ == self@.text(),
    {
        self.origin.to_string()
    }
}

impl StmtBridge for InsertStmt {
    type OriginType = InsertStatement;

    open spec fn held(&self) -> InsertStatement {
        self@
    }

    fn to_origin(self) -> (origin: InsertStatement) {
        self.origin
    }

    fn origin(&self) -> (origin: &InsertStatement) {
        &self.origin
    }
}

/// Rendering changes nothing and depends on nothing but the statement: two
/// texts of one statement, or of two builders that hold the same statement,
/// are the same text.
pub proof fn law_insert_text_is_settled(a: InsertStmt, b: InsertStmt, first: Seq<char>, second: Seq<char>)
    requires
        a@ == b@,
        first == a@.text(),
        second == b@.text(),
    ensures
        first == second,
{
}

} // verus!
