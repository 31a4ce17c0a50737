//! The USE statement.

use crate::stmt::StmtBridge;
use vstd::prelude::*;

verus! {

/// What a USE statement holds: a namespace and a database, each or none.
#[derive(Clone, Debug, Default, PartialEq, Eq)]
pub struct UseStatement {
    pub ns: Option<String>,
    pub db: Option<String>,
}

impl UseStatement {
    /// The statement with nothing set.
    pub open spec fn empty() -> UseStatement {
        UseStatement { ns: None, db: None }
    }

    /// The statement as text: `USE`, then ` NS ` and the namespace, then
    /// ` DB ` and the database, each only where it is set.
    pub open spec fn text(self) -> Seq<char> {
        "USE"@ + (match self.ns {
            Some(ns) => " NS "@ + ns@,
            None => Seq::empty(),
        }) + (match self.db {
            Some(db) => " DB "@ + db@,
            None => Seq::empty(),
        })
    }

    pub fn to_string(&self) -> (out: String)
        ensures
            out@ == self.text(),
    {
        let mut out = String::from_str("USE");
        match &self.ns {
            Some(ns) => {
                out.append(" NS ");
                out.append(ns.as_str());
            },
            None => {},
        }
        match &self.db {
            Some(db) => {
                out.append(" DB ");
                out.append(db.as_str());
            },
            None => {},
        }
        assert(out@ =~= self.text());
        out
    }
}

/// The builder of a USE statement.
#[derive(Clone, Debug, Default, PartialEq, Eq)]
pub struct UseStmt {
    origin: UseStatement,
}

impl View for UseStmt {
    type V = UseStatement;

    closed spec fn view(&self) -> UseStatement {
        self.origin
    }
}

impl UseStmt {
    pub fn new() -> (s: UseStmt)
        ensures
            s@ == UseStatement::empty(),
    {
        UseStmt { origin: UseStatement { ns: None, db: None } }
    }

    /// The statement with the namespace `ns`.
    pub fn ns(self, ns: &str) -> (s: UseStmt)
        ensures
            s@.ns matches Some(n) && n@ == ns@,
            s@.db == self@.db,
    {
        UseStmt { origin: UseStatement { ns: Some(ns.to_owned()), db: self.origin.db } }
    }

    /// The statement with the database `db`.
    pub fn db(self, db: &str) -> (s: UseStmt)
        ensures
            s@.db matches Some(d) && d@ == db@,
            s@.ns == self@.ns,
    {
        UseStmt { origin: UseStatement { ns: self.origin.ns, db: Some(db.to_owned()) } }
    }

    pub fn to_string(&self) -> (out: String)
        ensures
            out@ == self@.text(),
    {
        self.origin.to_string()
    }
}

impl StmtBridge for UseStmt {
    type OriginType = UseStatement;

    open spec fn held(&self) -> UseStatement {
        self@
    }

    fn to_origin(self) -> (origin: UseStatement) {
        self.origin
    }

    fn origin(&self) -> (origin: &UseStatement) {
        &self.origin
    }
}

/// Rendering changes nothing and depends on nothing but the statement: two
/// texts of one statement, or of two builders that hold the same statement,
/// are the same text.
pub proof fn law_use_text_is_settled(a: UseStmt, b: UseStmt, first: Seq<char>, second: Seq<char>)
    requires
        a@ == b@,
        first == a@.text(),
        second == b@.text(),
    ensures
        first == second,
{
}

} // verus!
