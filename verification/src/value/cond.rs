//! The condition of a WHERE clause.

use crate::error::Error;
use crate::value::data::Value;
use crate::value::operator::Operator;
use crate::value::table::{Edges, Table};
use vstd::prelude::*;

verus! {

/// One condition: two values with an operator between them, or a path that
/// stands as the whole condition.
#[derive(Clone, Debug, PartialEq)]
pub enum Cond {
    Binary { left: Value, op: Operator, right: Value },
    Path(Edges),
}

impl Cond {
    /// What follows `WHERE `.
    pub open spec fn what(self) -> Seq<char> {
        match self {
            Cond::Binary { left, op, right } => left.text() + " "@ + op.text() + " "@
                + right.text(),
            Cond::Path(edges) => edges.text(),
        }
    }

    /// The WHERE clause.
    pub open spec fn text(self) -> Seq<char> {
        "WHERE "@ + self.what()
    }

    /// The condition `NONE = NONE`, whose slots the other calls fill.
    pub fn new() -> (c: Cond)
        ensures
            c == (Cond::Binary { left: Value::Nothing, op: Operator::Equal, right: Value::Nothing }),
    {
        Cond::Binary { left: Value::Nothing, op: Operator::Equal, right: Value::Nothing }
    }

    /// The condition with `left` on its left side. A path has no sides and
    /// stays as it is.
    pub fn left(self, left: Value) -> (c: Cond)
        ensures
            match self {
                Cond::Binary { left: _, op, right } => c == (Cond::Binary { left, op, right }),
                Cond::Path(_) => c == self,
            },
    {
        match self {
            Cond::Binary { left: _, op, right } => Cond::Binary { left, op, right },
            Cond::Path(edges) => Cond::Path(edges),
        }
    }

    /// The condition with the field `left` on its left side.
    pub fn left_easy(self, left: &str) -> (c: Cond)
        ensures
            match self {
                Cond::Binary { left: _, op, right } => c matches Cond::Binary {
                    left: Value::Table(t),
                    op: o,
                    right: r,
                } && t.0@ == left@ && o == op && r == right,
                Cond::Path(_) => c == self,
            },
    {
        self.left(Value::Table(Table::new(left)))
    }

    /// The condition with `right` on its right side. A path stays as it is.
    pub fn right(self, right: Value) -> (c: Cond)
        ensures
            match self {
                Cond::Binary { left, op, right: _ } => c == (Cond::Binary { left, op, right }),
                Cond::Path(_) => c == self,
            },
    {
        match self {
            Cond::Binary { left, op, right: _ } => Cond::Binary { left, op, right },
            Cond::Path(edges) => Cond::Path(edges),
        }
    }

    /// The condition with the operator `op`. A path stays as it is.
    pub fn op(self, op: Operator) -> (c: Cond)
        ensures
            match self {
                Cond::Binary { left, op: _, right } => c == (Cond::Binary { left, op, right }),
                Cond::Path(_) => c == self,
            },
    {
        match self {
            Cond::Binary { left, op: _, right } => Cond::Binary { left, op, right },
            Cond::Path(edges) => Cond::Path(edges),
        }
    }

    /// The condition that a path is: only a path from a record to a table
    /// can be one.
    pub fn from_edges(edges: Edges) -> (r: Result<Cond, Error>)
        ensures
            edges.from is Thing && edges.to is Table ==> r == Ok::<Cond, Error>(Cond::Path(edges)),
            !(edges.from is Thing && edges.to is Table) ==> r == Err::<Cond, Error>(
                Error::ConversionViolation,
            ),
    {
        match Value::from_edges(edges) {
            Ok(Value::Edges(e)) => Ok(Cond::Path(*e)),
            Ok(_) => Err(Error::ConversionViolation),
            Err(e) => Err(e),
        }
    }

    pub fn to_string(&self) -> (out: String)
        ensures
            out@ == self.text(),
    {
        let mut out = String::from_str("WHERE ");
        match self {
            Cond::Binary { left, op, right } => {
                let l = left.to_string();
                let r = right.to_string();
                out.append(l.as_str());
                out.append(" ");
                out.append(op.symbol());
                out.append(" ");
                out.append(r.as_str());
            },
            Cond::Path(edges) => {
                let e = edges.to_string();
                out.append(e.as_str());
            },
        }
        assert(out@ =~= self.text());
        out
    }
}

} // verus!
