//! The operators that stand between two values, or between a field and a value.

use vstd::prelude::*;

verus! {

/// An operator without an argument of its own.
#[derive(Clone, Copy, Debug, PartialEq, Eq, Structural)]
pub enum Operator {
    Neg,
    Not,
    Or,
    And,
    Tco,
    Nco,
    Add,
    Sub,
    Mul,
    Div,
    Pow,
    Inc,
    Dec,
    Ext,
    Equal,
    Exact,
    NotEqual,
    AllEqual,
    AnyEqual,
    Like,
    NotLike,
    AllLike,
    AnyLike,
    LessThan,
    LessThanOrEqual,
    MoreThan,
    MoreThanOrEqual,
    Contain,
    NotContain,
    ContainAll,
    ContainAny,
    ContainNone,
    Inside,
    NotInside,
    AllInside,
    AnyInside,
    NoneInside,
    Outside,
    Intersects,
}

impl Operator {
    /// The operator as it stands in a query.
    pub open spec fn text(self) -> Seq<char> {
        match self {
            Operator::Neg => "-"@,
            Operator::Not => "!"@,
            Operator::Or => "OR"@,
            Operator::And => "AND"@,
            Operator::Tco => "?:"@,
            Operator::Nco => "??"@,
            Operator::Add => "+"@,
            Operator::Sub => "-"@,
            Operator::Mul => "*"@,
            Operator::Div => "/"@,
            Operator::Pow => "**"@,
            Operator::Inc => "+="@,
            Operator::Dec => "-="@,
            Operator::Ext => "+?="@,
            Operator::Equal => "="@,
            Operator::Exact => "=="@,
            Operator::NotEqual => "!="@,
            Operator::AllEqual => "*="@,
            Operator::AnyEqual => "?="@,
            Operator::Like => "~"@,
            Operator::NotLike => "!~"@,
            Operator::AllLike => "*~"@,
            Operator::AnyLike => "?~"@,
            Operator::LessThan => "<"@,
            Operator::LessThanOrEqual => "<="@,
            Operator::MoreThan => ">"@,
            Operator::MoreThanOrEqual => ">="@,
            Operator::Contain => "CONTAINS"@,
            Operator::NotContain => "CONTAINSNOT"@,
            Operator::ContainAll => "CONTAINSALL"@,
            Operator::ContainAny => "CONTAINSANY"@,
            Operator::ContainNone => "CONTAINSNONE"@,
            Operator::Inside => "INSIDE"@,
            Operator::NotInside => "NOTINSIDE"@,
            Operator::AllInside => "ALLINSIDE"@,
            Operator::AnyInside => "ANYINSIDE"@,
            Operator::NoneInside => "NONEINSIDE"@,
            Operator::Outside => "OUTSIDE"@,
            Operator::Intersects => "INTERSECTS"@,
        }
    }

    /// The operator's text, borrowed.
    pub fn symbol(&self) -> (out: &'static str)
        ensures
            out@ == self.text(),
    {
        match self {
            Operator::Neg => "-",
            Operator::Not => "!",
            Operator::Or => "OR",
            Operator::And => "AND",
            Operator::Tco => "?:",
            Operator::Nco => "??",
            Operator::Add => "+",
            Operator::Sub => "-",
            Operator::Mul => "*",
            Operator::Div => "/",
            Operator::Pow => "**",
            Operator::Inc => "+=",
            Operator::Dec => "-=",
            Operator::Ext => "+?=",
            Operator::Equal => "=",
            Operator::Exact => "==",
            Operator::NotEqual => "!=",
            Operator::AllEqual => "*=",
            Operator::AnyEqual => "?=",
            Operator::Like => "~",
            Operator::NotLike => "!~",
            Operator::AllLike => "*~",
            Operator::AnyLike => "?~",
            Operator::LessThan => "<",
            Operator::LessThanOrEqual => "<=",
            Operator::MoreThan => ">",
            Operator::MoreThanOrEqual => ">=",
            Operator::Contain => "CONTAINS",
            Operator::NotContain => "CONTAINSNOT",
            Operator::ContainAll => "CONTAINSALL",
            Operator::ContainAny => "CONTAINSANY",
            Operator::ContainNone => "CONTAINSNONE",
            Operator::Inside => "INSIDE",
            Operator::NotInside => "NOTINSIDE",
            Operator::AllInside => "ALLINSIDE",
            Operator::AnyInside => "ANYINSIDE",
            Operator::NoneInside => "NONEINSIDE",
            Operator::Outside => "OUTSIDE",
            Operator::Intersects => "INTERSECTS",
        }
    }

    pub fn to_string(&self) -> (out: String)
        ensures
            out@ == self.text(),
    {
        String::from_str(self.symbol())
    }
}

impl Default for Operator {
    /// `=`, the operator of a plain assignment and of a plain comparison.
    fn default() -> (op: Operator)
        ensures
            op == Operator::Equal,
    {
        Operator::Equal
    }
}

} // verus!
