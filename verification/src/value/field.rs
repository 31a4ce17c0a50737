//! Fields, as statements select, return and order by them.

use crate::text::{ident_text, joined, lemma_joined_push};
use crate::value::table::ident_literal;
use vstd::prelude::*;

verus! {

/// Every field, or one field and the name it is returned under.
#[derive(Clone, Debug, PartialEq, Eq)]
pub enum Field {
    All,
    Single { name: String, alias: Option<String> },
}

impl Field {
    /// The field as it stands in a query: `*`, or the name, followed by
    /// ` AS ` and the alias where there is one.
    pub open spec fn text(self) -> Seq<char> {
        match self {
            Field::All => "*"@,
            Field::Single { name, alias } => match alias {
                Some(a) => ident_text(name@) + " AS "@ + ident_text(a@),
                None => ident_text(name@),
            },
        }
    }

    pub fn all() -> (f: Field)
        ensures
            f == Field::All,
    {
        Field::All
    }

    pub fn single(field: &str, alias: Option<&str>) -> (f: Field)
        ensures
            f matches Field::Single { name, alias: given } && name@ == field@ && match alias {
                Some(a) => given matches Some(g) && g@ == a@,
                None => given is None,
            },
    {
        let alias = match alias {
            Some(a) => Some(a.to_owned()),
            None => None,
        };
        Field::Single { name: field.to_owned(), alias }
    }

    pub fn to_string(&self) -> (out: String)
        ensures
            out@ == self.text(),
    {
        match self {
            Field::All => String::from_str("*"),
            Field::Single { name, alias } => {
                let mut out = ident_literal(name.as_str());
                match alias {
                    Some(a) => {
                        out.append(" AS ");
                        let a = ident_literal(a.as_str());
                        out.append(a.as_str());
                    },
                    None => {},
                }
                out
            },
        }
    }

    /// The RETURN clause of this one field.
    pub fn to_output(self) -> (o: Output)
        ensures
            o matches Output::Fields(fields) && fields@ == seq![self],
    {
        let mut fields = Vec::new();
        fields.push(self);
        Output::Fields(fields)
    }
}

/// What a statement returns.
#[derive(Clone, Debug, PartialEq, Eq)]
pub enum Output {
    /// `RETURN NONE`.
    Nothing,
    Null,
    Diff,
    After,
    Before,
    Fields(Vec<Field>),
}

/// The text of each field of a list.
pub open spec fn field_texts(fields: Seq<Field>) -> Seq<Seq<char>> {
    Seq::new(fields.len(), |i: int| fields[i].text())
}

impl Output {
    /// What follows `RETURN `.
    pub open spec fn what(self) -> Seq<char> {
        match self {
            Output::Nothing => "NONE"@,
            Output::Null => "NULL"@,
            Output::Diff => "DIFF"@,
            Output::After => "AFTER"@,
            Output::Before => "BEFORE"@,
            Output::Fields(fields) => joined(field_texts(fields@), ", "@),
        }
    }

    /// The RETURN clause.
    pub open spec fn text(self) -> Seq<char> {
        "RETURN "@ + self.what()
    }

    pub fn to_string(&self) -> (out: String)
        ensures
            out@ == self.text(),
    {
        let mut out = String::from_str("RETURN ");
        match self {
            Output::Nothing => out.append("NONE"),
            Output::Null => out.append("NULL"),
            Output::Diff => out.append("DIFF"),
            Output::After => out.append("AFTER"),
            Output::Before => out.append("BEFORE"),
            Output::Fields(fields) => {
                let mut i: usize = 0;
                while i < fields.len()
                    invariant
                        i <= fields.len(),
                        out@ == "RETURN "@ + joined(
                            field_texts(fields@).subrange(0, i as int),
                            ", "@,
                        ),
                    decreases fields.len() - i,
                {
                    if i > 0 {
                        out.append(", ");
                    }
                    let piece = fields[i].to_string();
                    out.append(piece.as_str());
                    proof {
                        let all = field_texts(fields@);
                        lemma_joined_push(all.subrange(0, i as int), ", "@, piece@);
                        assert(all.subrange(0, i as int).push(piece@) =~= all.subrange(0, i + 1));
                    }
                    i += 1;
                }
                assert(field_texts(fields@).subrange(0, i as int) =~= field_texts(fields@));
            },
        }
        out
    }
}

/// One key of an ORDER BY clause.
#[derive(Clone, Debug, PartialEq, Eq)]
pub struct Order {
    pub field: Field,
    pub random: bool,
    pub collate: bool,
    pub numeric: bool,
    pub descending: bool,
}

impl Order {
    /// The key as it stands in a query: the field, then each flag that is
    /// set, in this order. Ascending order has no word of its own.
    pub open spec fn text(self) -> Seq<char> {
        self.field.text() + (if self.random {
            " RAND()"@
        } else {
            Seq::empty()
        }) + (if self.collate {
            " COLLATE"@
        } else {
            Seq::empty()
        }) + (if self.numeric {
            " NUMERIC"@
        } else {
            Seq::empty()
        }) + (if self.descending {
            " DESC"@
        } else {
            Seq::empty()
        })
    }

    /// Ascending by `field`, with no flag set.
    pub fn new(field: Field) -> (o: Order)
        ensures
            o == (Order { field, random: false, collate: false, numeric: false, descending: false }),
    {
        Order { field, random: false, collate: false, numeric: false, descending: false }
    }

    pub fn asc(self) -> (o: Order)
        ensures
            o == (Order { descending: false, ..self }),
    {
        Order { descending: false, ..self }
    }

    pub fn desc(self) -> (o: Order)
        ensures
            o == (Order { descending: true, ..self }),
    {
        Order { descending: true, ..self }
    }

    pub fn numeric(self) -> (o: Order)
        ensures
            o == (Order { numeric: true, ..self }),
    {
        Order { numeric: true, ..self }
    }

    pub fn collate(self) -> (o: Order)
        ensures
            o == (Order { collate: true, ..self }),
    {
        Order { collate: true, ..self }
    }

    pub fn rand(self) -> (o: Order)
        ensures
            o == (Order { random: true, ..self }),
    {
        Order { random: true, ..self }
    }

    pub fn to_string(&self) -> (out: String)
        ensures
            out@ == self.text(),
    {
        let mut out = self.field.to_string();
        if self.random {
            out.append(" RAND()");
        }
        if self.collate {
            out.append(" COLLATE");
        }
        if self.numeric {
            out.append(" NUMERIC");
        }
        if self.descending {
            out.append(" DESC");
        }
        assert(out@ =~= self.text());
        out
    }
}

impl<'a> From<&'a str> for Field {
    /// The field of that name, without an alias.
    fn from(value: &'a str) -> (r: Self)
        ensures
            r matches Field::Single { name, alias } && name@ == value@ && alias is None,
    {
        Field::single(value, None)
    }
}

impl<'a> vstd::std_specs::convert::FromSpecImpl<&'a str> for Field {
    open spec fn obeys_from_spec() -> bool {
        false
    }

    open spec fn from_spec(v: &'a str) -> Self {
        arbitrary()
    }
}

impl From<Field> for Output {
    /// The RETURN clause of the one field.
    fn from(value: Field) -> (r: Self)
        ensures
            r matches Output::Fields(fields) && fields@ == seq![value],
    {
        value.to_output()
    }
}

impl vstd::std_specs::convert::FromSpecImpl<Field> for Output {
    open spec fn obeys_from_spec() -> bool {
        false
    }

    open spec fn from_spec(v: Field) -> Self {
        arbitrary()
    }
}

} // verus!
