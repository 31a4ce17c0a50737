//! Table references: a table, one record of a table, or a path between them.

use crate::error::Error;
use crate::text::{
    all_digits, all_plain, fits_uuid, ident_text, int_text, is_plain, is_uuid_text,
    lemma_guarded_without, quoted, rid_text,
};
use vstd::prelude::*;

verus! {

/// The direction of one hop of a path.
#[derive(Clone, Copy, Debug, PartialEq, Eq, Structural)]
pub enum Dir {
    In,
    Out,
    Both,
}

impl Dir {
    /// The arrow that stands for the direction.
    pub open spec fn glyph(self) -> Seq<char> {
        match self {
            Dir::In => "<-"@,
            Dir::Out => "->"@,
            Dir::Both => "<->"@,
        }
    }

    pub fn to_string(&self) -> (out: String)
        ensures
            out@ == self.glyph(),
    {
        match self {
            Dir::In => String::from_str("<-"),
            Dir::Out => String::from_str("->"),
            Dir::Both => String::from_str("<->"),
        }
    }
}

/// The key of a record: a number or a string. A generated key is a string.
#[derive(Clone, Debug, PartialEq, Eq)]
pub enum Id {
    Number(i64),
    String(String),
}

impl Id {
    /// The key as it stands behind the colon of a record id.
    pub open spec fn text(self) -> Seq<char> {
        match self {
            Id::Number(n) => int_text(n as int),
            Id::String(s) => rid_text(s@),
        }
    }

    pub fn number(n: i64) -> (id: Id)
        ensures
            id == Id::Number(n),
    {
        Id::Number(n)
    }

    pub fn string(key: &str) -> (id: Id)
        ensures
            id matches Id::String(s) && s@ == key@,
    {
        Id::String(key.to_owned())
    }

    /// A generated key: the text of a new uuid. As it holds hyphens, it
    /// stands between `⟨` and `⟩` in a record id, unchanged.
    pub fn uuid() -> (id: Id)
        ensures
            id matches Id::String(s) && is_uuid_text(s@),
            id.text() == seq!['⟨'] + id->String_0@ + seq!['⟩'],
    {
        let key = fresh_uuid();
        proof {
            let s = key@;
            assert(s[8] == '-') by {
                assert(fits_uuid(8, s[8]));
            }
            assert(!is_plain(s[8]));
            assert forall|i: int| 0 <= i < s.len() implies s[i] != '⟩' by {
                assert(fits_uuid(i, s[i]));
            }
            lemma_guarded_without(s, '⟩');
        }
        Id::String(key)
    }
}

/// The string that `surrealdb::sql::Id::uuid` makes its key of: the text that
/// the `uuid` crate prints for a uuid, which is 36 characters long, with
/// hyphens at the places 8, 13, 18 and 23 and lower-case hexadecimal digits
/// elsewhere. The uuid is new with each call, so no more is promised of it.
#[verifier::external_body]
fn fresh_uuid() -> (out: String)
    ensures
        is_uuid_text(out@),
{
    surrealdb::sql::Id::uuid().to_raw()
}

/// A table, by its name.
#[derive(Clone, Debug, PartialEq, Eq)]
pub struct Table(pub String);

impl Table {
    /// The table's name as it stands in a query.
    pub open spec fn text(self) -> Seq<char> {
        ident_text(self.0@)
    }

    pub fn new(name: &str) -> (t: Table)
        ensures
            t.0@ == name@,
    {
        Table(name.to_owned())
    }

    pub fn to_string(&self) -> (out: String)
        ensures
            out@ == self.text(),
    {
        ident_literal(self.0.as_str())
    }
}

/// One record: a table's name and the record's key.
#[derive(Clone, Debug, PartialEq, Eq)]
pub struct Thing {
    pub tb: String,
    pub id: Id,
}

impl Thing {
    /// The record id as it stands in a query: the table, a colon and the key.
    pub open spec fn text(self) -> Seq<char> {
        rid_text(self.tb@) + seq![':'] + self.id.text()
    }

    pub fn new(tb: &str, id: Id) -> (t: Thing)
        ensures
            t.tb@ == tb@,
            t.id == id,
    {
        Thing { tb: tb.to_owned(), id }
    }

    pub fn to_string(&self) -> (out: String)
        ensures
            out@ == self.text(),
    {
        record_text(self.tb.as_str(), &self.id)
    }
}

/// What `surrealdb::sql::Table` prints for a name: the name itself where it is
/// made of ASCII letters, digits and `_` and is not all digits, else the name
/// between backticks with a backslash before each backtick in it.
#[verifier::external_body]
pub(crate) fn ident_literal(name: &str) -> (out: String)
    ensures
        out@ == ident_text(name@),
{
    surrealdb::sql::Table(name.to_string()).to_string()
}

/// What `surrealdb::sql::Thing` prints: the table's name, a colon and the key.
/// The name and a string key are bare or stand between `⟨` and `⟩` by the rule
/// of `rid_text`; a number key is printed in decimal.
#[verifier::external_body]
fn record_text(tb: &str, id: &Id) -> (out: String)
    ensures
        out@ == rid_text(tb@) + seq![':'] + id.text(),
{
    let id = match id {
        Id::Number(n) => surrealdb::sql::Id::Number(*n),
        Id::String(s) => surrealdb::sql::Id::String(s.clone()),
    };
    surrealdb::sql::Thing { tb: tb.to_string(), id }.to_string()
}

/// A table, a record, or a path.
#[derive(Debug, PartialEq, Eq)]
pub enum SurrrealTable {
    /// A table without a record key.
    Table(Table),
    /// A table and a record key.
    Thing(Thing),
    /// A path from one reference to another.
    Edges(Box<Edges>),
}

/// One hop: from a reference, in a direction, to a reference. Each end may be
/// a path itself.
#[derive(Debug, PartialEq, Eq)]
pub struct Edges {
    pub dir: Dir,
    pub from: SurrrealTable,
    pub to: SurrrealTable,
}

impl SurrrealTable {
    /// The reference as it stands in a query.
    pub open spec fn text(self) -> Seq<char>
        decreases self,
    {
        match self {
            SurrrealTable::Table(t) => t.text(),
            SurrrealTable::Thing(t) => t.text(),
            SurrrealTable::Edges(e) => e.from.text() + e.dir.glyph() + e.to.text(),
        }
    }

    pub fn table(table: &str) -> (r: SurrrealTable)
        ensures
            r matches SurrrealTable::Table(t) && t.0@ == table@,
    {
        SurrrealTable::Table(Table::new(table))
    }

    pub fn table_id(name: &str, id: Id) -> (r: SurrrealTable)
        ensures
            r matches SurrrealTable::Thing(t) && t.tb@ == name@ && t.id == id,
    {
        SurrrealTable::Thing(Thing::new(name, id))
    }

    pub fn edges(edges: Edges) -> (r: SurrrealTable)
        ensures
            r == SurrrealTable::Edges(Box::new(edges)),
    {
        SurrrealTable::Edges(Box::new(edges))
    }

    pub fn to_string(&self) -> (out: String)
        ensures
            out@ == self.text(),
        decreases self,
    {
        match self {
            SurrrealTable::Table(t) => t.to_string(),
            SurrrealTable::Thing(t) => t.to_string(),
            SurrrealTable::Edges(e) => {
                let mut out = e.from.to_string();
                let dir = e.dir.to_string();
                out.append(dir.as_str());
                let to = e.to.to_string();
                out.append(to.as_str());
                out
            },
        }
    }

    /// A copy.
    pub fn duplicate(&self) -> (r: SurrrealTable)
        ensures
            r == *self,
        decreases self,
    {
        match self {
            SurrrealTable::Table(t) => SurrrealTable::Table(Table(t.0.clone())),
            SurrrealTable::Thing(t) => {
                let id = match &t.id {
                    Id::Number(n) => Id::Number(*n),
                    Id::String(s) => Id::String(s.clone()),
                };
                SurrrealTable::Thing(Thing { tb: t.tb.clone(), id })
            },
            SurrrealTable::Edges(e) => {
                let from = e.from.duplicate();
                let to = e.to.duplicate();
                SurrrealTable::Edges(Box::new(Edges { dir: e.dir, from, to }))
            },
        }
    }

    /// The table, where the reference is one.
    pub fn into_table(self) -> (r: Result<Table, Error>)
        ensures
            match self {
                SurrrealTable::Table(t) => r == Ok::<Table, Error>(t),
                _ => r == Err::<Table, Error>(Error::ConversionViolation),
            },
    {
        match self {
            SurrrealTable::Table(t) => Ok(t),
            _ => Err(Error::ConversionViolation),
        }
    }

    /// The record, where the reference is one.
    pub fn into_thing(self) -> (r: Result<Thing, Error>)
        ensures
            match self {
                SurrrealTable::Thing(t) => r == Ok::<Thing, Error>(t),
                _ => r == Err::<Thing, Error>(Error::ConversionViolation),
            },
    {
        match self {
            SurrrealTable::Thing(t) => Ok(t),
            _ => Err(Error::ConversionViolation),
        }
    }

    /// The path, where the reference is one.
    pub fn into_edges(self) -> (r: Result<Edges, Error>)
        ensures
            match self {
                SurrrealTable::Edges(e) => r == Ok::<Edges, Error>(*e),
                _ => r == Err::<Edges, Error>(Error::ConversionViolation),
            },
    {
        match self {
            SurrrealTable::Edges(e) => Ok(*e),
            _ => Err(Error::ConversionViolation),
        }
    }
}

impl Clone for SurrrealTable {
    fn clone(&self) -> (r: Self)
        ensures
            r == *self,
    {
        self.duplicate()
    }
}

impl Clone for Edges {
    fn clone(&self) -> (r: Self)
        ensures
            r == *self,
    {
        self.duplicate()
    }
}

impl Edges {
    /// The path as it stands in a query: both ends with the arrow between
    /// them and nothing else.
    pub open spec fn text(self) -> Seq<char> {
        self.from.text() + self.dir.glyph() + self.to.text()
    }

    /// A copy.
    pub fn duplicate(&self) -> (r: Edges)
        ensures
            r == *self,
    {
        Edges { dir: self.dir, from: self.from.duplicate(), to: self.to.duplicate() }
    }

    pub fn new(from: SurrrealTable, dir: Dir, to: SurrrealTable) -> (e: Edges)
        ensures
            e == (Edges { dir, from, to }),
    {
        Edges { dir, from, to }
    }

    pub fn to_string(&self) -> (out: String)
        ensures
            out@ == self.text(),
    {
        let mut out = self.from.to_string();
        let dir = self.dir.to_string();
        out.append(dir.as_str());
        let to = self.to.to_string();
        out.append(to.as_str());
        out
    }
}

/// A table's name stands as it is where it is made of letters, digits and
/// `_` and is not all digits; a name with a colon in it stands between
/// backticks.
pub proof fn law_table_text(table: Table)
    requires
        table.0@.contains(':') || (all_plain(table.0@) && !all_digits(table.0@)),
    ensures
        table.text() == if table.0@.contains(':') {
            quoted(table.0@, '`', '`')
        } else {
            table.0@
        },
        SurrrealTable::Table(table).text() == table.text(),
{
    let name = table.0@;
    if name.contains(':') {
        let i = choose|i: int| 0 <= i < name.len() && name[i] == ':';
        assert(!is_plain(name[i]));
    }
}

/// A path is its two ends with the arrow between them, and nothing else.
pub proof fn law_edges_text(from: SurrrealTable, dir: Dir, to: SurrrealTable)
    ensures
        (Edges { dir, from, to }).text() == from.text() + dir.glyph() + to.text(),
        SurrrealTable::Edges(Box::new(Edges { dir, from, to })).text() == from.text() + dir.glyph()
            + to.text(),
{
}

/// Nesting does not show in the text: a path whose first end is a path
/// reads as the path whose last end is one.
pub proof fn law_edges_associative(
    a: SurrrealTable,
    first: Dir,
    b: SurrrealTable,
    second: Dir,
    c: SurrrealTable,
)
    ensures
        (Edges {
            dir: second,
            from: SurrrealTable::Edges(Box::new(Edges { dir: first, from: a, to: b })),
            to: c,
        }).text() == (Edges {
            dir: first,
            from: a,
            to: SurrrealTable::Edges(Box::new(Edges { dir: second, from: b, to: c })),
        }).text(),
        (Edges {
            dir: second,
            from: SurrrealTable::Edges(Box::new(Edges { dir: first, from: a, to: b })),
            to: c,
        }).text() == a.text() + first.glyph() + b.text() + second.glyph() + c.text(),
{
    let left = (Edges {
        dir: second,
        from: SurrrealTable::Edges(Box::new(Edges { dir: first, from: a, to: b })),
        to: c,
    }).text();
    let right = (Edges {
        dir: first,
        from: a,
        to: SurrrealTable::Edges(Box::new(Edges { dir: second, from: b, to: c })),
    }).text();
    assert(left =~= a.text() + first.glyph() + b.text() + second.glyph() + c.text());
    assert(right =~= a.text() + first.glyph() + b.text() + second.glyph() + c.text());
}

} // verus!
