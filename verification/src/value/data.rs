//! Values: scalars, arrays, objects, and references to tables and records.

use crate::error::Error;
use crate::text::{int_text, joined, key_literal, key_text, lemma_joined_push, lemma_lex_transitive, lex_lt, str_eq, str_lt};
use crate::value::duration::Duration;
use crate::value::table::{Edges, Id, SurrrealTable, Table, Thing};
use vstd::prelude::*;

verus! {

/// What `surrealdb::sql::Strand` prints for a string: the string between
/// quotes, with what has to be guarded inside it, and an `s` before it where
/// the quoted text could be read as a record id, a uuid or a date.
pub uninterp spec fn strand_text(s: Seq<char>) -> Seq<char>;

/// The `Display` of `surrealdb::sql::Strand`.
#[verifier::external_body]
fn strand_literal(s: &str) -> (out: String)
    ensures
        out@ == strand_text(s@),
{
    surrealdb::sql::Strand(s.to_string()).to_string()
}

/// What `surrealdb::sql::Number` prints for an integer: its decimal notation.
#[verifier::external_body]
fn number_literal(n: i64) -> (out: String)
    ensures
        out@ == int_text(n as int),
{
    surrealdb::sql::Number::Int(n).to_string()
}

/// A value of the query language.
#[derive(Debug, PartialEq)]
pub enum Value {
    /// `NONE`: no value at all.
    Nothing,
    /// `NULL`.
    Null,
    Bool(bool),
    Number(i64),
    /// A string.
    Strand(String),
    Duration(Duration),
    Array(Vec<Value>),
    Object(Object),
    Table(Table),
    Thing(Thing),
    /// A path from a record to a table.
    Edges(Box<Edges>),
}

/// One entry of an object.
#[derive(Debug, PartialEq)]
pub struct Entry {
    pub key: String,
    pub value: Value,
}

/// An object: entries with different keys, kept in the order of the keys.
#[derive(Debug, PartialEq)]
pub struct Object {
    entries: Vec<Entry>,
}

impl View for Object {
    type V = Seq<Entry>;

    /// The entries, in their order.
    closed spec fn view(&self) -> Seq<Entry> {
        self.entries@
    }
}

/// Whether the keys grow from each entry to the next.
pub open spec fn keys_sorted(entries: Seq<Entry>) -> bool {
    forall|i: int, j: int|
        0 <= i < j < entries.len() ==> lex_lt(#[trigger] entries[i].key@, #[trigger] entries[j].key@)
}

/// The number of entries whose key stands before `key`.
pub open spec fn slot_of(entries: Seq<Entry>, key: Seq<char>) -> nat
    decreases entries.len(),
{
    if entries.len() == 0 {
        0
    } else {
        slot_of(entries.drop_last(), key) + if lex_lt(entries.last().key@, key) {
            1nat
        } else {
            0nat
        }
    }
}

/// The text of each value of a list.
pub open spec fn item_texts(items: Seq<Value>) -> Seq<Seq<char>>
    decreases items,
{
    Seq::new(
        items.len(),
        |i: int|
            if 0 <= i < items.len() {
                items[i].text()
            } else {
                Seq::empty()
            },
    )
}

/// The text of each entry of an object: the key, a colon and the value.
pub open spec fn entry_texts(entries: Seq<Entry>) -> Seq<Seq<char>>
    decreases entries,
{
    Seq::new(
        entries.len(),
        |i: int|
            if 0 <= i < entries.len() {
                key_text(entries[i].key@) + ": "@ + entries[i].value.text()
            } else {
                Seq::empty()
            },
    )
}

impl Value {
    /// The value as it stands in a query.
    pub open spec fn text(self) -> Seq<char>
        decreases self,
    {
        match self {
            Value::Nothing => "NONE"@,
            Value::Null => "NULL"@,
            Value::Bool(b) => if b {
                "true"@
            } else {
                "false"@
            },
            Value::Number(n) => int_text(n as int),
            Value::Strand(s) => strand_text(s@),
            Value::Duration(d) => d.text(),
            Value::Array(items) => "["@ + joined(item_texts(items@), ", "@) + "]"@,
            Value::Object(o) => "{ "@ + joined(entry_texts(o@), ", "@) + " }"@,
            Value::Table(t) => t.text(),
            Value::Thing(t) => t.text(),
            Value::Edges(e) => e.text(),
        }
    }
}

/// Where the keys grow, the slot of a key is the place of the first entry
/// whose key does not stand before it.
pub proof fn lemma_slot(entries: Seq<Entry>, key: Seq<char>, p: int)
    requires
        keys_sorted(entries),
        0 <= p <= entries.len(),
        forall|j: int| 0 <= j < p ==> lex_lt(#[trigger] entries[j].key@, key),
        p < entries.len() ==> !lex_lt(entries[p].key@, key),
    ensures
        slot_of(entries, key) == p,
    decreases entries.len(),
{
    if entries.len() > 0 {
        let rest = entries.drop_last();
        let last = entries.len() - 1;
        if p <= last {
            if p < last && lex_lt(entries[last].key@, key) {
                lemma_lex_transitive(entries[p].key@, entries[last].key@, key);
            }
            lemma_slot(rest, key, p);
        } else {
            lemma_slot(rest, key, last);
        }
    }
}

impl Object {
    #[verifier::type_invariant]
    spec fn inv(self) -> bool {
        keys_sorted(self.entries@)
    }

    /// The object without entries.
    pub fn new() -> (o: Object)
        ensures
            o@.len() == 0,
    {
        Object { entries: Vec::new() }
    }

    /// The number of entries.
    pub fn len(&self) -> (n: usize)
        ensures
            n == self@.len(),
    {
        self.entries.len()
    }

    /// The entries, in the order of their keys.
    pub fn entries(&self) -> (entries: &Vec<Entry>)
        ensures
            entries@ == self@,
            keys_sorted(entries@),
    {
        proof {
            use_type_invariant(self);
        }
        &self.entries
    }

    /// The object with `value` under `key`: in place of the entry that had
    /// the key, or as a new entry at the key's place in the order.
    pub fn insert(self, key: &str, value: Value) -> (r: Object)
        ensures
            keys_sorted(r@),
            ({
                let p = slot_of(self@, key@) as int;
                let kept = p < self@.len() && self@[p].key@ == key@;
                &&& p <= self@.len()
                &&& r@.len() == if kept { self@.len() } else { self@.len() + 1 }
                &&& r@[p].key@ == key@
                &&& r@[p].value == value
                &&& forall|j: int| 0 <= j < p ==> r@[j] == self@[j]
                &&& forall|j: int|
                    p < j < r@.len() ==> r@[j] == if kept { self@[j] } else { self@[j - 1] }
            }),
    {
        proof {
            use_type_invariant(&self);
        }
        let ghost before = self.entries@;
        let mut entries = self.entries;
        let n = entries.len();
        let mut p: usize = 0;
        while p < n && str_lt(entries[p].key.as_str(), key)
            invariant
                p <= n,
                n == entries@.len(),
                forall|j: int| 0 <= j < p ==> lex_lt(#[trigger] entries@[j].key@, key@),
            decreases n - p,
        {
            p += 1;
        }
        proof {
            lemma_slot(before, key@, p as int);
        }
        let entry = Entry { key: key.to_owned(), value };
        if p < n && str_eq(entries[p].key.as_str(), key) {
            entries.set(p, entry);
        } else {
            proof {
                if p < n {
                    crate::text::lemma_lex_total(key@, before[p as int].key@);
                    assert forall|j: int| p < j < n implies lex_lt(
                        key@,
                        #[trigger] before[j].key@,
                    ) by {
                        lemma_lex_transitive(key@, before[p as int].key@, before[j].key@);
                    }
                }
            }
            entries.insert(p, entry);
        }
        Object { entries }
    }
}

impl Value {
    pub fn strand(s: &str) -> (v: Value)
        ensures
            v matches Value::Strand(t) && t@ == s@,
    {
        Value::Strand(s.to_owned())
    }

    pub fn number(n: i64) -> (v: Value)
        ensures
            v == Value::Number(n),
    {
        Value::Number(n)
    }

    pub fn table(name: &str) -> (v: Value)
        ensures
            v matches Value::Table(t) && t.0@ == name@,
    {
        Value::Table(Table::new(name))
    }

    /// The value that stands for a table reference: the table or the record
    /// itself, and for a path the string of its text.
    pub fn from_table(table: SurrrealTable) -> (v: Value)
        ensures
            match table {
                SurrrealTable::Table(t) => v == Value::Table(t),
                SurrrealTable::Thing(t) => v == Value::Thing(t),
                SurrrealTable::Edges(e) => v matches Value::Strand(s) && s@ == e.text(),
            },
    {
        match table {
            SurrrealTable::Table(t) => Value::Table(t),
            SurrrealTable::Thing(t) => Value::Thing(t),
            SurrrealTable::Edges(e) => Value::Strand(e.to_string()),
        }
    }

    /// The value of a path that leads from a record to a table; no other
    /// path is a value.
    pub fn from_edges(edges: Edges) -> (r: Result<Value, Error>)
        ensures
            edges.from is Thing && edges.to is Table ==> r == Ok::<Value, Error>(
                Value::Edges(Box::new(edges)),
            ),
            !(edges.from is Thing && edges.to is Table) ==> r == Err::<Value, Error>(
                Error::ConversionViolation,
            ),
    {
        let fits = match (&edges.from, &edges.to) {
            (SurrrealTable::Thing(_), SurrrealTable::Table(_)) => true,
            _ => false,
        };
        if fits {
            Ok(Value::Edges(Box::new(edges)))
        } else {
            Err(Error::ConversionViolation)
        }
    }

    pub fn to_string(&self) -> (out: String)
        ensures
            out@ == self.text(),
        decreases self,
    {
        match self {
            Value::Nothing => String::from_str("NONE"),
            Value::Null => String::from_str("NULL"),
            Value::Bool(b) => if *b {
                String::from_str("true")
            } else {
                String::from_str("false")
            },
            Value::Number(n) => number_literal(*n),
            Value::Strand(s) => strand_literal(s.as_str()),
            Value::Duration(d) => d.to_string(),
            Value::Array(items) => {
                let mut out = String::from_str("[");
                let mut i: usize = 0;
                while i < items.len()
                    invariant
                        i <= items.len(),
                        decreases_to!(*self => *items),
                        out@ == "["@ + joined(item_texts(items@).subrange(0, i as int), ", "@),
                    decreases items.len() - i,
                {
                    if i > 0 {
                        out.append(", ");
                    }
                    proof {
                        vstd::std_specs::vec::axiom_vec_index_decreases(*items, i as int);
                    }
                    let piece = items[i].to_string();
                    out.append(piece.as_str());
                    proof {
                        let all = item_texts(items@);
                        lemma_joined_push(all.subrange(0, i as int), ", "@, piece@);
                        assert(all.subrange(0, i as int).push(piece@) =~= all.subrange(0, i + 1));
                    }
                    i += 1;
                }
                out.append("]");
                assert(item_texts(items@).subrange(0, i as int) =~= item_texts(items@));
                out
            },
            Value::Object(o) => {
                let mut out = String::from_str("{ ");
                let mut i: usize = 0;
                while i < o.entries.len()
                    invariant
                        i <= o.entries.len(),
                        decreases_to!(*self => o.entries),
                        out@ == "{ "@ + joined(entry_texts(o@).subrange(0, i as int), ", "@),
                    decreases o.entries.len() - i,
                {
                    if i > 0 {
                        out.append(", ");
                    }
                    proof {
                        vstd::std_specs::vec::axiom_vec_index_decreases(o.entries, i as int);
                    }
                    let key = key_literal(o.entries[i].key.as_str());
                    let value = o.entries[i].value.to_string();
                    out.append(key.as_str());
                    out.append(": ");
                    out.append(value.as_str());
                    proof {
                        let all = entry_texts(o@);
                        let piece = key@ + ": "@ + value@;
                        lemma_joined_push(all.subrange(0, i as int), ", "@, piece);
                        assert(all.subrange(0, i as int).push(piece) =~= all.subrange(0, i + 1));
                    }
                    i += 1;
                }
                out.append(" }");
                assert(entry_texts(o@).subrange(0, i as int) =~= entry_texts(o@));
                out
            },
            Value::Table(t) => t.to_string(),
            Value::Thing(t) => t.to_string(),
            Value::Edges(e) => e.to_string(),
        }
    }
}

impl Value {
    /// A copy that renders to the same text.
    pub fn duplicate(&self) -> (r: Value)
        ensures
            r.text() == self.text(),
        decreases self,
    {
        match self {
            Value::Nothing => Value::Nothing,
            Value::Null => Value::Null,
            Value::Bool(b) => Value::Bool(*b),
            Value::Number(n) => Value::Number(*n),
            Value::Strand(s) => Value::Strand(s.clone()),
            Value::Duration(d) => Value::Duration(*d),
            Value::Array(items) => {
                let mut copy: Vec<Value> = Vec::new();
                let mut i: usize = 0;
                while i < items.len()
                    invariant
                        i <= items.len(),
                        decreases_to!(*self => *items),
                        copy@.len() == i,
                        forall|j: int| 0 <= j < i ==> (#[trigger] copy@[j]).text() == items@[j].text(),
                    decreases items.len() - i,
                {
                    proof {
                        vstd::std_specs::vec::axiom_vec_index_decreases(*items, i as int);
                    }
                    let item = items[i].duplicate();
                    copy.push(item);
                    i += 1;
                }
                assert(item_texts(copy@) =~= item_texts(items@));
                Value::Array(copy)
            },
            Value::Object(o) => {
                proof {
                    use_type_invariant(o);
                }
                let mut copy: Vec<Entry> = Vec::new();
                let mut i: usize = 0;
                while i < o.entries.len()
                    invariant
                        i <= o.entries.len(),
                        decreases_to!(*self => o.entries),
                        copy@.len() == i,
                        forall|j: int|
                            0 <= j < i ==> (#[trigger] copy@[j]).key@ == o.entries@[j].key@
                                && copy@[j].value.text() == o.entries@[j].value.text(),
                    decreases o.entries.len() - i,
                {
                    proof {
                        vstd::std_specs::vec::axiom_vec_index_decreases(o.entries, i as int);
                    }
                    let value = o.entries[i].value.duplicate();
                    copy.push(Entry { key: o.entries[i].key.clone(), value });
                    i += 1;
                }
                assert(entry_texts(copy@) =~= entry_texts(o@));
                Value::Object(Object { entries: copy })
            },
            Value::Table(t) => Value::Table(Table(t.0.clone())),
            Value::Thing(t) => {
                let id = match &t.id {
                    Id::Number(n) => Id::Number(*n),
                    Id::String(s) => Id::String(s.clone()),
                };
                Value::Thing(Thing { tb: t.tb.clone(), id })
            },
            Value::Edges(e) => Value::Edges(Box::new(e.duplicate())),
        }
    }
}

impl Clone for Value {
    fn clone(&self) -> (r: Self)
        ensures
            r.text() == self.text(),
    {
        self.duplicate()
    }
}

impl Value {
    /// The list of the strings of `items`, in their order.
    pub fn strands(items: Vec<&str>) -> (v: Value)
        ensures
            v matches Value::Array(list) && list@.len() == items@.len() && forall|i: int|
                0 <= i < list@.len() ==> (#[trigger] list@[i] matches Value::Strand(s) && s@
                    == items@[i]@),
    {
        let mut list: Vec<Value> = Vec::new();
        let mut i: usize = 0;
        while i < items.len()
            invariant
                i <= items.len(),
                list@.len() == i,
                forall|j: int|
                    0 <= j < i ==> (#[trigger] list@[j] matches Value::Strand(s) && s@
                        == items@[j]@),
            decreases items.len() - i,
        {
            list.push(Value::strand(items[i]));
            i += 1;
        }
        Value::Array(list)
    }
}

/// What can stand where a statement names its target.
pub trait IntoTable: Sized {
    /// Whether `v` is the value that stands for `self`.
    spec fn stands_as(self, v: Value) -> bool;

    /// The value that stands for the target.
    fn to_table(self) -> (v: Value)
        ensures
            self.stands_as(v),
    ;
}

impl IntoTable for SurrrealTable {
    /// A table and a record stand as they are; a path stands as the string
    /// of its text.
    open spec fn stands_as(self, v: Value) -> bool {
        match self {
            SurrrealTable::Table(t) => v == Value::Table(t),
            SurrrealTable::Thing(t) => v == Value::Thing(t),
            SurrrealTable::Edges(e) => v matches Value::Strand(s) && s@ == e.text(),
        }
    }

    fn to_table(self) -> (v: Value) {
        Value::from_table(self)
    }
}

impl IntoTable for Table {
    open spec fn stands_as(self, v: Value) -> bool {
        v == Value::Table(self)
    }

    fn to_table(self) -> (v: Value) {
        Value::Table(self)
    }
}

impl IntoTable for Thing {
    open spec fn stands_as(self, v: Value) -> bool {
        v == Value::Thing(self)
    }

    fn to_table(self) -> (v: Value) {
        Value::Thing(self)
    }
}

} // verus!
