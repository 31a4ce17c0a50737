//! Conversions between the values, so that a literal can stand where a value
//! is asked for.

use crate::value::data::{Object, Value};
use crate::value::duration::Duration;
use crate::value::table::{Dir, Edges, Id, SurrrealTable, Table, Thing};
use vstd::prelude::*;

verus! {

impl<'a> From<&'a str> for Id {
    /// A string key.
    fn from(value: &'a str) -> (r: Self)
        ensures
            r matches Id::String(s) && s@ == value@,
    {
        Id::string(value)
    }
}

impl<'a> vstd::std_specs::convert::FromSpecImpl<&'a str> for Id {
    open spec fn obeys_from_spec() -> bool {
        false
    }

    open spec fn from_spec(v: &'a str) -> Self {
        arbitrary()
    }
}

impl From<i64> for Id {
    /// A number key.
    fn from(value: i64) -> (r: Self) {
        Id::Number(value)
    }
}

impl vstd::std_specs::convert::FromSpecImpl<i64> for Id {
    open spec fn obeys_from_spec() -> bool {
        true
    }

    open spec fn from_spec(value: i64) -> Self {
        Id::Number(value)
    }
}

impl<'a> From<&'a str> for Table {
    /// The table of that name.
    fn from(value: &'a str) -> (r: Self)
        ensures
            r.0@ == value@,
    {
        Table::new(value)
    }
}

impl<'a> vstd::std_specs::convert::FromSpecImpl<&'a str> for Table {
    open spec fn obeys_from_spec() -> bool {
        false
    }

    open spec fn from_spec(v: &'a str) -> Self {
        arbitrary()
    }
}

impl<'a> From<(&'a str, &'a str)> for Thing {
    /// The record of a table with a string key.
    fn from(value: (&'a str, &'a str)) -> (r: Self)
        ensures
            r.tb@ == value.0@ && (r.id matches Id::String(s) && s@ == value.1@),
    {
        Thing::new(value.0, Id::string(value.1))
    }
}

impl<'a> vstd::std_specs::convert::FromSpecImpl<(&'a str, &'a str)> for Thing {
    open spec fn obeys_from_spec() -> bool {
        false
    }

    open spec fn from_spec(v: (&'a str, &'a str)) -> Self {
        arbitrary()
    }
}

impl<'a> From<(&'a str, Id)> for Thing {
    /// The record of a table with the given key.
    fn from(value: (&'a str, Id)) -> (r: Self)
        ensures
            r.tb@ == value.0@ && r.id == value.1,
    {
        Thing::new(value.0, value.1)
    }
}

impl<'a> vstd::std_specs::convert::FromSpecImpl<(&'a str, Id)> for Thing {
    open spec fn obeys_from_spec() -> bool {
        false
    }

    open spec fn from_spec(v: (&'a str, Id)) -> Self {
        arbitrary()
    }
}

impl<'a> From<&'a str> for SurrrealTable {
    /// A table of that name.
    fn from(value: &'a str) -> (r: Self)
        ensures
            r matches SurrrealTable::Table(t) && t.0@ == value@,
    {
        SurrrealTable::table(value)
    }
}

impl<'a> vstd::std_specs::convert::FromSpecImpl<&'a str> for SurrrealTable {
    open spec fn obeys_from_spec() -> bool {
        false
    }

    open spec fn from_spec(v: &'a str) -> Self {
        arbitrary()
    }
}

impl<'a> From<(&'a str, &'a str)> for SurrrealTable {
    /// A record of a table, with a string key.
    fn from(value: (&'a str, &'a str)) -> (r: Self)
        ensures
            r matches SurrrealTable::Thing(t) && t.tb@ == value.0@ && (t.id matches Id::String(s) && s@ == value.1@),
    {
        SurrrealTable::table_id(value.0, Id::string(value.1))
    }
}

impl<'a> vstd::std_specs::convert::FromSpecImpl<(&'a str, &'a str)> for SurrrealTable {
    open spec fn obeys_from_spec() -> bool {
        false
    }

    open spec fn from_spec(v: (&'a str, &'a str)) -> Self {
        arbitrary()
    }
}

impl<'a> From<(&'a str, Id)> for SurrrealTable {
    /// A record of a table, with the given key.
    fn from(value: (&'a str, Id)) -> (r: Self)
        ensures
            r matches SurrrealTable::Thing(t) && t.tb@ == value.0@ && t.id == value.1,
    {
        SurrrealTable::table_id(value.0, value.1)
    }
}

impl<'a> vstd::std_specs::convert::FromSpecImpl<(&'a str, Id)> for SurrrealTable {
    open spec fn obeys_from_spec() -> bool {
        false
    }

    open spec fn from_spec(v: (&'a str, Id)) -> Self {
        arbitrary()
    }
}

impl From<Table> for SurrrealTable {
    /// The table.
    fn from(value: Table) -> (r: Self) {
        SurrrealTable::Table(value)
    }
}

impl vstd::std_specs::convert::FromSpecImpl<Table> for SurrrealTable {
    open spec fn obeys_from_spec() -> bool {
        true
    }

    open spec fn from_spec(value: Table) -> Self {
        SurrrealTable::Table(value)
    }
}

impl From<Thing> for SurrrealTable {
    /// The record.
    fn from(value: Thing) -> (r: Self) {
        SurrrealTable::Thing(value)
    }
}

impl vstd::std_specs::convert::FromSpecImpl<Thing> for SurrrealTable {
    open spec fn obeys_from_spec() -> bool {
        true
    }

    open spec fn from_spec(value: Thing) -> Self {
        SurrrealTable::Thing(value)
    }
}

impl From<Edges> for SurrrealTable {
    /// The path.
    fn from(value: Edges) -> (r: Self) {
        SurrrealTable::Edges(Box::new(value))
    }
}

impl vstd::std_specs::convert::FromSpecImpl<Edges> for SurrrealTable {
    open spec fn obeys_from_spec() -> bool {
        true
    }

    open spec fn from_spec(value: Edges) -> Self {
        SurrrealTable::Edges(Box::new(value))
    }
}

impl From<(SurrrealTable, Dir, SurrrealTable)> for Edges {
    /// The hop from the first reference to the last.
    fn from(value: (SurrrealTable, Dir, SurrrealTable)) -> (r: Self) {
        Edges { dir: value.1, from: value.0, to: value.2 }
    }
}

impl vstd::std_specs::convert::FromSpecImpl<(SurrrealTable, Dir, SurrrealTable)> for Edges {
    open spec fn obeys_from_spec() -> bool {
        true
    }

    open spec fn from_spec(value: (SurrrealTable, Dir, SurrrealTable)) -> Self {
        Edges { dir: value.1, from: value.0, to: value.2 }
    }
}

impl<'a> From<(&'a str, Dir, &'a str)> for Edges {
    /// The hop from one table to another.
    fn from(value: (&'a str, Dir, &'a str)) -> (r: Self)
        ensures
            r.dir == value.1 && (r.from matches SurrrealTable::Table(f) && f.0@ == value.0@) && (r.to matches SurrrealTable::Table(t) && t.0@ == value.2@),
    {
        Edges::new(SurrrealTable::table(value.0), value.1, SurrrealTable::table(value.2))
    }
}

impl<'a> vstd::std_specs::convert::FromSpecImpl<(&'a str, Dir, &'a str)> for Edges {
    open spec fn obeys_from_spec() -> bool {
        false
    }

    open spec fn from_spec(v: (&'a str, Dir, &'a str)) -> Self {
        arbitrary()
    }
}

impl<'a> From<((&'a str, Id), Dir, (&'a str, Id))> for Edges {
    /// The hop from one record to another.
    fn from(value: ((&'a str, Id), Dir, (&'a str, Id))) -> (r: Self)
        ensures
            r.dir == value.1 && (r.from matches SurrrealTable::Thing(f) && f.tb@ == value.0.0@ && f.id == value.0.1) && (r.to matches SurrrealTable::Thing(t) && t.tb@ == value.2.0@ && t.id == value.2.1),
    {
        Edges::new(SurrrealTable::table_id(value.0.0, value.0.1), value.1, SurrrealTable::table_id(value.2.0, value.2.1))
    }
}

impl<'a> vstd::std_specs::convert::FromSpecImpl<((&'a str, Id), Dir, (&'a str, Id))> for Edges {
    open spec fn obeys_from_spec() -> bool {
        false
    }

    open spec fn from_spec(v: ((&'a str, Id), Dir, (&'a str, Id))) -> Self {
        arbitrary()
    }
}

impl<'a> From<&'a str> for Value {
    /// The string.
    fn from(value: &'a str) -> (r: Self)
        ensures
            r matches Value::Strand(s) && s@ == value@,
    {
        Value::strand(value)
    }
}

impl<'a> vstd::std_specs::convert::FromSpecImpl<&'a str> for Value {
    open spec fn obeys_from_spec() -> bool {
        false
    }

    open spec fn from_spec(v: &'a str) -> Self {
        arbitrary()
    }
}

impl From<i64> for Value {
    /// The number.
    fn from(value: i64) -> (r: Self) {
        Value::Number(value)
    }
}

impl vstd::std_specs::convert::FromSpecImpl<i64> for Value {
    open spec fn obeys_from_spec() -> bool {
        true
    }

    open spec fn from_spec(value: i64) -> Self {
        Value::Number(value)
    }
}

impl From<bool> for Value {
    /// The truth value.
    fn from(value: bool) -> (r: Self) {
        Value::Bool(value)
    }
}

impl vstd::std_specs::convert::FromSpecImpl<bool> for Value {
    open spec fn obeys_from_spec() -> bool {
        true
    }

    open spec fn from_spec(value: bool) -> Self {
        Value::Bool(value)
    }
}

impl From<Duration> for Value {
    /// The duration.
    fn from(value: Duration) -> (r: Self) {
        Value::Duration(value)
    }
}

impl vstd::std_specs::convert::FromSpecImpl<Duration> for Value {
    open spec fn obeys_from_spec() -> bool {
        true
    }

    open spec fn from_spec(value: Duration) -> Self {
        Value::Duration(value)
    }
}

impl From<Vec<Value>> for Value {
    /// The list.
    fn from(value: Vec<Value>) -> (r: Self) {
        Value::Array(value)
    }
}

impl vstd::std_specs::convert::FromSpecImpl<Vec<Value>> for Value {
    open spec fn obeys_from_spec() -> bool {
        true
    }

    open spec fn from_spec(value: Vec<Value>) -> Self {
        Value::Array(value)
    }
}

impl From<Object> for Value {
    /// The object.
    fn from(value: Object) -> (r: Self) {
        Value::Object(value)
    }
}

impl vstd::std_specs::convert::FromSpecImpl<Object> for Value {
    open spec fn obeys_from_spec() -> bool {
        true
    }

    open spec fn from_spec(value: Object) -> Self {
        Value::Object(value)
    }
}

impl From<Table> for Value {
    /// The table.
    fn from(value: Table) -> (r: Self) {
        Value::Table(value)
    }
}

impl vstd::std_specs::convert::FromSpecImpl<Table> for Value {
    open spec fn obeys_from_spec() -> bool {
        true
    }

    open spec fn from_spec(value: Table) -> Self {
        Value::Table(value)
    }
}

impl From<Thing> for Value {
    /// The record.
    fn from(value: Thing) -> (r: Self) {
        Value::Thing(value)
    }
}

impl vstd::std_specs::convert::FromSpecImpl<Thing> for Value {
    open spec fn obeys_from_spec() -> bool {
        true
    }

    open spec fn from_spec(value: Thing) -> Self {
        Value::Thing(value)
    }
}

impl<'a> From<Vec<&'a str>> for Value {
    /// The list of the strings.
    fn from(value: Vec<&'a str>) -> (r: Self)
        ensures
            r matches Value::Array(list) && list@.len() == value@.len() && forall|i: int|
                0 <= i < list@.len() ==> (#[trigger] list@[i] matches Value::Strand(s) && s@
                    == value@[i]@),
    {
        Value::strands(value)
    }
}

impl<'a> vstd::std_specs::convert::FromSpecImpl<Vec<&'a str>> for Value {
    open spec fn obeys_from_spec() -> bool {
        false
    }

    open spec fn from_spec(v: Vec<&'a str>) -> Self {
        arbitrary()
    }
}

} // verus!
