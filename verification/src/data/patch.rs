//! Patch operations: the steps of a JSON patch.

use crate::data::update::UpdateData;
use crate::text::lex_lt;
use crate::value::data::{slot_of, Entry, Object, Value};
use vstd::prelude::*;

verus! {

/// One operation of a patch, kept as the object that stands for it.
#[derive(Clone, Debug, PartialEq)]
pub struct PatchOp(Value);

impl View for PatchOp {
    type V = Value;

    /// The object that stands for the operation.
    closed spec fn view(&self) -> Value {
        self.0
    }
}

/// Whether `entry` holds the string `s` under `key`.
pub open spec fn holds_string(entry: Entry, key: Seq<char>, s: Seq<char>) -> bool {
    entry.key@ == key && (entry.value matches Value::Strand(t) && t@ == s)
}

/// Whether `v` is an object that starts with the entries `op` and `path`,
/// each a string, and has `len` entries.
pub open spec fn is_operation(v: Value, op: Seq<char>, path: Seq<char>, len: nat) -> bool {
    v matches Value::Object(o) && o@.len() == len && len >= 2 && holds_string(o@[0], "op"@, op)
        && holds_string(o@[1], "path"@, path)
}

/// The third entry of an operation's object.
pub open spec fn third(v: Value) -> Entry {
    v->Object_0@[2]
}

proof fn lemma_key_order()
    ensures
        lex_lt("op"@, "path"@),
        lex_lt("op"@, "value"@),
        lex_lt("path"@, "value"@),
        !lex_lt("path"@, "op"@),
        !lex_lt("value"@, "op"@),
        !lex_lt("value"@, "path"@),
{
    reveal_strlit("op");
    reveal_strlit("path");
    reveal_strlit("value");
}

/// The object with the entries `op` and `path`.
fn operation(op: &str, path: &str) -> (o: Object)
    ensures
        is_operation(Value::Object(o), op@, path@, 2),
{
    let o0 = Object::new();
    let o1 = o0.insert("op", Value::strand(op));
    proof {
        lemma_key_order();
        reveal_with_fuel(slot_of, 3);
        assert(o1@.drop_last().len() == 0);
    }
    let o2 = o1.insert("path", Value::strand(path));
    o2
}

/// The object of `operation` with `value` under `value`.
fn with_value(op: &str, path: &str, value: Value) -> (o: Object)
    ensures
        is_operation(Value::Object(o), op@, path@, 3),
        o@[2].key@ == "value"@,
        o@[2].value == value,
{
    let o2 = operation(op, path);
    proof {
        lemma_key_order();
        reveal_with_fuel(slot_of, 3);
        assert(o2@.drop_last().len() == 1);
        assert(o2@.drop_last().drop_last().len() == 0);
    }
    o2.insert("value", value)
}

impl PatchOp {
    /// The operation that adds `value` at `path`.
    pub fn add(path: &str, value: Value) -> (p: PatchOp)
        ensures
            is_operation(p@, "add"@, path@, 3),
            third(p@).key@ == "value"@,
            third(p@).value == value,
    {
        PatchOp(Value::Object(with_value("add", path, value)))
    }

    /// The operation that removes what is at `path`.
    pub fn remove(path: &str) -> (p: PatchOp)
        ensures
            is_operation(p@, "remove"@, path@, 2),
    {
        PatchOp(Value::Object(operation("remove", path)))
    }

    /// The operation that puts `value` in place of what is at `path`.
    pub fn replace(path: &str, value: Value) -> (p: PatchOp)
        ensures
            is_operation(p@, "replace"@, path@, 3),
            third(p@).key@ == "value"@,
            third(p@).value == value,
    {
        PatchOp(Value::Object(with_value("replace", path, value)))
    }

    /// The operation that applies the text diff `diff` to the string at `path`.
    pub fn change(path: &str, diff: &str) -> (p: PatchOp)
        ensures
            is_operation(p@, "change"@, path@, 3),
            holds_string(third(p@), "value"@, diff@),
    {
        PatchOp(Value::Object(with_value("change", path, Value::strand(diff))))
    }

    /// The object that stands for the operation.
    pub fn to_value(self) -> (v: Value)
        ensures
            v == self@,
    {
        self.0
    }

    /// The data of an UPDATE that applies this one operation.
    pub fn to_origin(self) -> (d: UpdateData)
        ensures
            d == UpdateData::Patch(self@),
    {
        UpdateData::Patch(self.0)
    }

    pub fn to_string(&self) -> (out: String)
        ensures
            out@ == self@.text(),
    {
        self.0.to_string()
    }
}

impl From<PatchOp> for Value {
    /// The object that stands for the operation.
    fn from(value: PatchOp) -> (r: Self)
        ensures
            r == value@,
    {
        value.to_value()
    }
}

impl vstd::std_specs::convert::FromSpecImpl<PatchOp> for Value {
    open spec fn obeys_from_spec() -> bool {
        true
    }

    open spec fn from_spec(v: PatchOp) -> Self {
        v@
    }
}

} // verus!
