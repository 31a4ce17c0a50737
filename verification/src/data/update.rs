//! The four forms of data of a write statement, and the forms that CREATE
//! and INSERT take.

use crate::data::patch::PatchOp;
use crate::data::set_field::SetField;
use crate::error::Error;
use crate::text::{joined, lemma_joined_push};
use crate::value::data::Value;
use vstd::prelude::*;

verus! {

/// The text of each assignment of a list.
pub open spec fn assignment_texts(list: Seq<SetField>) -> Seq<Seq<char>> {
    Seq::new(list.len(), |i: int| list[i]@.text())
}

/// The text of the field of each assignment of a list.
pub open spec fn field_side_texts(list: Seq<SetField>) -> Seq<Seq<char>> {
    Seq::new(list.len(), |i: int| list[i]@.field.text())
}

/// The text of the value of each assignment of a list.
pub open spec fn value_side_texts(list: Seq<SetField>) -> Seq<Seq<char>> {
    Seq::new(list.len(), |i: int| list[i]@.value.text())
}

/// The assignments of a list, with a comma and a space between them.
pub open spec fn assignments_text(list: Seq<SetField>) -> Seq<char> {
    joined(assignment_texts(list), ", "@)
}

/// The assignments of a list as they stand in a query, in the list's order.
pub fn render_assignments(list: &Vec<SetField>) -> (out: String)
    ensures
        out@ == assignments_text(list@),
{
    let mut out = String::new();
    let mut i: usize = 0;
    while i < list.len()
        invariant
            i <= list.len(),
            out@ == joined(assignment_texts(list@).subrange(0, i as int), ", "@),
        decreases list.len() - i,
    {
        if i > 0 {
            out.append(", ");
        }
        let piece = list[i].to_string();
        out.append(piece.as_str());
        proof {
            let all = assignment_texts(list@);
            lemma_joined_push(all.subrange(0, i as int), ", "@, piece@);
            assert(all.subrange(0, i as int).push(piece@) =~= all.subrange(0, i + 1));
            assert(out@ =~= joined(all.subrange(0, i + 1), ", "@));
        }
        i += 1;
    }
    assert(assignment_texts(list@).subrange(0, i as int) =~= assignment_texts(list@));
    out
}

/// The data of an UPDATE: assignments, a whole content, a content to merge,
/// or a list of patch operations.
#[derive(Clone, Debug, PartialEq)]
pub enum UpdateData {
    /// A list of assignments, the SET form.
    Sets(Vec<SetField>),
    Content(Value),
    Merge(Value),
    Patch(Value),
}

impl UpdateData {
    /// The data as it stands in a query: `SET` and the assignments, the bare
    /// content, `MERGE` and the content, or the bare list of operations.
    pub open spec fn text(self) -> Seq<char> {
        match self {
            UpdateData::Sets(list) => "SET "@ + assignments_text(list@),
            UpdateData::Content(v) => v.text(),
            UpdateData::Merge(v) => "MERGE "@ + v.text(),
            UpdateData::Patch(v) => v.text(),
        }
    }

    /// The list of assignments, still empty.
    pub fn set() -> (d: UpdateData)
        ensures
            d matches UpdateData::Sets(list) && list@.len() == 0,
    {
        UpdateData::Sets(Vec::new())
    }

    /// The list with `sf` as its new last assignment.
    pub fn push(self, sf: SetField) -> (d: UpdateData)
        requires
            self is Sets,
        ensures
            d matches UpdateData::Sets(list) && list@ == self->Sets_0@.push(sf),
    {
        match self {
            UpdateData::Sets(mut list) => {
                list.push(sf);
                UpdateData::Sets(list)
            },
            other => other,
        }
    }

    /// The list with `sf` as its new last assignment; no other form of data
    /// takes an assignment.
    pub fn try_push(self, sf: SetField) -> (r: Result<UpdateData, Error>)
        ensures
            self is Sets ==> (r matches Ok(UpdateData::Sets(list)) && list@ == self->Sets_0@.push(
                sf,
            )),
            !(self is Sets) ==> r == Err::<UpdateData, Error>(Error::ShapeViolation),
    {
        match self {
            UpdateData::Sets(list) => Ok(UpdateData::Sets(list).push(sf)),
            _ => Err(Error::ShapeViolation),
        }
    }

    /// The list without its last assignment; the empty list stays empty.
    pub fn pop(self) -> (d: UpdateData)
        requires
            self is Sets,
        ensures
            d matches UpdateData::Sets(list) && list@ == if self->Sets_0@.len() > 0 {
                self->Sets_0@.drop_last()
            } else {
                self->Sets_0@
            },
    {
        match self {
            UpdateData::Sets(mut list) => {
                let _last = list.pop();
                UpdateData::Sets(list)
            },
            other => other,
        }
    }

    /// The list without its last assignment; no other form of data has one.
    pub fn try_pop(self) -> (r: Result<UpdateData, Error>)
        ensures
            self is Sets ==> (r matches Ok(UpdateData::Sets(list)) && list@ == if self->Sets_0@.len()
                > 0 {
                self->Sets_0@.drop_last()
            } else {
                self->Sets_0@
            }),
            !(self is Sets) ==> r == Err::<UpdateData, Error>(Error::ShapeViolation),
    {
        match self {
            UpdateData::Sets(list) => Ok(UpdateData::Sets(list).pop()),
            _ => Err(Error::ShapeViolation),
        }
    }

    pub fn content(value: Value) -> (d: UpdateData)
        ensures
            d == UpdateData::Content(value),
    {
        UpdateData::Content(value)
    }

    pub fn merge(value: Value) -> (d: UpdateData)
        ensures
            d == UpdateData::Merge(value),
    {
        UpdateData::Merge(value)
    }

    /// The list of the operations' objects, in the operations' order.
    pub fn patch(value: Vec<PatchOp>) -> (d: UpdateData)
        ensures
            d matches UpdateData::Patch(Value::Array(items)) && items@.len() == value@.len()
                && forall|i: int| 0 <= i < items@.len() ==> items@[i] == value@[i]@,
    {
        let mut value = value;
        let mut items: Vec<Value> = Vec::new();
        let ghost ops = value@;
        let n = value.len();
        let mut i: usize = 0;
        while i < n
            invariant
                i <= n,
                n == ops.len(),
                value@ == ops.subrange(0, n - i),
                items@.len() == i,
                forall|j: int| 0 <= j < i ==> items@[j] == ops[n - i + j]@,
            decreases n - i,
        {
            let op = value.pop().unwrap();
            items.insert(0, op.to_value());
            assert(value@ =~= ops.subrange(0, n - i - 1));
            i += 1;
        }
        UpdateData::Patch(Value::Array(items))
    }

    pub fn is_set(&self) -> (b: bool)
        ensures
            b == (self is Sets),
    {
        matches!(self, UpdateData::Sets(_))
    }

    pub fn is_content(&self) -> (b: bool)
        ensures
            b == (self is Content),
    {
        matches!(self, UpdateData::Content(_))
    }

    pub fn is_patch(&self) -> (b: bool)
        ensures
            b == (self is Patch),
    {
        matches!(self, UpdateData::Patch(_))
    }

    pub fn is_merge(&self) -> (b: bool)
        ensures
            b == (self is Merge),
    {
        matches!(self, UpdateData::Merge(_))
    }

    pub fn to_set(self) -> (r: Option<Vec<SetField>>)
        ensures
            r == if self is Sets { Some(self->Sets_0) } else { None },
    {
        match self {
            UpdateData::Sets(list) => Some(list),
            _ => None,
        }
    }

    pub fn to_content(self) -> (r: Option<Value>)
        ensures
            r == if self is Content { Some(self->Content_0) } else { None },
    {
        match self {
            UpdateData::Content(v) => Some(v),
            _ => None,
        }
    }

    pub fn to_patch(self) -> (r: Option<Value>)
        ensures
            r == if self is Patch { Some(self->Patch_0) } else { None },
    {
        match self {
            UpdateData::Patch(v) => Some(v),
            _ => None,
        }
    }

    pub fn to_merge(self) -> (r: Option<Value>)
        ensures
            r == if self is Merge { Some(self->Merge_0) } else { None },
    {
        match self {
            UpdateData::Merge(v) => Some(v),
            _ => None,
        }
    }

    pub fn to_string(&self) -> (out: String)
        ensures
            out@ == self.text(),
    {
        match self {
            UpdateData::Sets(list) => {
                let mut out = String::from_str("SET ");
                let list = render_assignments(list);
                out.append(list.as_str());
                out
            },
            UpdateData::Content(v) => v.to_string(),
            UpdateData::Merge(v) => {
                let mut out = String::from_str("MERGE ");
                let v = v.to_string();
                out.append(v.as_str());
                out
            },
            UpdateData::Patch(v) => v.to_string(),
        }
    }
}

/// A list of assignments with one more at its end renders as before, with
/// the new assignment behind a comma: what was pushed first stays first.
pub proof fn law_push_keeps_order(list: Seq<SetField>, sf: SetField)
    ensures
        assignment_texts(list.push(sf)) == assignment_texts(list).push(sf@.text()),
        assignments_text(list.push(sf)) == if list.len() == 0 {
            sf@.text()
        } else {
            assignments_text(list) + ", "@ + sf@.text()
        },
{
    assert(assignment_texts(list.push(sf)) =~= assignment_texts(list).push(sf@.text()));
    lemma_joined_push(assignment_texts(list), ", "@, sf@.text());
}

} // verus!
