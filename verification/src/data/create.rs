//! The data of a CREATE statement.

use crate::data::set_field::SetField;
use crate::data::update::{assignments_text, render_assignments};
use crate::error::Error;
use crate::value::data::Value;
use vstd::prelude::*;

verus! {

/// The data of a CREATE: assignments, or the whole content of the record.
#[derive(Clone, Debug, PartialEq)]
pub enum CreateData {
    /// A list of assignments, the SET form.
    Sets(Vec<SetField>),
    Content(Value),
}

impl CreateData {
    /// The clause as it stands in a query: `SET` and the assignments, or
    /// `CONTENT` and the content.
    pub open spec fn text(self) -> Seq<char> {
        match self {
            CreateData::Sets(list) => "SET "@ + assignments_text(list@),
            CreateData::Content(v) => "CONTENT "@ + v.text(),
        }
    }

    /// The list of assignments, still empty.
    pub fn set() -> (d: CreateData)
        ensures
            d matches CreateData::Sets(list) && list@.len() == 0,
    {
        CreateData::Sets(Vec::new())
    }

    pub fn content(value: Value) -> (d: CreateData)
        ensures
            d == CreateData::Content(value),
    {
        CreateData::Content(value)
    }

    /// The list with `sf` as its new last assignment.
    pub fn push(self, sf: SetField) -> (d: CreateData)
        requires
            self is Sets,
        ensures
            d matches CreateData::Sets(list) && list@ == self->Sets_0@.push(sf),
    {
        match self {
            CreateData::Sets(mut list) => {
                list.push(sf);
                CreateData::Sets(list)
            },
            other => other,
        }
    }

    /// The list with `sf` as its new last assignment; a content takes none.
    pub fn try_push(self, sf: SetField) -> (r: Result<CreateData, Error>)
        ensures
            self is Sets ==> (r matches Ok(CreateData::Sets(list)) && list@ == self->Sets_0@.push(
                sf,
            )),
            !(self is Sets) ==> r == Err::<CreateData, Error>(Error::ShapeViolation),
    {
        match self {
            CreateData::Sets(list) => Ok(CreateData::Sets(list).push(sf)),
            _ => Err(Error::ShapeViolation),
        }
    }

    pub fn to_set(self) -> (r: Option<Vec<SetField>>)
        ensures
            r == if self is Sets { Some(self->Sets_0) } else { None },
    {
        match self {
            CreateData::Sets(list) => Some(list),
            _ => None,
        }
    }

    pub fn to_string(&self) -> (out: String)
        ensures
            out@ == self.text(),
    {
        match self {
            CreateData::Sets(list) => {
                let mut out = String::from_str("SET ");
                let list = render_assignments(list);
                out.append(list.as_str());
                out
            },
            CreateData::Content(v) => {
                let mut out = String::from_str("CONTENT ");
                let v = v.to_string();
                out.append(v.as_str());
                out
            },
        }
    }
}

} // verus!
