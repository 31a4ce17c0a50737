//! The data of an INSERT statement.

use crate::data::set_field::SetField;
use crate::data::update::{field_side_texts, value_side_texts};
use crate::error::Error;
use crate::text::{joined, lemma_joined_push};
use crate::value::data::Value;
use crate::value::field::Field;
use crate::value::operator::Operator;
use vstd::prelude::*;

verus! {

/// The data of an INSERT: fields with their values, or a content, which is
/// one record or a list of records.
#[derive(Clone, Debug, PartialEq)]
pub enum InsertData {
    /// A list of fields and values, the VALUES form.
    Sets(Vec<SetField>),
    Content(Value),
}

impl InsertData {
    /// The data as it stands in a query: the fields in brackets, `VALUES`
    /// and the values in brackets, or the bare content.
    pub open spec fn text(self) -> Seq<char> {
        match self {
            InsertData::Sets(list) => "("@ + joined(field_side_texts(list@), ", "@) + ") VALUES ("@
                + joined(value_side_texts(list@), ", "@) + ")"@,
            InsertData::Content(v) => v.text(),
        }
    }

    /// The list of fields and values, still empty.
    pub fn set() -> (d: InsertData)
        ensures
            d matches InsertData::Sets(list) && list@.len() == 0,
    {
        InsertData::Sets(Vec::new())
    }

    pub fn content(value: Value) -> (d: InsertData)
        ensures
            d == InsertData::Content(value),
    {
        InsertData::Content(value)
    }

    /// The list with `field` and its `value` as the new last pair.
    pub fn push(self, field: &str, value: Value) -> (d: InsertData)
        requires
            self is Sets,
        ensures
            d matches InsertData::Sets(list) && list@.len() == self->Sets_0@.len() + 1
                && list@.drop_last() == self->Sets_0@ && list@.last()@.value == value
                && list@.last()@.op == Operator::Equal && (list@.last()@.field matches Field::Single {
                name,
                alias,
            } && name@ == field@ && alias is None),
    {
        match self {
            InsertData::Sets(mut list) => {
                let ghost before = list@;
                list.push(SetField::new(Field::single(field, None), None, value));
                assert(list@.drop_last() =~= before);
                InsertData::Sets(list)
            },
            other => other,
        }
    }

    /// The list with one pair more; a content takes none.
    pub fn try_push(self, field: &str, value: Value) -> (r: Result<InsertData, Error>)
        ensures
            self is Sets ==> (r matches Ok(InsertData::Sets(list)) && list@.len()
                == self->Sets_0@.len() + 1 && list@.drop_last() == self->Sets_0@
                && list@.last()@.value == value && list@.last()@.op == Operator::Equal && (
            list@.last()@.field matches Field::Single { name, alias } && name@ == field@
                && alias is None)),
            !(self is Sets) ==> r == Err::<InsertData, Error>(Error::ShapeViolation),
    {
        match self {
            InsertData::Sets(list) => Ok(InsertData::Sets(list).push(field, value)),
            _ => Err(Error::ShapeViolation),
        }
    }

    pub fn to_string(&self) -> (out: String)
        ensures
            out@ == self.text(),
    {
        match self {
            InsertData::Sets(list) => {
                let mut fields = String::from_str("(");
                let mut values = String::new();
                let mut i: usize = 0;
                while i < list.len()
                    invariant
                        i <= list.len(),
                        fields@ == "("@ + joined(
                            field_side_texts(list@).subrange(0, i as int),
                            ", "@,
                        ),
                        values@ == joined(value_side_texts(list@).subrange(0, i as int), ", "@),
                    decreases list.len() - i,
                {
                    if i > 0 {
                        fields.append(", ");
                        values.append(", ");
                    }
                    let parts = list[i].parts();
                    let sides = (parts.0.to_string(), parts.2.to_string());
                    fields.append(sides.0.as_str());
                    values.append(sides.1.as_str());
                    proof {
                        let f = field_side_texts(list@);
                        let v = value_side_texts(list@);
                        lemma_joined_push(f.subrange(0, i as int), ", "@, sides.0@);
                        lemma_joined_push(v.subrange(0, i as int), ", "@, sides.1@);
                        assert(f.subrange(0, i as int).push(sides.0@) =~= f.subrange(0, i + 1));
                        assert(v.subrange(0, i as int).push(sides.1@) =~= v.subrange(0, i + 1));
                        assert(values@ =~= joined(v.subrange(0, i + 1), ", "@));
                    }
                    i += 1;
                }
                proof {
                    let f = field_side_texts(list@);
                    let v = value_side_texts(list@);
                    assert(f.subrange(0, i as int) =~= f);
                    assert(v.subrange(0, i as int) =~= v);
                }
                fields.append(") VALUES (");
                fields.append(values.as_str());
                fields.append(")");
                fields
            },
            InsertData::Content(v) => v.to_string(),
        }
    }
}

} // verus!
