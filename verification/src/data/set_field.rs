//! Assignments: a field, an operator and a value.

use crate::value::data::Value;
use crate::value::field::Field;
use crate::value::operator::Operator;
use vstd::prelude::*;

verus! {

/// One assignment of a SET clause.
#[derive(Clone, Debug, PartialEq)]
pub struct SetField {
    field: Field,
    op: Operator,
    value: Value,
}

/// What an assignment holds.
pub struct SetFieldView {
    pub field: Field,
    pub op: Operator,
    pub value: Value,
}

impl View for SetField {
    type V = SetFieldView;

    closed spec fn view(&self) -> SetFieldView {
        SetFieldView { field: self.field, op: self.op, value: self.value }
    }
}

impl SetFieldView {
    /// The assignment as it stands in a query.
    pub open spec fn text(self) -> Seq<char> {
        self.field.text() + " "@ + self.op.text() + " "@ + self.value.text()
    }
}

impl SetField {
    /// The assignment of `value` to `field`, by `op` or, where none is
    /// given, by `=`.
    pub fn new(field: Field, op: Option<Operator>, value: Value) -> (sf: SetField)
        ensures
            sf@ == (SetFieldView {
                field,
                op: match op {
                    Some(o) => o,
                    None => Operator::Equal,
                },
                value,
            }),
    {
        let op = match op {
            Some(o) => o,
            None => Operator::Equal,
        };
        SetField { field, op, value }
    }

    pub fn field(self, field: Field) -> (sf: SetField)
        ensures
            sf@ == (SetFieldView { field, ..self@ }),
    {
        SetField { field, op: self.op, value: self.value }
    }

    pub fn op(self, op: Operator) -> (sf: SetField)
        ensures
            sf@ == (SetFieldView { op, ..self@ }),
    {
        SetField { field: self.field, op, value: self.value }
    }

    pub fn value(self, value: Value) -> (sf: SetField)
        ensures
            sf@ == (SetFieldView { value, ..self@ }),
    {
        SetField { field: self.field, op: self.op, value }
    }

    /// The three parts of the assignment.
    pub fn to_origin(self) -> (parts: (Field, Operator, Value))
        ensures
            parts == (self@.field, self@.op, self@.value),
    {
        (self.field, self.op, self.value)
    }

    pub fn to_string(&self) -> (out: String)
        ensures
            out@ == self@.text(),
    {
        let mut out = self.field.to_string();
        let value = self.value.to_string();
        out.append(" ");
        out.append(self.op.symbol());
        out.append(" ");
        out.append(value.as_str());
        assert(out@ =~= self@.text());
        out
    }

    /// The three parts of the assignment, lent.
    pub fn parts(&self) -> (parts: (&Field, Operator, &Value))
        ensures
            *parts.0 == self@.field,
            parts.1 == self@.op,
            *parts.2 == self@.value,
    {
        (&self.field, self.op, &self.value)
    }
}

impl Default for SetField {
    /// `* = NONE`.
    fn default() -> (sf: SetField)
        ensures
            sf@ == (SetFieldView { field: Field::All, op: Operator::Equal, value: Value::Nothing }),
    {
        SetField { field: Field::All, op: Operator::Equal, value: Value::Nothing }
    }
}

impl<'a> From<(&'a str, &'a str)> for SetField {
    /// The assignment of a string to a field.
    fn from(value: (&'a str, &'a str)) -> (r: Self)
        ensures
            r@.op == Operator::Equal && (r@.field matches Field::Single { name, alias } && name@ == value.0@ && alias is None) && (r@.value matches Value::Strand(s) && s@ == value.1@),
    {
        SetField::new(Field::single(value.0, None), None, Value::strand(value.1))
    }
}

impl<'a> vstd::std_specs::convert::FromSpecImpl<(&'a str, &'a str)> for SetField {
    open spec fn obeys_from_spec() -> bool {
        false
    }

    open spec fn from_spec(v: (&'a str, &'a str)) -> Self {
        arbitrary()
    }
}

impl<'a> From<(&'a str, Operator, &'a str)> for SetField {
    /// The assignment of a string to a field by an operator.
    fn from(value: (&'a str, Operator, &'a str)) -> (r: Self)
        ensures
            r@.op == value.1 && (r@.field matches Field::Single { name, alias } && name@ == value.0@ && alias is None) && (r@.value matches Value::Strand(s) && s@ == value.2@),
    {
        SetField::new(Field::single(value.0, None), Some(value.1), Value::strand(value.2))
    }
}

impl<'a> vstd::std_specs::convert::FromSpecImpl<(&'a str, Operator, &'a str)> for SetField {
    open spec fn obeys_from_spec() -> bool {
        false
    }

    open spec fn from_spec(v: (&'a str, Operator, &'a str)) -> Self {
        arbitrary()
    }
}

} // verus!
