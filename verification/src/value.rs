//! Bound values, and the conversion of a raw string into each scalar type.

use vstd::prelude::*;

verus! {

/// The scalar types that a field can have.
#[derive(Debug, Clone, Copy, PartialEq, Eq, Structural)]
pub enum ScalarType {
    /// A string, taken as it is.
    Text,
    /// `true` or `false`.
    Bool,
    /// An unsigned integer of 16 bits.
    U16,
    /// An unsigned integer of 64 bits.
    U64,
    /// A signed integer of 64 bits.
    I64,
}

impl ScalarType {
    /// The scalar type that a type name stands for, if it is one of them.
    pub open spec fn named(name: Seq<char>) -> Option<ScalarType> {
        if name == "String"@ {
            Some(ScalarType::Text)
        } else if name == "bool"@ {
            Some(ScalarType::Bool)
        } else if name == "u16"@ {
            Some(ScalarType::U16)
        } else if name == "u64"@ {
            Some(ScalarType::U64)
        } else if name == "i64"@ {
            Some(ScalarType::I64)
        } else {
            None
        }
    }

    /// The scalar type that `name` stands for, if it is one of them.
    pub fn from_type_name(name: &str) -> (r: Option<ScalarType>)
        ensures
            r == ScalarType::named(name@),
    {
        let name = name.to_owned();
        if name == "String".to_owned() {
            Some(ScalarType::Text)
        } else if name == "bool".to_owned() {
            Some(ScalarType::Bool)
        } else if name == "u16".to_owned() {
            Some(ScalarType::U16)
        } else if name == "u64".to_owned() {
            Some(ScalarType::U64)
        } else if name == "i64".to_owned() {
            Some(ScalarType::I64)
        } else {
            None
        }
    }
}

/// What a field holds after a successful bind.
#[derive(Debug, PartialEq, Eq)]
pub enum Value {
    Text(String),
    Bool(bool),
    U16(u16),
    U64(u64),
    I64(i64),
    /// An optional field whose key is absent from the source.
    Absent,
    /// A nested schema's fields, in declaration order.
    Record(Vec<Value>),
}

/// Mathematical model of a [`Value`].
pub enum ValueView {
    Text(Seq<char>),
    Bool(bool),
    U16(u16),
    U64(u64),
    I64(i64),
    Absent,
    Record(Seq<ValueView>),
}

/// The model of a value, by recursion over nested records.
pub open spec fn value_view(v: Value) -> ValueView
    decreases v,
{
    match v {
        Value::Text(s) => ValueView::Text(s@),
        Value::Bool(b) => ValueView::Bool(b),
        Value::U16(n) => ValueView::U16(n),
        Value::U64(n) => ValueView::U64(n),
        Value::I64(n) => ValueView::I64(n),
        Value::Absent => ValueView::Absent,
        Value::Record(fields) => ValueView::Record(
            Seq::new(
                fields@.len(),
                |i: int|
                    if 0 <= i < fields@.len() {
                        value_view(fields@[i])
                    } else {
                        ValueView::Absent
                    },
            ),
        ),
    }
}

impl View for Value {
    type V = ValueView;

    open spec fn view(&self) -> ValueView {
        value_view(*self)
    }
}

/// The views of a list of values, item by item.
pub open spec fn record_view(fields: Seq<Value>) -> Seq<ValueView> {
    Seq::new(fields.len(), |i: int| fields[i]@)
}

} // verus!
