use vstd::prelude::*;

verus! {

/// The content of one SQLite value cell.
#[derive(Clone, Debug, PartialEq, Eq)]
pub enum Value {
    Null,
    Integer(i64),
    Text(String),
    Blob(Vec<u8>),
}

/// A read-only view of one value cell: a function argument or a constraint operand.
#[derive(Debug)]
pub struct ValueRef {
    value: Value,
    nochange: bool,
}

impl ValueRef {
    /// The cell's content.
    pub closed spec fn content(&self) -> Value {
        self.value
    }

    /// Whether the cell stands for an unchanged column of an UPDATE.
    pub closed spec fn is_nochange(&self) -> bool {
        self.nochange
    }

    /// A cell holding `value`.
    pub fn new(value: Value) -> (r: ValueRef)
        ensures
            r.content() == value,
            !r.is_nochange(),
    {
        ValueRef { value, nochange: false }
    }

    /// A cell for a column that an UPDATE leaves unchanged; it reads as NULL.
    pub fn unchanged() -> (r: ValueRef)
        ensures
            r.content() == Value::Null,
            r.is_nochange(),
    {
        ValueRef { value: Value::Null, nochange: true }
    }

    /// The cell's content.
    pub fn value(&self) -> (r: &Value)
        ensures
            *r == self.content(),
    {
        &self.value
    }

    /// Whether the cell holds NULL.
    pub fn is_null(&self) -> (r: bool)
        ensures
            r == (self.content() is Null),
    {
        match &self.value {
            Value::Null => true,
            _ => false,
        }
    }

    /// Whether the cell stands for an unchanged column of an UPDATE.
    pub fn nochange(&self) -> (r: bool)
        ensures
            r == self.is_nochange(),
    {
        self.nochange
    }

    /// The cell read as an integer: its integer, or 0 for a cell of another type.
    pub fn get_i64(&self) -> (r: i64)
        ensures
            r == match self.content() {
                Value::Integer(i) => i,
                _ => 0,
            },
    {
        match &self.value {
            Value::Integer(i) => *i,
            _ => 0,
        }
    }
}

} // verus!
