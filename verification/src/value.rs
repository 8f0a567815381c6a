//! Plain iteration and property values.
//!
//! Iteration policies and property maps carry structured values.  The engine
//! never looks inside such a value: it only moves values into the template
//! context, so a small closed union of plain shapes is enough.

use vstd::prelude::*;

verus! {

/// One iteration or property value.
#[derive(PartialEq, Eq, Debug)]
pub enum Value {
    Null,
    Bool(bool),
    Int(i64),
    Str(String),
}

impl Clone for Value {
    fn clone(&self) -> (res: Self)
        ensures
            res == *self,
    {
        match self {
            Value::Null => Value::Null,
            Value::Bool(b) => Value::Bool(*b),
            Value::Int(i) => Value::Int(*i),
            Value::Str(s) => Value::Str(s.clone()),
        }
    }
}

} // verus!
