//! The values that a configuration script hands to the operations.

use vstd::prelude::*;

verus! {

/// A script value, as far as the operations look into it.
#[derive(Debug, PartialEq, Eq)]
pub enum Value {
    /// The script's "no value".
    NoValue,
    Bool(bool),
    Int(i64),
    Str(String),
    List(Vec<Value>),
    /// The entries of a dictionary, in the order in which they were inserted.
    Dict(Vec<(Value, Value)>),
    /// An instance of a capability type, known here by the name of its type.
    Object(String),
}

impl Value {
    /// The name that the script's `type()` gives this value.
    pub open spec fn spec_get_type(&self) -> Seq<char> {
        match self {
            Value::NoValue => "NoneType"@,
            Value::Bool(_) => "bool"@,
            Value::Int(_) => "int"@,
            Value::Str(_) => "string"@,
            Value::List(_) => "list"@,
            Value::Dict(_) => "dict"@,
            Value::Object(name) => name@,
        }
    }

    /// The name that the script's `type()` gives this value.
    pub fn get_type(&self) -> (r: &str)
        ensures
            r@ == self.spec_get_type(),
    {
        match self {
            Value::NoValue => "NoneType",
            Value::Bool(_) => "bool",
            Value::Int(_) => "int",
            Value::Str(_) => "string",
            Value::List(_) => "list",
            Value::Dict(_) => "dict",
            Value::Object(name) => name.as_str(),
        }
    }

    /// Whether this is the script's "no value".
    pub fn is_none(&self) -> (r: bool)
        ensures
            r == (self is NoValue),
    {
        match self {
            Value::NoValue => true,
            _ => false,
        }
    }
}

} // verus!
