//! The JSON-shaped document value used for arguments, results and payloads.
use vstd::prelude::*;

verus! {

/// A JSON number, kept in the form it was written in.
#[derive(Debug, Clone, Copy, PartialEq)]
pub enum Number {
    SignedInteger(i64),
    UnsignedInteger(u64),
    /// A binary64 floating-point number, held as its IEEE-754 bit pattern.
    Decimal(u64),
}

/// A JSON-shaped value. An object is a list of entries in which a later entry
/// shadows an earlier one with the same key.
#[derive(Debug, PartialEq)]
pub enum Value {
    Null,
    Bool(bool),
    Number(Number),
    String(String),
    Array(Vec<Value>),
    Object(Vec<(String, Value)>),
}

/// The number as an unsigned integer, where it is one.
pub open spec fn number_as_u64(n: Number) -> Option<u64> {
    match n {
        Number::UnsignedInteger(u) => Some(u),
        Number::SignedInteger(i) => if i >= 0 {
            Some(i as u64)
        } else {
            None
        },
        Number::Decimal(_) => None,
    }
}

/// The value as an unsigned integer, where it is a number that is one.
pub open spec fn value_as_u64(v: Value) -> Option<u64> {
    match v {
        Value::Number(n) => number_as_u64(n),
        _ => None,
    }
}

/// The text of a string value.
pub open spec fn value_text(v: Value) -> Option<Seq<char>> {
    match v {
        Value::String(s) => Some(s@),
        _ => None,
    }
}

impl Number {
    pub fn is_i64(&self) -> (r: bool)
        ensures
            r == (*self is SignedInteger),
    {
        match self {
            Number::SignedInteger(_) => true,
            _ => false,
        }
    }

    pub fn as_i64(&self) -> (r: Option<i64>)
        ensures
            r == (match *self {
                Number::SignedInteger(i) => Some(i),
                _ => None,
            }),
    {
        match self {
            Number::SignedInteger(i) => Some(*i),
            _ => None,
        }
    }

    pub fn is_u64(&self) -> (r: bool)
        ensures
            r == (*self is UnsignedInteger),
    {
        match self {
            Number::UnsignedInteger(_) => true,
            _ => false,
        }
    }

    pub fn as_u64(&self) -> (r: Option<u64>)
        ensures
            r == (match *self {
                Number::UnsignedInteger(u) => Some(u),
                _ => None,
            }),
    {
        match self {
            Number::UnsignedInteger(u) => Some(*u),
            _ => None,
        }
    }

    pub fn is_f64(&self) -> (r: bool)
        ensures
            r == (*self is Decimal),
    {
        match self {
            Number::Decimal(_) => true,
            _ => false,
        }
    }

    /// The number as an unsigned integer: an unsigned one, or a signed one that is
    /// not negative.
    pub fn to_u64(&self) -> (r: Option<u64>)
        ensures
            r == number_as_u64(*self),
    {
        match self {
            Number::UnsignedInteger(u) => Some(*u),
            Number::SignedInteger(i) => if *i >= 0 {
                Some(*i as u64)
            } else {
                None
            },
            Number::Decimal(_) => None,
        }
    }
}

impl Value {
    pub fn is_null(&self) -> (r: bool)
        ensures
            r == (*self is Null),
    {
        match self {
            Value::Null => true,
            _ => false,
        }
    }

    pub fn as_null(&self) -> (r: Option<()>)
        ensures
            r is Some <==> *self is Null,
    {
        match self {
            Value::Null => Some(()),
            _ => None,
        }
    }

    pub fn is_bool(&self) -> (r: bool)
        ensures
            r == (*self is Bool),
    {
        match self {
            Value::Bool(_) => true,
            _ => false,
        }
    }

    pub fn as_bool(&self) -> (r: Option<&bool>)
        ensures
            match *self {
                Value::Bool(b) => r == Some(&b),
                _ => r is None,
            },
    {
        match self {
            Value::Bool(b) => Some(b),
            _ => None,
        }
    }

    pub fn is_number(&self) -> (r: bool)
        ensures
            r == (*self is Number),
    {
        match self {
            Value::Number(_) => true,
            _ => false,
        }
    }

    pub fn as_number(&self) -> (r: Option<&Number>)
        ensures
            match *self {
                Value::Number(n) => r == Some(&n),
                _ => r is None,
            },
    {
        match self {
            Value::Number(n) => Some(n),
            _ => None,
        }
    }

    pub fn is_string(&self) -> (r: bool)
        ensures
            r == (*self is String),
    {
        match self {
            Value::String(_) => true,
            _ => false,
        }
    }

    pub fn as_string(&self) -> (r: Option<&String>)
        ensures
            match *self {
                Value::String(s) => r == Some(&s),
                _ => r is None,
            },
    {
        match self {
            Value::String(s) => Some(s),
            _ => None,
        }
    }

    pub fn is_array(&self) -> (r: bool)
        ensures
            r == (*self is Array),
    {
        match self {
            Value::Array(_) => true,
            _ => false,
        }
    }

    pub fn as_array(&self) -> (r: Option<&Vec<Value>>)
        ensures
            match *self {
                Value::Array(a) => r == Some(&a),
                _ => r is None,
            },
    {
        match self {
            Value::Array(a) => Some(a),
            _ => None,
        }
    }

    pub fn is_object(&self) -> (r: bool)
        ensures
            r == (*self is Object),
    {
        match self {
            Value::Object(_) => true,
            _ => false,
        }
    }

    pub fn as_object(&self) -> (r: Option<&Vec<(String, Value)>>)
        ensures
            match *self {
                Value::Object(o) => r == Some(&o),
                _ => r is None,
            },
    {
        match self {
            Value::Object(o) => Some(o),
            _ => None,
        }
    }

    /// The value as an unsigned integer, where it is a number that is one.
    pub fn to_u64(&self) -> (r: Option<u64>)
        ensures
            r == value_as_u64(*self),
    {
        match self {
            Value::Number(n) => n.to_u64(),
            _ => None,
        }
    }
}

} // verus!
