//! The library's model of a JSON value held in a layout field.
use vstd::prelude::*;

verus! {

/// A JSON value as the layout logic reads it.
///
/// `x`, `y`, `width` and `height` of a layout are free-form JSON values: a
/// keyword string, a number, or `null` when the field is left unset.  The
/// logic reads a number only through its value as an `i64`, so `Int` holds a
/// number that has one and `OtherNumber` any other number (a fraction, or an
/// integer beyond `i64`), of which only the sign is kept.  The contents of arrays and objects are never read.
#[derive(Debug)]
pub enum JsonValue {
    Null,
    Bool(bool),
    Int(i64),
    OtherNumber { negative: bool },
    Str(String),
    Array,
    Object,
}

impl JsonValue {
    /// `serde_json::Value::is_null`.
    pub open spec fn spec_is_null(&self) -> bool {
        self is Null
    }

    pub fn is_null(&self) -> (r: bool)
        ensures
            r == self.spec_is_null(),
    {
        match self {
            JsonValue::Null => true,
            _ => false,
        }
    }

    /// Whether this is the string `s`.
    pub open spec fn is_str(&self, s: Seq<char>) -> bool {
        self matches JsonValue::Str(t) && t@ == s
    }

    /// A copy of this value.
    pub fn copy(&self) -> (r: JsonValue)
        ensures
            r == *self,
    {
        match self {
            JsonValue::Null => JsonValue::Null,
            JsonValue::Bool(b) => JsonValue::Bool(*b),
            JsonValue::Int(i) => JsonValue::Int(*i),
            JsonValue::OtherNumber { negative } => JsonValue::OtherNumber { negative: *negative },
            JsonValue::Str(s) => JsonValue::Str(s.clone()),
            JsonValue::Array => JsonValue::Array,
            JsonValue::Object => JsonValue::Object,
        }
    }
}

} // verus!
