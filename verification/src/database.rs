//! The plain values a settings store holds, and the conversions the
//! storage backends decide with. The backends themselves do I/O and live
//! outside the library; they hand these values in and out.

use vstd::prelude::*;

verus! {

/// A value as the key/value store keeps it: text or a small number.
#[derive(Debug, Clone, PartialEq, Eq)]
pub enum DatabaseValue {
    Text(String),
    U32(u32),
}

impl From<u32> for DatabaseValue {
    fn from(value: u32) -> (r: DatabaseValue) {
        DatabaseValue::U32(value)
    }
}

impl vstd::std_specs::convert::FromSpecImpl<u32> for DatabaseValue {
    open spec fn obeys_from_spec() -> bool {
        true
    }

    open spec fn from_spec(value: u32) -> DatabaseValue {
        DatabaseValue::U32(value)
    }
}

impl DatabaseValue {
    pub fn from_text(value: String) -> (r: DatabaseValue)
        ensures
            r == DatabaseValue::Text(value),
    {
        DatabaseValue::Text(value)
    }

    /// The text a stored value holds, or the value back if it is numeric.
    pub fn try_into_text(self) -> (r: Result<String, DatabaseValue>)
        ensures
            match self {
                DatabaseValue::Text(s) => r == Ok::<String, DatabaseValue>(s),
                DatabaseValue::U32(_) => r == Err::<String, DatabaseValue>(self),
            },
    {
        match self {
            DatabaseValue::Text(s) => Ok(s),
            DatabaseValue::U32(n) => Err(DatabaseValue::U32(n)),
        }
    }

    /// The number a stored value holds, or the value back if it is text.
    pub fn try_into_u32(self) -> (r: Result<u32, DatabaseValue>)
        ensures
            match self {
                DatabaseValue::U32(n) => r == Ok::<u32, DatabaseValue>(n),
                DatabaseValue::Text(_) => r == Err::<u32, DatabaseValue>(self),
            },
    {
        match self {
            DatabaseValue::U32(n) => Ok(n),
            DatabaseValue::Text(s) => Err(DatabaseValue::Text(s)),
        }
    }
}

/// How a boolean setting reads back from the store: absent means the
/// given default, a stored number means its non-zero test.
pub fn flag_from_stored(stored: Option<u32>, default: bool) -> (r: bool)
    ensures
        r == (match stored {
            None => default,
            Some(v) => v != 0,
        }),
{
    match stored {
        None => default,
        Some(v) => v != 0,
    }
}

/// How a boolean setting is written to the store.
pub fn flag_to_stored(flag: bool) -> (r: u32)
    ensures
        flag <==> r != 0,
{
    if flag {
        1
    } else {
        0
    }
}

} // verus!
