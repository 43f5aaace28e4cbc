//! Conversions from native host scalar types into a [`Value`] wrapping
//! the corresponding scalar leaf.

use vstd::prelude::*;

use crate::model::{BasicV, ValueV};
use crate::types::{BasicValue, Value};

verus! {

impl From<i32> for Value {
    /// Wraps a native signed 32-bit integer as an `Int32` leaf.
    fn from(v: i32) -> (r: Value)
        ensures
            r@ == ValueV::Basic(BasicV::Int32(v)),
    {
        Value::BasicValue(BasicValue::Int32(v))
    }
}

impl vstd::std_specs::convert::FromSpecImpl<i32> for Value {
    open spec fn obeys_from_spec() -> bool {
        true
    }

    open spec fn from_spec(v: i32) -> Value {
        Value::BasicValue(BasicValue::Int32(v))
    }
}

impl From<&str> for Value {
    /// Wraps a native string slice as a `String` leaf with the same
    /// content.
    fn from(v: &str) -> (r: Value)
        ensures
            r@ == ValueV::Basic(BasicV::Str(v@)),
    {
        Value::BasicValue(BasicValue::String(v.to_owned()))
    }
}

impl vstd::std_specs::convert::FromSpecImpl<&str> for Value {
    open spec fn obeys_from_spec() -> bool {
        false
    }

    open spec fn from_spec(v: &str) -> Value {
        Value::BasicValue(BasicValue::String(choose|s: String| s@ == v@))
    }
}


impl From<u8> for Value {
    /// Wraps a native unsigned byte as a `Byte` leaf.
    fn from(v: u8) -> (r: Value)
        ensures
            r@ == ValueV::Basic(BasicV::Byte(v)),
    {
        Value::BasicValue(BasicValue::Byte(v))
    }
}

impl vstd::std_specs::convert::FromSpecImpl<u8> for Value {
    open spec fn obeys_from_spec() -> bool {
        true
    }

    open spec fn from_spec(v: u8) -> Value {
        Value::BasicValue(BasicValue::Byte(v))
    }
}

impl From<bool> for Value {
    /// Wraps a native boolean as a `Boolean` leaf.
    fn from(v: bool) -> (r: Value)
        ensures
            r@ == ValueV::Basic(BasicV::Boolean(v)),
    {
        Value::BasicValue(BasicValue::Boolean(v))
    }
}

impl vstd::std_specs::convert::FromSpecImpl<bool> for Value {
    open spec fn obeys_from_spec() -> bool {
        true
    }

    open spec fn from_spec(v: bool) -> Value {
        Value::BasicValue(BasicValue::Boolean(v))
    }
}

impl From<i16> for Value {
    /// Wraps a native signed 16-bit integer as an `Int16` leaf.
    fn from(v: i16) -> (r: Value)
        ensures
            r@ == ValueV::Basic(BasicV::Int16(v)),
    {
        Value::BasicValue(BasicValue::Int16(v))
    }
}

impl vstd::std_specs::convert::FromSpecImpl<i16> for Value {
    open spec fn obeys_from_spec() -> bool {
        true
    }

    open spec fn from_spec(v: i16) -> Value {
        Value::BasicValue(BasicValue::Int16(v))
    }
}

impl From<u16> for Value {
    /// Wraps a native unsigned 16-bit integer as a `Uint16` leaf.
    fn from(v: u16) -> (r: Value)
        ensures
            r@ == ValueV::Basic(BasicV::Uint16(v)),
    {
        Value::BasicValue(BasicValue::Uint16(v))
    }
}

impl vstd::std_specs::convert::FromSpecImpl<u16> for Value {
    open spec fn obeys_from_spec() -> bool {
        true
    }

    open spec fn from_spec(v: u16) -> Value {
        Value::BasicValue(BasicValue::Uint16(v))
    }
}

impl From<u32> for Value {
    /// Wraps a native unsigned 32-bit integer as a `Uint32` leaf.
    fn from(v: u32) -> (r: Value)
        ensures
            r@ == ValueV::Basic(BasicV::Uint32(v)),
    {
        Value::BasicValue(BasicValue::Uint32(v))
    }
}

impl vstd::std_specs::convert::FromSpecImpl<u32> for Value {
    open spec fn obeys_from_spec() -> bool {
        true
    }

    open spec fn from_spec(v: u32) -> Value {
        Value::BasicValue(BasicValue::Uint32(v))
    }
}

impl From<i64> for Value {
    /// Wraps a native signed 64-bit integer as an `Int64` leaf.
    fn from(v: i64) -> (r: Value)
        ensures
            r@ == ValueV::Basic(BasicV::Int64(v)),
    {
        Value::BasicValue(BasicValue::Int64(v))
    }
}

impl vstd::std_specs::convert::FromSpecImpl<i64> for Value {
    open spec fn obeys_from_spec() -> bool {
        true
    }

    open spec fn from_spec(v: i64) -> Value {
        Value::BasicValue(BasicValue::Int64(v))
    }
}

impl From<u64> for Value {
    /// Wraps a native unsigned 64-bit integer as a `Uint64` leaf.
    fn from(v: u64) -> (r: Value)
        ensures
            r@ == ValueV::Basic(BasicV::Uint64(v)),
    {
        Value::BasicValue(BasicValue::Uint64(v))
    }
}

impl vstd::std_specs::convert::FromSpecImpl<u64> for Value {
    open spec fn obeys_from_spec() -> bool {
        true
    }

    open spec fn from_spec(v: u64) -> Value {
        Value::BasicValue(BasicValue::Uint64(v))
    }
}

impl From<String> for Value {
    /// Wraps a native string as a `String` leaf.
    fn from(v: String) -> (r: Value)
        ensures
            r@ == ValueV::Basic(BasicV::Str(v@)),
    {
        Value::BasicValue(BasicValue::String(v))
    }
}

impl vstd::std_specs::convert::FromSpecImpl<String> for Value {
    open spec fn obeys_from_spec() -> bool {
        true
    }

    open spec fn from_spec(v: String) -> Value {
        Value::BasicValue(BasicValue::String(v))
    }
}

} // verus!
