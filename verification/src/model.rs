//! The mathematical model of the value tree: ghost counterparts of the
//! executable types and the signature-derivation rules, stated over
//! `Seq<char>`.

use vstd::prelude::*;

verus! {

/// Ghost counterpart of a scalar leaf: the discriminant plus its payload,
/// with string payloads abstracted to their character sequences.
pub enum BasicV {
    Byte(u8),
    Boolean(bool),
    Int16(i16),
    Uint16(u16),
    Int32(i32),
    Uint32(u32),
    Int64(i64),
    Uint64(u64),
    Str(Seq<char>),
    ObjectPath(Seq<char>),
    Signature(Seq<char>),
}

/// Ghost counterpart of a value tree. Containers carry the sequence of
/// their members' models together with the signature string they store;
/// a double is modelled by the bit pattern it carries.
pub enum ValueV {
    Basic(BasicV),
    Double(u64),
    Array(Seq<ValueV>, Seq<char>),
    Variant(Box<ValueV>, Seq<char>),
    Struct(Seq<ValueV>, Seq<char>),
    Dictionary(Seq<(BasicV, ValueV)>, Seq<char>),
}

/// The fixed one-character type code of each scalar leaf discriminant.
pub open spec fn basic_code(b: BasicV) -> char {
    match b {
        BasicV::Byte(_) => 'y',
        BasicV::Boolean(_) => 'b',
        BasicV::Int16(_) => 'n',
        BasicV::Uint16(_) => 'q',
        BasicV::Int32(_) => 'i',
        BasicV::Uint32(_) => 'u',
        BasicV::Int64(_) => 'x',
        BasicV::Uint64(_) => 't',
        BasicV::Str(_) => 's',
        BasicV::ObjectPath(_) => 'o',
        BasicV::Signature(_) => 'g',
    }
}

/// The signature of a scalar leaf: exactly its one type code.
pub open spec fn basic_sig(b: BasicV) -> Seq<char> {
    seq![basic_code(b)]
}

/// The signature of a value. Scalars and doubles have a fixed code;
/// arrays, structs and dictionaries answer with the signature they
/// store; a variant always answers the fixed variant code, never the
/// signature declared for its wrapped value.
pub open spec fn value_sig(v: ValueV) -> Seq<char> {
    match v {
        ValueV::Basic(b) => basic_sig(b),
        ValueV::Double(_) => seq!['d'],
        ValueV::Array(_, s) => s,
        ValueV::Variant(_, _) => seq!['v'],
        ValueV::Struct(_, s) => s,
        ValueV::Dictionary(_, s) => s,
    }
}

/// What makes a sequence of entries a mapping: no two entries share a
/// key.
pub open spec fn unique_keys(entries: Seq<(BasicV, ValueV)>) -> bool {
    forall|i: int, j: int| 0 <= i < j < entries.len() ==> entries[i].0 != entries[j].0
}

/// The signature a dictionary infers from one of its entries: the
/// dictionary-entry wrapper around the key's code followed by the
/// value's signature.
pub open spec fn dict_sig(k: BasicV, v: ValueV) -> Seq<char> {
    seq!['a', '{'] + basic_sig(k) + value_sig(v) + seq!['}']
}

} // verus!
