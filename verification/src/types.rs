//! The executable value tree: scalar leaves, the opaque string wrappers,
//! the four container shapes, the `Value` sum type with its recursive
//! signature derivation, and the conversions from native scalar types.

use vstd::prelude::*;

use crate::model::{basic_code, basic_sig, dict_sig, unique_keys, value_sig, BasicV, ValueV};
use vstd::string::StringExecFns;

verus! {

/// An object-path identifier, kept distinct from an ordinary string.
/// No grammar validation is performed here; callers supply well-formed
/// content.
#[derive(Debug, Hash)]
pub struct Path(pub String);

/// A type-signature string, kept distinct from an ordinary string and
/// treated as opaque wherever a caller supplies it directly.
#[derive(Debug, Hash)]
pub struct Signature(pub String);

impl View for Path {
    type V = Seq<char>;

    open spec fn view(&self) -> Seq<char> {
        self.0@
    }
}

impl View for Signature {
    type V = Seq<char>;

    open spec fn view(&self) -> Seq<char> {
        self.0@
    }
}

/// A primitive, non-recursive datum with a fixed one-character type code.
#[derive(Debug, Hash)]
pub enum BasicValue {
    Byte(u8),
    Boolean(bool),
    Int16(i16),
    Uint16(u16),
    Int32(i32),
    Uint32(u32),
    Int64(i64),
    Uint64(u64),
    String(String),
    ObjectPath(Path),
    Signature(Signature),
}

impl View for BasicValue {
    type V = BasicV;

    open spec fn view(&self) -> BasicV {
        match self {
            BasicValue::Byte(x) => BasicV::Byte(*x),
            BasicValue::Boolean(x) => BasicV::Boolean(*x),
            BasicValue::Int16(x) => BasicV::Int16(*x),
            BasicValue::Uint16(x) => BasicV::Uint16(*x),
            BasicValue::Int32(x) => BasicV::Int32(*x),
            BasicValue::Uint32(x) => BasicV::Uint32(*x),
            BasicValue::Int64(x) => BasicV::Int64(*x),
            BasicValue::Uint64(x) => BasicV::Uint64(*x),
            BasicValue::String(x) => BasicV::Str(x@),
            BasicValue::ObjectPath(x) => BasicV::ObjectPath(x@),
            BasicValue::Signature(x) => BasicV::Signature(x@),
        }
    }
}

impl BasicValue {
    /// The fixed one-character type code of this scalar leaf. Total and
    /// side-effect-free: each discriminant answers its documented code
    /// and never another value.
    pub fn get_signature(&self) -> (r: &str)
        ensures
            r@ == basic_sig(self@),
    {
        proof {
            reveal_strlit("y");
            reveal_strlit("b");
            reveal_strlit("n");
            reveal_strlit("q");
            reveal_strlit("i");
            reveal_strlit("u");
            reveal_strlit("x");
            reveal_strlit("t");
            reveal_strlit("s");
            reveal_strlit("o");
            reveal_strlit("g");
        }
        match self {
            BasicValue::Byte(_) => "y",
            BasicValue::Boolean(_) => "b",
            BasicValue::Int16(_) => "n",
            BasicValue::Uint16(_) => "q",
            BasicValue::Int32(_) => "i",
            BasicValue::Uint32(_) => "u",
            BasicValue::Int64(_) => "x",
            BasicValue::Uint64(_) => "t",
            BasicValue::String(_) => "s",
            BasicValue::ObjectPath(_) => "o",
            BasicValue::Signature(_) => "g",
        }
    }
}

/// An ordered heterogeneous tuple of values with an explicit,
/// caller-supplied signature. The signature is not derived from the
/// members, so a caller can create an internally inconsistent struct.
#[derive(Debug)]
pub struct Struct {
    pub objects: Vec<Value>,
    pub signature: Signature,
}

/// A dynamically typed box holding exactly one value plus a declared
/// signature describing that value's type. The declared signature is
/// metadata for the marshaller; the enclosing [`Value`]'s own type code
/// is always the fixed variant code.
#[derive(Debug)]
pub struct Variant {
    pub object: Box<Value>,
    pub signature: Signature,
}

/// A homogeneous ordered sequence of values with a single element-type
/// signature. Homogeneity of elements after the first is not checked.
#[derive(Debug)]
pub struct Array {
    pub objects: Vec<Value>,
    pub signature: Signature,
}

/// A homogeneous mapping from scalar leaves to values, with a single
/// key-type/value-type signature. The mapping is held as a sequence of
/// entries with unique keys (see [`Dictionary::wf`]); entries keep the
/// order they were given in, and comparisons read them in that order.
#[derive(Debug)]
pub struct Dictionary {
    pub map: Vec<(BasicValue, Value)>,
    pub signature: Signature,
}

/// The closed sum over scalar leaves, doubles, and the four container
/// shapes. A double carries the bit pattern of an IEEE 754
/// double-precision number; turning a native float into its bits (and
/// back) is the caller's concern.
#[derive(Debug)]
pub enum Value {
    BasicValue(BasicValue),
    Double(u64),
    Array(Array),
    Variant(Variant),
    Struct(Struct),
    Dictionary(Dictionary),
}

/// The models of the values in a sequence, in order.
pub open spec fn seq_view(s: Seq<Value>) -> Seq<ValueV>
    decreases s,
{
    if s.len() == 0 {
        Seq::empty()
    } else {
        seq_view(s.drop_last()).push(value_view(s.last()))
    }
}

/// The models of the entries of a dictionary's mapping, in order.
pub open spec fn entries_view(s: Seq<(BasicValue, Value)>) -> Seq<(BasicV, ValueV)>
    decreases s,
{
    if s.len() == 0 {
        Seq::empty()
    } else {
        entries_view(s.drop_last()).push((s.last().0@, value_view(s.last().1)))
    }
}

/// The model of a value tree: the tree with every string payload
/// abstracted to its character sequence.
pub open spec fn value_view(v: Value) -> ValueV
    decreases v,
    via value_view_decreases
{
    match v {
        Value::BasicValue(b) => ValueV::Basic(b@),
        Value::Double(bits) => ValueV::Double(bits),
        Value::Array(a) => ValueV::Array(seq_view(a.objects@), a.signature@),
        Value::Variant(va) => ValueV::Variant(Box::new(value_view(*va.object)), va.signature@),
        Value::Struct(st) => ValueV::Struct(seq_view(st.objects@), st.signature@),
        Value::Dictionary(d) => ValueV::Dictionary(entries_view(d.map@), d.signature@),
    }
}

#[via_fn]
proof fn value_view_decreases(v: Value) {
    broadcast use vstd::std_specs::vec::group_vec_axioms;
    broadcast use vstd::seq::group_seq_axioms;

    match v {
        Value::Array(a) => {
            assert(decreases_to!(a.objects => a.objects@));
        },
        Value::Struct(st) => {
            assert(decreases_to!(st.objects => st.objects@));
        },
        Value::Dictionary(d) => {
            assert(decreases_to!(d.map => d.map@));
        },
        _ => {},
    }
}

impl View for Value {
    type V = ValueV;

    open spec fn view(&self) -> ValueV {
        value_view(*self)
    }
}

/// `seq_view` is the pointwise model of a sequence of values.
pub proof fn lemma_seq_view(s: Seq<Value>)
    ensures
        seq_view(s).len() == s.len(),
        forall|i: int| 0 <= i < s.len() ==> seq_view(s)[i] == value_view(s[i]),
    decreases s.len(),
{
    if s.len() > 0 {
        lemma_seq_view(s.drop_last());
        assert forall|i: int| 0 <= i < s.len() implies seq_view(s)[i] == value_view(s[i]) by {
            if i < s.len() - 1 {
                assert(s.drop_last()[i] == s[i]);
            }
        }
    }
}

/// `entries_view` is the pointwise model of a sequence of dictionary
/// entries.
pub proof fn lemma_entries_view(s: Seq<(BasicValue, Value)>)
    ensures
        entries_view(s).len() == s.len(),
        forall|i: int| 0 <= i < s.len() ==> entries_view(s)[i] == (s[i].0@, value_view(s[i].1)),
    decreases s.len(),
{
    if s.len() > 0 {
        lemma_entries_view(s.drop_last());
        assert forall|i: int| 0 <= i < s.len() implies entries_view(s)[i] == (
            s[i].0@,
            value_view(s[i].1),
        ) by {
            if i < s.len() - 1 {
                assert(s.drop_last()[i] == s[i]);
            }
        }
    }
}

/// The failure raised when a container's type signature cannot be
/// inferred because the container holds nothing to infer it from.
#[derive(Clone, Copy, Debug, PartialEq, Eq, Structural)]
pub enum SignatureError {
    EmptySignatureInference,
}

impl Variant {
    /// Boxes `v` together with the caller-declared signature `s`
    /// describing `v`'s type. No check is made that `s` matches `v`'s
    /// actual computed signature; the declared signature is metadata for
    /// the marshaller.
    pub fn new(v: Value, s: &str) -> (r: Variant)
        ensures
            r.object == v,
            r.signature@ == s@,
    {
        Variant { object: Box::new(v), signature: Signature(s.to_owned()) }
    }
}

impl Array {
    /// Builds an array whose element signature is inferred from the
    /// first element. An empty sequence holds no element to infer the
    /// type from, so it is rejected with
    /// [`SignatureError::EmptySignatureInference`]; use
    /// [`Array::new_with_sig`] for a legitimately empty array.
    /// Homogeneity of the remaining elements is not checked.
    pub fn new(objects: Vec<Value>) -> (r: Result<Array, SignatureError>)
        ensures
            objects@.len() == 0 <==> r is Err,
            r is Err ==> r->Err_0 == SignatureError::EmptySignatureInference,
            objects@.len() > 0 ==> {
                &&& r is Ok
                &&& r->Ok_0.objects == objects
                &&& r->Ok_0.signature@ == value_sig(objects@[0]@)
            },
    {
        if objects.len() == 0 {
            return Err(SignatureError::EmptySignatureInference);
        }
        let sig: String = objects[0].get_signature().to_owned();
        Ok(Array { objects, signature: Signature(sig) })
    }

    /// Stores the sequence together with an explicit signature, without
    /// inference or validation: the only way to represent an empty
    /// array.
    pub fn new_with_sig(objects: Vec<Value>, sig: String) -> (r: Array)
        ensures
            r.objects == objects,
            r.signature.0 == sig,
    {
        Array { objects, signature: Signature(sig) }
    }
}

impl Dictionary {
    /// Well-formed as a mapping: no two entries share a key. Both
    /// constructors establish this, and the tree is immutable once
    /// built.
    pub open spec fn wf(&self) -> bool {
        unique_keys(entries_view(self.map@))
    }

    /// Builds a dictionary whose signature is inferred from the first
    /// entry: the dictionary-entry wrapper around the key's code
    /// followed by the value's signature. An empty mapping holds no
    /// entry to infer the types from, so it is rejected with
    /// [`SignatureError::EmptySignatureInference`]; use
    /// [`Dictionary::new_with_sig`] for a legitimately empty dictionary.
    /// Homogeneity of the remaining entries is not checked; on a
    /// homogeneous mapping every entry yields the same signature.
    pub fn new(map: Vec<(BasicValue, Value)>) -> (r: Result<Dictionary, SignatureError>)
        requires
            unique_keys(entries_view(map@)),
        ensures
            map@.len() == 0 <==> r is Err,
            r is Err ==> r->Err_0 == SignatureError::EmptySignatureInference,
            map@.len() > 0 ==> {
                &&& r is Ok
                &&& r->Ok_0.map == map
                &&& r->Ok_0.signature@ == dict_sig(map@[0].0@, map@[0].1@)
                &&& r->Ok_0.wf()
            },
    {
        if map.len() == 0 {
            return Err(SignatureError::EmptySignatureInference);
        }
        let entry = &map[0];
        let mut sig: String = "a{".to_owned();
        sig.append(entry.0.get_signature());
        sig.append(entry.1.get_signature());
        sig.append("}");
        proof {
            reveal_strlit("a{");
            reveal_strlit("}");
            assert(sig@ =~= dict_sig(map@[0].0@, map@[0].1@));
        }
        Ok(Dictionary { map, signature: Signature(sig) })
    }

    /// Stores the mapping together with an explicit signature, without
    /// inference or validation: the only way to represent an empty
    /// dictionary.
    pub fn new_with_sig(map: Vec<(BasicValue, Value)>, sig: String) -> (r: Dictionary)
        requires
            unique_keys(entries_view(map@)),
        ensures
            r.map == map,
            r.signature.0 == sig,
            r.wf(),
    {
        Dictionary { map, signature: Signature(sig) }
    }
}

impl Value {
    /// The signature of this value: the fixed code of a scalar leaf or
    /// double, the stored signature of an array, struct or dictionary,
    /// and the fixed variant code for a variant regardless of what the
    /// wrapped value's declared signature says.
    pub fn get_signature(&self) -> (r: &str)
        ensures
            r@ == value_sig(self@),
    {
        proof {
            reveal_strlit("d");
            reveal_strlit("v");
        }
        match self {
            Value::BasicValue(x) => x.get_signature(),
            Value::Double(_) => {
                proof {
                    assert("d"@ =~= seq!['d']);
                }
                "d"
            },
            Value::Array(x) => x.signature.0.as_str(),
            Value::Variant(_) => {
                proof {
                    assert("v"@ =~= seq!['v']);
                }
                "v"
            },
            Value::Struct(x) => x.signature.0.as_str(),
            Value::Dictionary(x) => x.signature.0.as_str(),
        }
    }
}

} // verus!
