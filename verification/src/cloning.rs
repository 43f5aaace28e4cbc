//! Deep copies of the value tree. Every clone has the same model as its
//! original, so a clone is structurally equal to what it was cloned
//! from.

use vstd::prelude::*;

use crate::types::{
    entries_view, lemma_entries_view, lemma_seq_view, seq_view, value_view, Array, BasicValue,
    Dictionary, Path, Signature, Struct, Value, Variant,
};

verus! {

impl Clone for Path {
    /// A copy with the same content.
    fn clone(&self) -> (r: Path)
        ensures
            r@ == self@,
    {
        Path(self.0.clone())
    }
}

impl Clone for Signature {
    /// A copy with the same content.
    fn clone(&self) -> (r: Signature)
        ensures
            r@ == self@,
    {
        Signature(self.0.clone())
    }
}

/// A deep copy of a scalar leaf, with the same model.
pub fn basic_value_clone(v: &BasicValue) -> (r: BasicValue)
    ensures
        r@ == v@,
{
    match v {
        BasicValue::Byte(x) => BasicValue::Byte(*x),
        BasicValue::Boolean(x) => BasicValue::Boolean(*x),
        BasicValue::Int16(x) => BasicValue::Int16(*x),
        BasicValue::Uint16(x) => BasicValue::Uint16(*x),
        BasicValue::Int32(x) => BasicValue::Int32(*x),
        BasicValue::Uint32(x) => BasicValue::Uint32(*x),
        BasicValue::Int64(x) => BasicValue::Int64(*x),
        BasicValue::Uint64(x) => BasicValue::Uint64(*x),
        BasicValue::String(x) => BasicValue::String(x.clone()),
        BasicValue::ObjectPath(x) => BasicValue::ObjectPath(x.clone()),
        BasicValue::Signature(x) => BasicValue::Signature(x.clone()),
    }
}

/// A deep copy of a value tree, with the same model.
pub fn value_clone(v: &Value) -> (r: Value)
    ensures
        r@ == v@,
    decreases v,
{
    match v {
        Value::BasicValue(x) => Value::BasicValue(basic_value_clone(x)),
        Value::Double(x) => Value::Double(*x),
        Value::Array(x) => {
            proof {
                assert(decreases_to!(x.objects => x.objects@));
            }
            Value::Array(
                Array { objects: values_clone(&x.objects), signature: x.signature.clone() },
            )
        },
        Value::Variant(x) => Value::Variant(
            Variant { object: Box::new(value_clone(&x.object)), signature: x.signature.clone() },
        ),
        Value::Struct(x) => {
            proof {
                assert(decreases_to!(x.objects => x.objects@));
            }
            Value::Struct(
                Struct { objects: values_clone(&x.objects), signature: x.signature.clone() },
            )
        },
        Value::Dictionary(x) => {
            proof {
                assert(decreases_to!(x.map => x.map@));
            }
            Value::Dictionary(
                Dictionary { map: entries_clone(&x.map), signature: x.signature.clone() },
            )
        },
    }
}

/// Deep copies of the values in a sequence, in order.
pub fn values_clone(a: &Vec<Value>) -> (r: Vec<Value>)
    ensures
        seq_view(r@) == seq_view(a@),
    decreases a@,
{
    let mut out: Vec<Value> = Vec::new();
    let mut i: usize = 0;
    while i < a.len()
        invariant
            0 <= i <= a@.len(),
            out@.len() == i,
            forall|j: int| 0 <= j < i ==> value_view(out@[j]) == value_view(a@[j]),
        decreases a@.len() - i,
    {
        proof {
            assert(decreases_to!(a@ => a@[i as int]));
        }
        out.push(value_clone(&a[i]));
        i += 1;
    }
    proof {
        lemma_seq_view(a@);
        lemma_seq_view(out@);
        assert(seq_view(out@) =~= seq_view(a@));
    }
    out
}

/// Deep copies of the entries of a dictionary's mapping, in order.
pub fn entries_clone(a: &Vec<(BasicValue, Value)>) -> (r: Vec<(BasicValue, Value)>)
    ensures
        entries_view(r@) == entries_view(a@),
    decreases a@,
{
    let mut out: Vec<(BasicValue, Value)> = Vec::new();
    let mut i: usize = 0;
    while i < a.len()
        invariant
            0 <= i <= a@.len(),
            out@.len() == i,
            forall|j: int| 0 <= j < i ==> (out@[j].0@, value_view(out@[j].1)) == (
                a@[j].0@,
                value_view(a@[j].1),
            ),
        decreases a@.len() - i,
    {
        proof {
            assert(decreases_to!(a@ => a@[i as int]));
            assert(decreases_to!(a@[i as int] => a@[i as int].1));
        }
        let entry = &a[i];
        out.push((basic_value_clone(&entry.0), value_clone(&entry.1)));
        i += 1;
    }
    proof {
        lemma_entries_view(a@);
        lemma_entries_view(out@);
        assert(entries_view(out@) =~= entries_view(a@));
    }
    out
}

impl Clone for BasicValue {
    /// A deep copy with the same model.
    fn clone(&self) -> (r: BasicValue)
        ensures
            r@ == self@,
    {
        basic_value_clone(self)
    }
}

impl Clone for Value {
    /// A deep copy with the same model.
    fn clone(&self) -> (r: Value)
        ensures
            r@ == self@,
    {
        value_clone(self)
    }
}

impl Clone for Array {
    /// A deep copy with the same model.
    fn clone(&self) -> (r: Array)
        ensures
            seq_view(r.objects@) == seq_view(self.objects@),
            r.signature@ == self.signature@,
    {
        Array { objects: values_clone(&self.objects), signature: self.signature.clone() }
    }
}

impl Clone for Struct {
    /// A deep copy with the same model.
    fn clone(&self) -> (r: Struct)
        ensures
            seq_view(r.objects@) == seq_view(self.objects@),
            r.signature@ == self.signature@,
    {
        Struct { objects: values_clone(&self.objects), signature: self.signature.clone() }
    }
}

impl Clone for Variant {
    /// A deep copy with the same model.
    fn clone(&self) -> (r: Variant)
        ensures
            value_view(*r.object) == value_view(*self.object),
            r.signature@ == self.signature@,
    {
        Variant { object: Box::new(value_clone(&self.object)), signature: self.signature.clone() }
    }
}

impl Clone for Dictionary {
    /// A deep copy with the same model.
    fn clone(&self) -> (r: Dictionary)
        ensures
            entries_view(r.map@) == entries_view(self.map@),
            r.signature@ == self.signature@,
    {
        Dictionary { map: entries_clone(&self.map), signature: self.signature.clone() }
    }
}

} // verus!
