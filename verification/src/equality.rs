//! Structural equality over the value tree: two trees compare equal
//! exactly when they have identical shapes, identical leaf contents and
//! identical declared container signatures — that is, when their models
//! coincide.

use vstd::prelude::*;

use crate::types::{
    entries_view, lemma_entries_view, lemma_seq_view, seq_view, value_view, Array, BasicValue,
    Dictionary, Path, Signature, Struct, Value, Variant,
};

verus! {

/// Structural equality of scalar leaves: equal exactly when the
/// discriminants and the payloads agree.
pub fn basic_value_eq(a: &BasicValue, b: &BasicValue) -> (r: bool)
    ensures
        r == (a@ == b@),
{
    match (a, b) {
        (BasicValue::Byte(x), BasicValue::Byte(y)) => *x == *y,
        (BasicValue::Boolean(x), BasicValue::Boolean(y)) => *x == *y,
        (BasicValue::Int16(x), BasicValue::Int16(y)) => *x == *y,
        (BasicValue::Uint16(x), BasicValue::Uint16(y)) => *x == *y,
        (BasicValue::Int32(x), BasicValue::Int32(y)) => *x == *y,
        (BasicValue::Uint32(x), BasicValue::Uint32(y)) => *x == *y,
        (BasicValue::Int64(x), BasicValue::Int64(y)) => *x == *y,
        (BasicValue::Uint64(x), BasicValue::Uint64(y)) => *x == *y,
        (BasicValue::String(x), BasicValue::String(y)) => *x == *y,
        (BasicValue::ObjectPath(x), BasicValue::ObjectPath(y)) => x.0 == y.0,
        (BasicValue::Signature(x), BasicValue::Signature(y)) => x.0 == y.0,
        _ => false,
    }
}

/// Structural equality of value trees: equal exactly when their models
/// coincide, i.e. same shape, same leaf contents, same declared
/// container signatures.
pub fn value_eq(a: &Value, b: &Value) -> (r: bool)
    ensures
        r == (a@ == b@),
    decreases a,
{
    match (a, b) {
        (Value::BasicValue(x), Value::BasicValue(y)) => basic_value_eq(x, y),
        (Value::Double(x), Value::Double(y)) => *x == *y,
        (Value::Array(x), Value::Array(y)) => {
            proof {
                assert(decreases_to!(x.objects => x.objects@));
            }
            x.signature.0 == y.signature.0 && values_eq(&x.objects, &y.objects)
        },
        (Value::Variant(x), Value::Variant(y)) => {
            x.signature.0 == y.signature.0 && value_eq(&x.object, &y.object)
        },
        (Value::Struct(x), Value::Struct(y)) => {
            proof {
                assert(decreases_to!(x.objects => x.objects@));
            }
            x.signature.0 == y.signature.0 && values_eq(&x.objects, &y.objects)
        },
        (Value::Dictionary(x), Value::Dictionary(y)) => {
            proof {
                assert(decreases_to!(x.map => x.map@));
            }
            x.signature.0 == y.signature.0 && entries_eq(&x.map, &y.map)
        },
        _ => false,
    }
}

/// Pairwise structural equality of two value sequences, in order.
pub fn values_eq(a: &Vec<Value>, b: &Vec<Value>) -> (r: bool)
    ensures
        r == (seq_view(a@) == seq_view(b@)),
    decreases a@,
{
    proof {
        lemma_seq_view(a@);
        lemma_seq_view(b@);
    }
    if a.len() != b.len() {
        return false;
    }
    let mut i: usize = 0;
    while i < a.len()
        invariant
            0 <= i <= a@.len(),
            a@.len() == b@.len(),
            forall|j: int| 0 <= j < i ==> value_view(a@[j]) == value_view(b@[j]),
        decreases a@.len() - i,
    {
        proof {
            assert(decreases_to!(a@ => a@[i as int]));
        }
        if !value_eq(&a[i], &b[i]) {
            proof {
                lemma_seq_view(a@);
                lemma_seq_view(b@);
                assert(seq_view(a@)[i as int] != seq_view(b@)[i as int]);
            }
            return false;
        }
        i += 1;
    }
    proof {
        lemma_seq_view(a@);
        lemma_seq_view(b@);
        assert(seq_view(a@) =~= seq_view(b@));
    }
    true
}

/// Pairwise structural equality of two entry sequences, in order: keys
/// with keys, values with values.
pub fn entries_eq(a: &Vec<(BasicValue, Value)>, b: &Vec<(BasicValue, Value)>) -> (r: bool)
    ensures
        r == (entries_view(a@) == entries_view(b@)),
    decreases a@,
{
    proof {
        lemma_entries_view(a@);
        lemma_entries_view(b@);
    }
    if a.len() != b.len() {
        return false;
    }
    let mut i: usize = 0;
    while i < a.len()
        invariant
            0 <= i <= a@.len(),
            a@.len() == b@.len(),
            forall|j: int| 0 <= j < i ==> (a@[j].0@, value_view(a@[j].1)) == (
                b@[j].0@,
                value_view(b@[j].1),
            ),
        decreases a@.len() - i,
    {
        proof {
            assert(decreases_to!(a@ => a@[i as int]));
            assert(decreases_to!(a@[i as int] => a@[i as int].1));
        }
        let ka = &a[i];
        let kb = &b[i];
        if !(basic_value_eq(&ka.0, &kb.0) && value_eq(&ka.1, &kb.1)) {
            proof {
                lemma_entries_view(a@);
                lemma_entries_view(b@);
                assert(entries_view(a@)[i as int] != entries_view(b@)[i as int]);
            }
            return false;
        }
        i += 1;
    }
    proof {
        lemma_entries_view(a@);
        lemma_entries_view(b@);
        assert(entries_view(a@) =~= entries_view(b@));
    }
    true
}

impl PartialEq for Path {
    fn eq(&self, other: &Path) -> (r: bool) {
        self.0 == other.0
    }
}

impl vstd::std_specs::cmp::PartialEqSpecImpl for Path {
    open spec fn obeys_eq_spec() -> bool {
        true
    }

    open spec fn eq_spec(&self, other: &Path) -> bool {
        self@ == other@
    }
}

impl PartialEq for Signature {
    fn eq(&self, other: &Signature) -> (r: bool) {
        self.0 == other.0
    }
}

impl vstd::std_specs::cmp::PartialEqSpecImpl for Signature {
    open spec fn obeys_eq_spec() -> bool {
        true
    }

    open spec fn eq_spec(&self, other: &Signature) -> bool {
        self@ == other@
    }
}

impl PartialEq for BasicValue {
    fn eq(&self, other: &BasicValue) -> (r: bool) {
        basic_value_eq(self, other)
    }
}

impl vstd::std_specs::cmp::PartialEqSpecImpl for BasicValue {
    open spec fn obeys_eq_spec() -> bool {
        true
    }

    open spec fn eq_spec(&self, other: &BasicValue) -> bool {
        self@ == other@
    }
}

impl PartialEq for Value {
    fn eq(&self, other: &Value) -> (r: bool) {
        value_eq(self, other)
    }
}

impl vstd::std_specs::cmp::PartialEqSpecImpl for Value {
    open spec fn obeys_eq_spec() -> bool {
        true
    }

    open spec fn eq_spec(&self, other: &Value) -> bool {
        self@ == other@
    }
}

impl PartialEq for Array {
    fn eq(&self, other: &Array) -> (r: bool) {
        self.signature.0 == other.signature.0 && values_eq(&self.objects, &other.objects)
    }
}

impl vstd::std_specs::cmp::PartialEqSpecImpl for Array {
    open spec fn obeys_eq_spec() -> bool {
        true
    }

    open spec fn eq_spec(&self, other: &Array) -> bool {
        seq_view(self.objects@) == seq_view(other.objects@) && self.signature@ == other.signature@
    }
}

impl PartialEq for Struct {
    fn eq(&self, other: &Struct) -> (r: bool) {
        self.signature.0 == other.signature.0 && values_eq(&self.objects, &other.objects)
    }
}

impl vstd::std_specs::cmp::PartialEqSpecImpl for Struct {
    open spec fn obeys_eq_spec() -> bool {
        true
    }

    open spec fn eq_spec(&self, other: &Struct) -> bool {
        seq_view(self.objects@) == seq_view(other.objects@) && self.signature@ == other.signature@
    }
}

impl PartialEq for Variant {
    fn eq(&self, other: &Variant) -> (r: bool) {
        self.signature.0 == other.signature.0 && value_eq(&self.object, &other.object)
    }
}

impl vstd::std_specs::cmp::PartialEqSpecImpl for Variant {
    open spec fn obeys_eq_spec() -> bool {
        true
    }

    open spec fn eq_spec(&self, other: &Variant) -> bool {
        value_view(*self.object) == value_view(*other.object) && self.signature@
            == other.signature@
    }
}

impl PartialEq for Dictionary {
    fn eq(&self, other: &Dictionary) -> (r: bool) {
        self.signature.0 == other.signature.0 && entries_eq(&self.map, &other.map)
    }
}

impl vstd::std_specs::cmp::PartialEqSpecImpl for Dictionary {
    open spec fn obeys_eq_spec() -> bool {
        true
    }

    open spec fn eq_spec(&self, other: &Dictionary) -> bool {
        entries_view(self.map@) == entries_view(other.map@) && self.signature@ == other.signature@
    }
}

} // verus!
