//! Laws relating the constructors to the signature derivation, stated
//! over the models that the functions' contracts use.

use vstd::prelude::*;

use crate::model::{basic_sig, dict_sig, value_sig, BasicV, ValueV};
use crate::types::{Array, Value, Variant};

verus! {

/// An array built by inference from a one-element sequence `[x]` has
/// the signature of `x` itself: wrapping the result of
/// [`Array::new`] answers exactly what `x` answers.
pub proof fn lemma_singleton_array_signature(a: Array, x: Value)
    requires
        a.objects@ =~= seq![x],
        a.signature@ == value_sig(x@),
    ensures
        value_sig(Value::Array(a)@) == value_sig(x@),
{
}

/// On a homogeneous mapping — every key sharing one signature `ks` and
/// every value sharing one signature `vs` — the entry the inference
/// picks is immaterial: every entry composes the same dictionary
/// signature, the dictionary-entry wrapper around `ks` then `vs`.
pub proof fn lemma_homogeneous_dictionary_signature(
    entries: Seq<(BasicV, ValueV)>,
    i: int,
    ks: Seq<char>,
    vs: Seq<char>,
)
    requires
        0 <= i < entries.len(),
        forall|j: int| 0 <= j < entries.len() ==> basic_sig(#[trigger] entries[j].0) == ks,
        forall|j: int| 0 <= j < entries.len() ==> value_sig(#[trigger] entries[j].1) == vs,
    ensures
        dict_sig(entries[i].0, entries[i].1) == seq!['a', '{'] + ks + vs + seq!['}'],
{
}

/// A value enclosing a variant answers the fixed variant code, whatever
/// signature the variant declares for its wrapped value and whatever
/// that value is.
pub proof fn lemma_variant_signature(va: Variant)
    ensures
        value_sig(Value::Variant(va)@) == seq!['v'],
{
}

} // verus!
