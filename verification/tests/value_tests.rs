use busvalue::types::{Array, BasicValue, Dictionary, Path, Signature, SignatureError, Value, Variant};

#[test]
fn test_from() {
    let x = Value::from(12);
    assert_eq!(x, Value::BasicValue(BasicValue::Int32(12)));
    let y = Value::from("foobar");
    assert_eq!(y, Value::BasicValue(BasicValue::String("foobar".to_string())));
}

#[test]
fn scalar_leaf_codes() {
    assert_eq!(BasicValue::Byte(1).get_signature(), "y");
    assert_eq!(BasicValue::Boolean(true).get_signature(), "b");
    assert_eq!(BasicValue::Int16(-2).get_signature(), "n");
    assert_eq!(BasicValue::Uint16(3).get_signature(), "q");
    assert_eq!(BasicValue::Int32(-4).get_signature(), "i");
    assert_eq!(BasicValue::Uint32(5).get_signature(), "u");
    assert_eq!(BasicValue::Int64(-6).get_signature(), "x");
    assert_eq!(BasicValue::Uint64(7).get_signature(), "t");
    assert_eq!(BasicValue::String("hi".to_string()).get_signature(), "s");
    assert_eq!(BasicValue::ObjectPath(Path("/org".to_string())).get_signature(), "o");
    assert_eq!(BasicValue::Signature(Signature("ii".to_string())).get_signature(), "g");
}

#[test]
fn value_codes() {
    assert_eq!(Value::from(9u8).get_signature(), "y");
    assert_eq!(Value::Double(0x4028_0000_0000_0000).get_signature(), "d");
}

#[test]
fn array_inference_singleton() {
    let arr = Array::new(vec![Value::from(7)]).unwrap();
    assert_eq!(Value::Array(arr).get_signature(), "i");
    let arr = Array::new(vec![Value::from("a"), Value::from("b")]).unwrap();
    assert_eq!(Value::Array(arr).get_signature(), "s");
}

#[test]
fn array_inference_empty_fails() {
    let r = Array::new(Vec::new());
    assert_eq!(r.unwrap_err(), SignatureError::EmptySignatureInference);
}

#[test]
fn array_explicit_signature() {
    let arr = Array::new_with_sig(Vec::new(), "u".to_string());
    assert_eq!(Value::Array(arr).get_signature(), "u");
}

#[test]
fn dictionary_inference() {
    let map = vec![
        (BasicValue::String("one".to_string()), Value::from(1)),
        (BasicValue::String("two".to_string()), Value::from(2)),
    ];
    let d = Dictionary::new(map).unwrap();
    assert_eq!(Value::Dictionary(d).get_signature(), "a{si}");
}

#[test]
fn dictionary_inference_nested() {
    let inner = Array::new(vec![Value::from(true)]).unwrap();
    let map = vec![(BasicValue::Byte(9), Value::Array(inner))];
    let d = Dictionary::new(map).unwrap();
    assert_eq!(Value::Dictionary(d).get_signature(), "a{yb}");
}

#[test]
fn dictionary_inference_empty_fails() {
    let r = Dictionary::new(Vec::new());
    assert_eq!(r.unwrap_err(), SignatureError::EmptySignatureInference);
}

#[test]
fn dictionary_explicit_signature() {
    let d = Dictionary::new_with_sig(Vec::new(), "a{su}".to_string());
    assert_eq!(Value::Dictionary(d).get_signature(), "a{su}");
}

#[test]
fn variant_keeps_declared_signature_but_answers_variant_code() {
    let va = Variant::new(Value::from(12), "s");
    assert_eq!(va.signature, Signature("s".to_string()));
    assert_eq!(*va.object, Value::from(12));
    assert_eq!(Value::Variant(va).get_signature(), "v");
}

#[test]
fn conversion_family() {
    assert_eq!(Value::from(1u8), Value::BasicValue(BasicValue::Byte(1)));
    assert_eq!(Value::from(true), Value::BasicValue(BasicValue::Boolean(true)));
    assert_eq!(Value::from(-2i16), Value::BasicValue(BasicValue::Int16(-2)));
    assert_eq!(Value::from(3u16), Value::BasicValue(BasicValue::Uint16(3)));
    assert_eq!(Value::from(-4i32), Value::BasicValue(BasicValue::Int32(-4)));
    assert_eq!(Value::from(5u32), Value::BasicValue(BasicValue::Uint32(5)));
    assert_eq!(Value::from(-6i64), Value::BasicValue(BasicValue::Int64(-6)));
    assert_eq!(Value::from(7u64), Value::BasicValue(BasicValue::Uint64(7)));
    assert_eq!(
        Value::from("own".to_string()),
        Value::BasicValue(BasicValue::String("own".to_string()))
    );
}

fn sample_tree() -> Value {
    let arr = Array::new(vec![Value::from(1), Value::from(2)]).unwrap();
    let st = busvalue::types::Struct {
        objects: vec![Value::from("x"), Value::Array(arr)],
        signature: Signature("(sai)".to_string()),
    };
    let map = vec![(BasicValue::String("k".to_string()), Value::Struct(st))];
    let d = Dictionary::new_with_sig(map, "a{s(sai)}".to_string());
    Value::Variant(Variant::new(Value::Dictionary(d), "a{s(sai)}"))
}

#[test]
fn structural_equality_equal_trees() {
    assert_eq!(sample_tree(), sample_tree());
    let t = sample_tree();
    assert_eq!(t.clone(), t);
}

#[test]
fn structural_inequality_leaf_value() {
    let a = Array::new(vec![Value::from(1), Value::from(2)]).unwrap();
    let b = Array::new(vec![Value::from(1), Value::from(3)]).unwrap();
    assert_ne!(Value::Array(a), Value::Array(b));
}

#[test]
fn structural_inequality_order() {
    let a = Array::new(vec![Value::from(1), Value::from(2)]).unwrap();
    let b = Array::new(vec![Value::from(2), Value::from(1)]).unwrap();
    assert_ne!(Value::Array(a), Value::Array(b));
}

#[test]
fn structural_inequality_declared_signature() {
    let a = Array::new_with_sig(vec![Value::from(1)], "i".to_string());
    let b = Array::new_with_sig(vec![Value::from(1)], "u".to_string());
    assert_ne!(Value::Array(a), Value::Array(b));
    let va = Variant::new(Value::from(1), "i");
    let vb = Variant::new(Value::from(1), "u");
    assert_ne!(va, vb);
}

#[test]
fn structural_inequality_discriminant() {
    assert_ne!(Value::from(1u8), Value::from(true));
    assert_ne!(
        Value::BasicValue(BasicValue::String("/a".to_string())),
        Value::BasicValue(BasicValue::ObjectPath(Path("/a".to_string())))
    );
}

#[test]
fn struct_signature_is_stored_signature() {
    let st = busvalue::types::Struct {
        objects: vec![Value::from(1), Value::from("s")],
        signature: Signature("(is)".to_string()),
    };
    assert_eq!(Value::Struct(st).get_signature(), "(is)");
}

#[test]
fn array_inference_reads_only_first_element() {
    let arr = Array::new(vec![Value::from(1), Value::from("mixed")]).unwrap();
    assert_eq!(Value::Array(arr).get_signature(), "i");
}

#[test]
fn wrapper_types_compare_by_content() {
    assert_eq!(Path("/a".to_string()), Path("/a".to_string()));
    assert_ne!(Path("/a".to_string()), Path("/b".to_string()));
    assert_eq!(Signature("ii".to_string()), Signature("ii".to_string()));
    assert_ne!(Signature("ii".to_string()), Signature("iu".to_string()));
}

#[test]
fn clone_is_deep_and_equal() {
    let d = Dictionary::new(vec![
        (BasicValue::Uint64(1), Value::from(true)),
        (BasicValue::Uint64(2), Value::from(false)),
    ])
    .unwrap();
    let copy = d.clone();
    assert_eq!(d, copy);
    assert_eq!(Value::Dictionary(d), Value::Dictionary(copy));
}
