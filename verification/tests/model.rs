use libddwaf::object::{
    AllocatorKind, AllocatorType, AsRawMutObject, Keyed, KeyStrError, LengthTooLargeError,
    LibddwafDefaultAllocator, ObjectTypeError, RustAllocator, StrKind, UnknownObjectTypeError,
    WafArray, WafFloat, WafMap, WafObject, WafObjectType, WafOwned, WafOwnedDefaultAllocator,
    WafString, WafUnsigned,
};
use libddwaf::raw::{
    DDWAF_OBJ_ARRAY, DDWAF_OBJ_BOOL, DDWAF_OBJ_FLOAT, DDWAF_OBJ_INVALID, DDWAF_OBJ_LITERAL_STRING,
    DDWAF_OBJ_MAP, DDWAF_OBJ_NULL, DDWAF_OBJ_SIGNED, DDWAF_OBJ_SMALL_STRING, DDWAF_OBJ_STRING,
    DDWAF_OBJ_UNSIGNED,
};

fn ft(bits: u64) -> String {
    format!("{}", f64::from_bits(bits))
}

fn fdbg(bits: u64) -> String {
    format!("{:?}", f64::from_bits(bits))
}

fn float(v: f64) -> WafObject {
    WafFloat::from_bits(v.to_bits()).into()
}

fn pair_map(k: &str, v: WafObject) -> WafMap {
    let mut m = WafMap::new(1);
    *m.index_mut(0) = (k, v).into();
    m
}

#[test]
fn equality_is_symmetric_on_samples() {
    let samples: Vec<WafObject> = vec![
        WafObject::default(),
        WafObject::from(()),
        WafObject::from(1_u64),
        WafObject::from(1_i64),
        WafObject::from(true),
        float(1.0),
        WafObject::from("abc"),
        WafString::new_literal(&b"abc"[..]).into(),
        WafArray::new(2).into(),
        pair_map("k", WafObject::from(1_u64)).into(),
    ];
    for a in &samples {
        for b in &samples {
            assert_eq!(a == b, b == a);
        }
    }
}

#[test]
fn equality_is_transitive_on_strings() {
    let small: WafObject = WafObject::from("hi");
    let literal: WafObject = WafString::new_literal(&b"hi"[..]).into();
    let copy = small.clone();
    assert_eq!(small, literal);
    assert_eq!(literal, copy);
    assert_eq!(small, copy);
}

#[test]
fn equality_of_floats_follows_ieee() {
    assert_ne!(float(f64::NAN), float(f64::NAN));
    assert_eq!(float(0.0), float(-0.0));
    assert_eq!(float(2.5), float(2.5));
    assert_ne!(float(2.5), float(-2.5));
    let nan_in_array: WafObject = {
        let mut a = WafArray::new(1);
        *a.index_mut(0) = float(f64::NAN);
        a.into()
    };
    assert_ne!(nan_in_array, nan_in_array.clone());
}

#[test]
fn equality_of_invalid_objects() {
    assert_eq!(WafObject::default(), WafObject::from(WafArray::new(1).into_vec().remove(0)));
    assert_ne!(WafObject::default(), WafObject::from(()));
}

#[test]
fn equality_of_containers_is_ordered() {
    let mut a = WafArray::new(2);
    *a.index_mut(0) = 1_u64.into();
    *a.index_mut(1) = 2_u64.into();
    let mut b = WafArray::new(2);
    *b.index_mut(0) = 2_u64.into();
    *b.index_mut(1) = 1_u64.into();
    assert_ne!(a, b);
    let mut c = WafArray::new(3);
    *c.index_mut(0) = 1_u64.into();
    *c.index_mut(1) = 2_u64.into();
    assert_ne!(a, c);
    c.truncate(2);
    assert_eq!(a, c);
    assert_eq!(c.capacity(), 3);

    assert_ne!(
        pair_map("k", WafObject::from(1_u64)),
        pair_map("j", WafObject::from(1_u64))
    );
    assert_ne!(
        pair_map("k", WafObject::from(1_u64)),
        pair_map("k", WafObject::from(2_u64))
    );
}

#[test]
fn clone_equals_source_and_trims_capacity() {
    let mut obj = WafObject::default();
    obj.set_array::<RustAllocator>(5).unwrap();
    obj.insert::<RustAllocator>().unwrap().set_signed(-7).unwrap();
    let inner = obj.insert::<RustAllocator>().unwrap();
    inner.set_map::<RustAllocator>(3).unwrap();
    inner
        .insert_key::<RustAllocator>(b"name")
        .unwrap()
        .set_string::<RustAllocator>(b"value")
        .unwrap();

    let copy = obj.clone();
    assert_eq!(copy, obj);
    let arr = obj.as_type::<WafArray>().unwrap();
    let copy_arr = copy.as_type::<WafArray>().unwrap();
    assert_eq!(arr.capacity(), 5);
    assert_eq!(copy_arr.capacity(), 2);
    assert_eq!(copy_arr.len(), 2);
    assert_eq!(
        copy_arr.index(1).as_type::<WafMap>().unwrap().capacity(),
        1
    );

    let s = WafString::new_literal(&b"lit"[..]);
    let c = s.clone();
    assert_eq!(c.kind(), StrKind::Literal);
    assert_eq!(c.as_bytes(), b"lit");

    let empty = WafMap::new(0);
    assert_eq!(empty.clone().capacity(), 0);

    let entry: Keyed<WafObject> = ("k", WafObject::from(3_u64)).into();
    let entry_copy = entry.clone();
    assert_eq!(entry_copy.key_str().unwrap(), "k");
    assert_eq!(entry_copy.to_u64(), Some(3));
}

#[test]
fn setters_and_inserts() {
    let mut obj = WafObject::default();
    assert!(obj.insert::<RustAllocator>().is_none());
    assert!(obj.insert_key::<RustAllocator>(b"k").is_none());

    assert_eq!(obj.set_null().unwrap().object_type(), WafObjectType::Null);
    assert_eq!(obj.set_bool(true).unwrap().to_bool(), Some(true));
    assert_eq!(obj.set_signed(-3).unwrap().to_i64(), Some(-3));
    assert_eq!(obj.set_unsigned(u64::MAX).unwrap().to_i64(), None);
    assert_eq!(obj.to_u64(), Some(u64::MAX));
    assert_eq!(
        obj.set_float_bits(1.5f64.to_bits()).unwrap().to_float_bits(),
        Some(1.5f64.to_bits())
    );
    assert_eq!(
        obj.set_string::<LibddwafDefaultAllocator>(b"a long enough string")
            .unwrap()
            .to_str(),
        Some("a long enough string")
    );
    assert_eq!(obj.obj_type(), DDWAF_OBJ_STRING);

    obj.set_map::<RustAllocator>(1).unwrap();
    obj.insert_key::<RustAllocator>(b"first").unwrap().set_bool(false);
    assert!(obj.insert_key::<RustAllocator>(b"second").is_none());
    assert!(obj.insert::<RustAllocator>().is_none());
    let map = obj.as_type::<WafMap>().unwrap();
    assert_eq!(map.len(), 1);
    assert_eq!(map.get_str("first").unwrap().to_bool(), Some(false));

    obj.set_array::<RustAllocator>(1).unwrap();
    assert!(obj.insert::<RustAllocator>().is_some());
    assert!(obj.insert::<RustAllocator>().is_none());
    assert_eq!(obj.as_type::<WafArray>().unwrap().index(0).object_type(), WafObjectType::Invalid);
}

#[test]
fn raw_type_tags() {
    assert_eq!(WafObject::default().obj_type(), DDWAF_OBJ_INVALID);
    assert_eq!(WafObject::from(()).obj_type(), DDWAF_OBJ_NULL);
    assert_eq!(WafObject::from(true).obj_type(), DDWAF_OBJ_BOOL);
    assert_eq!(WafObject::from(-1_i64).obj_type(), DDWAF_OBJ_SIGNED);
    assert_eq!(WafObject::from(1_u64).obj_type(), DDWAF_OBJ_UNSIGNED);
    assert_eq!(float(1.0).obj_type(), DDWAF_OBJ_FLOAT);
    assert_eq!(WafObject::from("short").obj_type(), DDWAF_OBJ_SMALL_STRING);
    assert_eq!(
        WafObject::from("fifteen bytes!!").obj_type(),
        DDWAF_OBJ_STRING
    );
    assert_eq!(
        WafObject::from(WafString::new_literal(&b"x"[..])).obj_type(),
        DDWAF_OBJ_LITERAL_STRING
    );
    assert_eq!(WafObject::from(WafArray::new(0)).obj_type(), DDWAF_OBJ_ARRAY);
    assert_eq!(WafObject::from(WafMap::new(0)).obj_type(), DDWAF_OBJ_MAP);

    assert!(WafObject::from("s").is_string());
    assert!(!WafObject::from(1_u64).is_string());
    assert!(!WafObject::from(WafMap::new(0)).is_string());

    for t in [
        WafObjectType::Invalid,
        WafObjectType::Signed,
        WafObjectType::Unsigned,
        WafObjectType::String,
        WafObjectType::Array,
        WafObjectType::Mapping,
        WafObjectType::Bool,
        WafObjectType::Float,
        WafObjectType::Null,
    ] {
        assert_eq!(WafObjectType::try_from(t.as_raw()).unwrap(), t);
    }
    assert_eq!(
        WafObjectType::try_from(DDWAF_OBJ_SMALL_STRING).unwrap(),
        WafObjectType::String
    );
    assert_eq!(
        WafObjectType::try_from(DDWAF_OBJ_LITERAL_STRING).unwrap(),
        WafObjectType::String
    );
    let err = WafObjectType::try_from(0x03).unwrap_err();
    assert_eq!(err.0, 0x03);
    assert_eq!(err.message(), "Unknown object type: 3");
}

#[test]
fn error_messages() {
    let e = ObjectTypeError {
        expected: WafObjectType::Signed,
        actual: WafObjectType::Mapping,
    };
    assert_eq!(e.message(), "Invalid object type (expected Signed, got Map)");
    let e = LengthTooLargeError {
        length: 70_000,
        max_length: 65_535,
    };
    assert_eq!(e.message(), "Length 70000 exceeds maximum allowed 65535");
    let e = UnknownObjectTypeError(0x80);
    assert_eq!(e.message(), "Unknown object type: 128");
}

#[test]
fn key_str_errors() {
    let entry: Keyed<WafObject> = Keyed::new(WafObject::from(5_u64), WafObject::from(()));
    match entry.key_str() {
        Err(KeyStrError::Type(e)) => {
            assert_eq!(e.expected, WafObjectType::String);
            assert_eq!(e.actual, WafObjectType::Unsigned);
        }
        _ => panic!("expected a type error"),
    }
    assert!(entry.key_bytes().is_err());

    let bad: &[u8] = &[0xff, 0xfe];
    let entry: Keyed<WafObject> = (bad, WafObject::from(())).into();
    assert!(matches!(entry.key_str(), Err(KeyStrError::Utf8(_))));
    assert_eq!(entry.key_bytes().unwrap(), bad);
}

#[test]
fn debug_rendering_of_scalars() {
    assert_eq!(WafObject::default().debug_string(&ft), "WafInvalid");
    assert_eq!(WafObject::from(()).debug_string(&ft), "WafNull");
    assert_eq!(WafObject::from(i64::MIN).debug_string(&ft), "WafSigned(-9223372036854775808)");
    assert_eq!(WafObject::from(u64::MAX).debug_string(&ft), "WafUnsigned(18446744073709551615)");
    assert_eq!(WafObject::from(0_u64).debug_string(&ft), "WafUnsigned(0)");
    assert_eq!(WafObject::from(false).debug_string(&ft), "WafBool(false)");
    assert_eq!(float(1.0).debug_string(&ft), "WafFloat(1)");
    assert_eq!(
        WafObject::from(&b"\x00\x7f\xff \t"[..]).debug_string(&ft),
        "WafString(\"\\x00\\x7F\\xFF \\x09\")"
    );
    assert_eq!(WafUnsigned::from(5_u64).debug_string(&ft), "WafUnsigned(5)");
    let entry: Keyed<WafObject> = Keyed::new(WafObject::from(1_u64), WafObject::from(()));
    assert_eq!(entry.debug_string(&ft), "WafUnsigned(1)=WafNull");
}

#[test]
fn raw_debug_rendering() {
    assert_eq!(
        WafObject::from(true).raw_debug_string(&fdbg),
        "ddwaf_object { type: \"DDWAF_OBJ_BOOL\", boolean: true, .. }"
    );
    assert_eq!(
        float(1.0).raw_debug_string(&fdbg),
        "ddwaf_object { type: \"DDWAF_OBJ_FLOAT\", f64: 1.0, .. }"
    );
    assert_eq!(
        WafObject::from(-4_i64).raw_debug_string(&fdbg),
        "ddwaf_object { type: \"DDWAF_OBJ_SIGNED\", int: -4, .. }"
    );
    assert_eq!(
        WafObject::from(4_u64).raw_debug_string(&fdbg),
        "ddwaf_object { type: \"DDWAF_OBJ_UNSIGNED\", uint: 4, .. }"
    );
    assert_eq!(
        WafObject::from("a\"b").raw_debug_string(&fdbg),
        "ddwaf_object { type: \"DDWAF_OBJ_SMALL_STRING\", string: \"a\\\"b\", .. }"
    );
    assert_eq!(
        WafObject::from(&b"\xff"[..]).raw_debug_string(&fdbg),
        "ddwaf_object { type: \"DDWAF_OBJ_SMALL_STRING\", string: \"\u{fffd}\", .. }"
    );
    assert_eq!(
        WafObject::from(()).raw_debug_string(&fdbg),
        "ddwaf_object { type: \"DDWAF_OBJ_NULL\", .. }"
    );
    let mut arr = WafArray::new(2);
    *arr.index_mut(1) = WafObject::from(());
    assert_eq!(
        WafObject::from(arr).raw_debug_string(&fdbg),
        "ddwaf_object { type: \"DDWAF_OBJ_ARRAY\", array: [\
         ddwaf_object { type: \"DDWAF_OBJ_INVALID\", .. }, \
         ddwaf_object { type: \"DDWAF_OBJ_NULL\", .. }], .. }"
    );
    let map = pair_map("k", WafObject::from(1_u64));
    assert_eq!(
        WafObject::from(map).raw_debug_string(&fdbg),
        "ddwaf_object { type: \"DDWAF_OBJ_MAP\", map: [ddwaf_object_kv { \
         key: ddwaf_object { type: \"DDWAF_OBJ_SMALL_STRING\", string: \"k\", .. }, \
         val: ddwaf_object { type: \"DDWAF_OBJ_UNSIGNED\", uint: 1, .. }, .. }], .. }"
    );
}

#[test]
fn owned_objects() {
    assert_eq!(
        WafOwned::<WafObject, RustAllocator>::allocator(),
        AllocatorKind::Rust
    );
    assert_eq!(
        WafOwnedDefaultAllocator::<WafObject>::allocator(),
        AllocatorKind::LibddwafDefault
    );
    assert_eq!(RustAllocator::allocator(), AllocatorKind::Rust);

    let mut owned: WafOwnedDefaultAllocator<WafObject> = WafOwned::default();
    assert_eq!(owned.object_type(), WafObjectType::Invalid);
    owned.inner_mut().set_unsigned(9);
    assert!(owned == WafObject::from(9_u64));
    assert_eq!(owned.to_u64(), Some(9));
    assert_eq!(owned.debug_string(&ft), "WafUnsigned(9)");
}

#[test]
fn long_strings_are_held_on_the_heap() {
    let fourteen = WafString::new(b"fourteen bytes").unwrap();
    assert_eq!(fourteen.len(), 14);
    assert_eq!(fourteen.kind(), StrKind::Small);
    let fifteen = WafString::new(b"fifteen bytes!!").unwrap();
    assert_eq!(fifteen.len(), 15);
    assert_eq!(fifteen.kind(), StrKind::Heap);
    assert!(!fifteen.is_empty());
    assert!(WafString::default().is_empty());
    assert_eq!(WafString::default().kind(), StrKind::Heap);
}

#[test]
fn writes_through_mutable_slices() {
    let mut arr = WafArray::new(2);
    {
        let items = arr.as_mut_slice();
        assert_eq!(items.len(), 2);
        items[1] = WafObject::from(8_u64);
    }
    assert_eq!(arr.index(1).to_u64(), Some(8));
    assert_eq!(arr.as_slice().len(), 2);

    let mut map = WafMap::new(1);
    map.as_mut_slice()[0] = ("k", WafObject::from(true)).into();
    assert_eq!(map.get_str("k").unwrap().to_bool(), Some(true));
    assert_eq!(map.capacity(), 1);
}
