use libddwaf::object::{
    AsRawMutObject, Keyed, ObjectTypeError, StrKind, WafArray, WafBool, WafFloat, WafMap,
    WafNull, WafObject, WafObjectType, WafSigned, WafString, WafUnsigned,
};

/// Renders doubles as `{}` does.
fn ft(bits: u64) -> String {
    format!("{}", f64::from_bits(bits))
}

fn float(v: f64) -> WafObject {
    WafFloat::from_bits(v.to_bits()).into()
}

/// A map whose keys are literal strings.
fn literal_map(entries: Vec<(&'static str, WafObject)>) -> WafMap {
    let mut res = WafMap::new(u16::try_from(entries.len()).unwrap());
    for (i, (k, v)) in entries.into_iter().enumerate() {
        let key: WafObject = WafString::new_literal(k.as_bytes()).into();
        *res.index_mut(i) = Keyed::new(key, v);
    }
    res
}

/// An array of the given objects, in order.
fn array_of(items: Vec<WafObject>) -> WafArray {
    let mut res = WafArray::new(u16::try_from(items.len()).unwrap());
    for (i, v) in items.into_iter().enumerate() {
        *res.index_mut(i) = v;
    }
    res
}

#[test]
#[allow(clippy::float_cmp)]
fn defaults() {
    let obj = WafObject::default();
    assert!(!obj.is_valid());
    assert_eq!(obj.object_type(), WafObjectType::Invalid);

    let obj = WafSigned::default();
    assert!(obj.is_valid());
    assert_eq!(obj.value(), 0);

    let obj = WafUnsigned::default();
    assert!(obj.is_valid());
    assert_eq!(obj.value(), 0);

    let obj = WafString::default();
    assert!(obj.is_valid());
    assert_eq!(obj.as_str(), Ok(""));

    let obj = WafArray::default();
    assert!(obj.is_valid());
    assert_eq!(obj.len(), 0);

    let obj = WafMap::default();
    assert!(obj.is_valid());
    assert_eq!(obj.len(), 0);

    let obj = WafBool::default();
    assert!(obj.is_valid());
    assert!(!obj.value());

    let obj = WafFloat::default();
    assert!(obj.is_valid());
    assert_eq!(f64::from_bits(obj.to_bits()), 0.0);

    let obj = WafNull::default();
    assert!(obj.is_valid());
}

#[test]
fn test_eq() {
    let invalid = WafObject::default();
    let string = WafString::default();
    let bool = WafBool::default();
    let float = WafFloat::default();
    let signed = WafSigned::default();
    let unsigned = WafUnsigned::default();
    let array = WafArray::default();
    let map = WafMap::default();
    let null = WafNull::default();

    assert_eq!(invalid, invalid);
    assert_eq!(string, string);
    assert_eq!(bool, bool);
    assert_eq!(float, float);
    assert_eq!(signed, signed);
    assert_eq!(unsigned, unsigned);
    assert_eq!(array, array);
    assert_eq!(map, map);
    assert_eq!(null, null);

    assert_ne!(invalid, string);
    assert_ne!(invalid, bool);
    assert_ne!(invalid, float);
    assert_ne!(invalid, signed);
    assert_ne!(invalid, unsigned);
    assert_ne!(invalid, array);
    assert_ne!(invalid, map);

    assert_ne!(string, bool);
    assert_ne!(string, float);
    assert_ne!(string, signed);
    assert_ne!(string, unsigned);
    assert_ne!(string, array);
    assert_ne!(string, map);

    assert_ne!(bool, float);
    assert_ne!(bool, signed);
    assert_ne!(bool, unsigned);
    assert_ne!(bool, array);
    assert_ne!(bool, map);

    assert_ne!(float, signed);
    assert_ne!(float, unsigned);
    assert_ne!(float, array);
    assert_ne!(float, map);

    assert_ne!(signed, unsigned);
    assert_ne!(signed, array);
    assert_ne!(signed, map);

    assert_ne!(unsigned, array);
    assert_ne!(unsigned, map);

    assert_ne!(array, map);
}

#[test]
fn sample_mixed_object() {
    let mut root = WafArray::new(4);
    *root.index_mut(0) = 42_u64.into();
    *root.index_mut(1) = "Hello, world!".into();
    *root.index_mut(2) = WafArray::new(1).into();
    *root.index_mut(2).as_type_mut::<WafArray>().unwrap().index_mut(0) = 123_u64.into();

    let mut map = WafMap::new(7);
    *map.index_mut(0) = ("key 1", WafObject::from("value 1")).into();
    *map.index_mut(1) = ("key 2", WafObject::from(-2_i64)).into();
    *map.index_mut(2) = ("key 3", WafObject::from(2_u32)).into();
    *map.index_mut(3) = ("key 4", float(5.2)).into();
    *map.index_mut(4) = ("key 5", WafObject::from(())).into();
    *map.index_mut(5) = ("key 6", WafObject::from(true)).into();
    *root.index_mut(3) = map.into();

    let res = root.debug_string(&ft);
    assert_eq!(
        res,
        "WafArray[WafUnsigned(42), WafString(\"Hello, \
        world!\"), WafArray[WafUnsigned(123)], WafMap{\
        \"key 1\"=WafString(\"value 1\"), \"key 2\"=\
        WafSigned(-2), \"key 3\"=WafUnsigned(2), \
        \"key 4\"=WafFloat(5.2), \"key 5\"=WafNull, \
        \"key 6\"=WafBool(true), WafInvalid=WafInvalid}]"
    );
}

#[test]
fn sample_mixed_object_macro() {
    let root = array_of(vec![
        WafObject::from(42_u64),
        WafObject::from("Hello, world!"),
        array_of(vec![WafObject::from(123_u64)]).into(),
        literal_map(vec![
            ("key 1", WafObject::from("value 1")),
            ("key 2", WafObject::from(-2_i64)),
            ("key 3", WafObject::from(2_u64)),
            ("key 4", float(5.2)),
            ("key 5", WafObject::from(())),
            ("key 6", WafArray::new(0).into()),
            (
                "key 7",
                array_of(vec![WafObject::from(true), WafObject::from(false)]).into(),
            ),
        ])
        .into(),
        WafArray::new(0).into(),
        WafMap::new(0).into(),
    ]);

    assert_eq!(
        root.debug_string(&ft),
        "WafArray[WafUnsigned(42), WafString(\"Hello, \
        world!\"), WafArray[WafUnsigned(123)], WafMap{\
        \"key 1\"=WafString(\"value 1\"), \"key 2\"=\
        WafSigned(-2), \"key 3\"=WafUnsigned(2), \
        \"key 4\"=WafFloat(5.2), \"key 5\"=WafNull, \
        \"key 6\"=WafArray[], \"key 7\"=WafArray[WafBool(true), \
        WafBool(false)]}, WafArray[], WafMap{}]"
    );
}

#[test]
fn string_debug_value() {
    let obj = literal_map(vec![(r#"key"hey"#, WafObject::from(r"value\n"))]);
    assert_eq!(
        obj.debug_string(&ft),
        r#"WafMap{"key\"hey"=WafString("value\\n")}"#
    );
}

#[test]
#[allow(clippy::float_cmp)]
fn ddwaf_obj_from_conversions() {
    let obj: WafObject = 42u64.into();
    assert_eq!(obj.to_u64().unwrap(), 42u64);
    assert_eq!(obj.to_i64().unwrap(), 42i64);

    let obj: WafObject = (-42i64).into();
    assert_eq!(obj.to_i64().unwrap(), -42i64);

    let obj: WafObject = float(3.0);
    assert_eq!(f64::from_bits(obj.to_float_bits().unwrap()), 3.0f64);

    let obj: WafObject = true.into();
    assert!(obj.to_bool().unwrap());

    let obj: WafObject = ().into();
    assert_eq!(obj.object_type(), WafObjectType::Null);

    let obj: WafObject = "Hello, world!".into();
    assert_eq!(obj.to_str(), Some("Hello, world!"));

    let obj: WafObject = b"Hello, world!"[..].into();
    assert_eq!(obj.to_str(), Some("Hello, world!"));
}

#[test]
fn ddwaf_obj_failed_conversions() {
    let mut obj: WafObject = ().into();
    assert!(obj.as_type::<WafBool>().is_none());
    assert!(obj.as_type_mut::<WafBool>().is_none());

    assert!(obj.to_bool().is_none());
    assert!(obj.to_u64().is_none());
    assert!(obj.to_i64().is_none());
    assert!(obj.to_float_bits().is_none());
    assert!(obj.to_str().is_none());
}

#[test]
fn invalid_utf8() {
    let non_utf8_str: &[u8] = &[0x80];
    let value = WafString::from(non_utf8_str);
    let obj: Keyed<WafString> = (non_utf8_str, value).into();
    assert_eq!(obj.debug_string(&ft), r#""\x80"=WafString("\x80")"#);

    assert!(obj.key_str().is_err());
    assert!(obj.as_str().is_err());
}

#[test]
fn empty_key() {
    let map = literal_map(vec![("", WafObject::from(42_u64))]);
    let empty_slice: &[u8] = &[];
    assert_eq!(map.index(0).key_bytes().unwrap(), empty_slice);
}

#[test]
fn keyed_obj_methods() {
    let mut map = literal_map(vec![("key", WafObject::from(42_u64))]);
    let elem = map.index_mut(0);
    assert!(elem.as_type::<WafBool>().is_none());
    let elem_cast = elem.as_type::<WafUnsigned>().unwrap();
    assert_eq!(elem_cast.value(), 42u64);

    assert!(elem.as_type_mut::<WafBool>().is_none());

    let elem_cast = elem.as_type_mut::<WafUnsigned>().unwrap();
    assert_eq!(elem_cast.value(), 42u64);

    let key_mut = elem.key_mut();
    let _ = std::mem::replace(key_mut, "key 2".into());
    assert_eq!(elem.key_str().unwrap(), "key 2");
}

#[test]
fn map_fetching_methods() {
    let mut map = literal_map(vec![
        ("key1", WafObject::from(1u64)),
        ("key2", WafObject::from(2u64)),
    ]);

    // index
    assert_eq!(map.index(0).key_bytes().unwrap(), b"key1");
    // index mut
    let key_mut = map.index_mut(0).key_mut();
    let new_key = WafString::from(&b"new key"[..]);
    let _ = std::mem::replace(key_mut, new_key.into());
    assert_eq!(map.index(0).key_bytes().unwrap(), b"new key");

    // get
    assert_eq!(map.get_bstr(b"key2").unwrap().to_u64().unwrap(), 2);
    assert!(map.get_bstr(b"bad key").is_none());
    // get_str
    assert_eq!(map.get_str("key2").unwrap().to_u64().unwrap(), 2);
    assert!(map.get_str("bad key").is_none());
    // get
    assert_eq!(
        map.get(&WafString::new_literal(&b"key2"[..]))
            .unwrap()
            .to_u64()
            .unwrap(),
        2
    );

    // get_mut
    let key_mut = map.get_mut(b"key2").unwrap().key_mut();
    let new_key = WafString::from(&b"key3"[..]);
    let _ = std::mem::replace(key_mut, new_key.into());
    let entry_k3 = map.get_str_mut("key3").unwrap();
    let new_entry: Keyed<WafUnsigned> = ("key3", WafUnsigned::from(3u64)).into();
    let _ = std::mem::replace(entry_k3, new_entry.into());
    assert_eq!(map.get_str("key3").unwrap().to_u64().unwrap(), 3);

    assert!(map.get_mut(b"bad key").is_none());

    // get_str_mut
    let key_mut = map.get_str_mut("key3").unwrap().key_mut();
    let new_key = WafString::from(&b"key4"[..]);
    let _ = std::mem::replace(key_mut, new_key.into());
    assert_eq!(map.get_str("key4").unwrap().to_u64().unwrap(), 3);

    assert!(map.get_str_mut("bad key").is_none());
}

#[test]
fn array_iteration() {
    let mut arr = array_of(vec![
        WafObject::from(1u64),
        WafObject::from("foo"),
        array_of(vec![WafObject::from("xyz")]).into(),
        WafObject::from(()),
    ]);

    for (i, elem) in arr.iter().enumerate() {
        match i {
            0 => assert_eq!(elem.to_u64().unwrap(), 1),
            1 => assert_eq!(elem.to_str().unwrap(), "foo"),
            2 => assert_eq!(elem.as_type::<WafArray>().unwrap().len(), 1),
            3 => assert_eq!(elem.object_type(), WafObjectType::Null),
            _ => unreachable!(),
        }
    }

    for (i, elem) in arr.iter_mut().enumerate() {
        match i {
            0 => assert_eq!(elem.to_u64().unwrap(), 1),
            1 => {
                assert_eq!(elem.to_str().unwrap(), "foo");
                let new_str: WafString = "bar".into();
                let _ = std::mem::replace(elem, new_str.into());
            }
            2 => assert_eq!(elem.as_type::<WafArray>().unwrap().len(), 1),
            3 => assert_eq!(elem.object_type(), WafObjectType::Null),
            _ => unreachable!(),
        }
    }
    assert_eq!(arr.index(1).to_str().unwrap(), "bar");

    for (i, elem) in arr.into_vec().into_iter().enumerate() {
        match i {
            0 => assert_eq!(elem.to_u64().unwrap(), 1),
            1 => assert_eq!(elem.to_str().unwrap(), "bar"),
            2 => assert_eq!(elem.as_type::<WafArray>().unwrap().len(), 1),
            3 => assert_eq!(elem.object_type(), WafObjectType::Null),
            _ => unreachable!(),
        }
    }
}

#[test]
fn map_iteration() {
    let mut map = literal_map(vec![
        ("key1", WafObject::from(1u64)),
        ("key2", WafObject::from("foo")),
        ("key3", array_of(vec![WafObject::from("xyz")]).into()),
        ("key4", WafObject::from(())),
    ]);

    for (i, elem) in map.iter().enumerate() {
        match i {
            0 => {
                assert_eq!(elem.key_str().unwrap(), "key1");
                assert_eq!(elem.to_u64().unwrap(), 1);
            }
            1 => {
                assert_eq!(elem.key_str().unwrap(), "key2");
                assert_eq!(elem.to_str().unwrap(), "foo");
            }
            2 => {
                assert_eq!(elem.key_str().unwrap(), "key3");
                assert_eq!(elem.as_type::<WafArray>().unwrap().len(), 1);
            }
            3 => {
                assert_eq!(elem.key_str().unwrap(), "key4");
                assert_eq!(elem.object_type(), WafObjectType::Null);
            }
            _ => unreachable!(),
        }
    }

    for (i, elem) in map.iter_mut().enumerate() {
        match i {
            0 => assert_eq!(elem.to_u64().unwrap(), 1),
            1 => {
                assert_eq!(elem.key_str().unwrap(), "key2");
                assert_eq!(elem.to_str().unwrap(), "foo");
                let new_val: Keyed<WafString> = ("new_key", WafString::from("bar")).into();
                let _ = std::mem::replace(elem, new_val.into());
            }
            2 => assert_eq!(elem.key_str().unwrap(), "key3"),
            3 => assert_eq!(elem.key_str().unwrap(), "key4"),
            _ => unreachable!(),
        }
    }

    assert_eq!(map.index(1).key_str().unwrap(), "new_key");
    assert_eq!(map.index(1).to_str().unwrap(), "bar");

    for (i, elem) in map.into_vec().into_iter().enumerate() {
        match i {
            0 => assert_eq!(elem.key_str().unwrap(), "key1"),
            1 => assert_eq!(elem.key_str().unwrap(), "new_key"),
            2 => assert_eq!(elem.key_str().unwrap(), "key3"),
            3 => assert_eq!(elem.key_str().unwrap(), "key4"),
            _ => unreachable!(),
        }
    }
}

#[test]
fn partial_iteration() {
    let arr = array_of(vec![WafObject::from(1u64), WafObject::from("foo")]);
    for elem in arr.into_vec() {
        if elem.object_type() == WafObjectType::Unsigned {
            break;
        }
    }

    let map = literal_map(vec![
        ("key1", WafObject::from(1u64)),
        ("key2", WafObject::from("foo")),
    ]);
    for elem in map.into_vec() {
        if elem.object_type() == WafObjectType::Unsigned {
            break;
        }
    }
}

#[test]
fn iteration_of_empty_containers() {
    let mut arr: WafArray = WafArray::new(0);
    assert!(arr.iter().next().is_none());
    assert!(arr.iter_mut().next().is_none());
    assert!(arr.into_vec().into_iter().next().is_none());

    let mut map = WafMap::new(0);
    assert!(map.iter().next().is_none());
    assert!(map.iter_mut().next().is_none());
    assert!(map.into_vec().into_iter().next().is_none());
}

#[test]
fn iteration_of_keyed_array() {
    let mut map = literal_map(vec![(
        "key1",
        array_of(vec![WafObject::from(1u64), WafObject::from("foo")]).into(),
    )]);
    let keyed_array: &mut WafArray = map.index_mut(0).as_type_mut().unwrap();

    for (i, elem) in keyed_array.iter().enumerate() {
        match i {
            0 => assert_eq!(elem.to_u64().unwrap(), 1),
            1 => assert_eq!(elem.to_str().unwrap(), "foo"),
            _ => unreachable!(),
        }
    }

    for (i, elem) in keyed_array.iter_mut().enumerate() {
        match i {
            0 => assert_eq!(elem.to_u64().unwrap(), 1),
            1 => {
                assert_eq!(elem.to_str().unwrap(), "foo");
                let new_str: WafString = "bar".into();
                let _ = std::mem::replace(elem, new_str.into());
            }
            _ => unreachable!(),
        }
    }

    assert_eq!(keyed_array.index(1).to_str().unwrap(), "bar");

    for (i, elem) in std::mem::take(keyed_array)
        .into_vec()
        .into_iter()
        .enumerate()
    {
        match i {
            0 => assert_eq!(elem.to_u64().unwrap(), 1),
            1 => assert_eq!(elem.to_str().unwrap(), "bar"),
            _ => unreachable!(),
        }
    }
}

#[test]
fn iteration_of_keyed_map() {
    let mut map = literal_map(vec![(
        "key1",
        literal_map(vec![("key2", WafObject::from(1u64))]).into(),
    )]);
    let keyed_map: &mut WafMap = map.index_mut(0).as_type_mut().unwrap();

    for (i, elem) in keyed_map.iter().enumerate() {
        match i {
            0 => {
                assert_eq!(elem.key_str().unwrap(), "key2");
                assert_eq!(elem.to_u64().unwrap(), 1);
            }
            _ => unreachable!(),
        }
    }

    for (i, elem) in keyed_map.iter_mut().enumerate() {
        match i {
            0 => {
                assert_eq!(elem.key_str().unwrap(), "key2");
                assert_eq!(elem.to_u64().unwrap(), 1);
                let new_val: Keyed<WafString> = ("new_key", WafString::from("bar")).into();
                let _ = std::mem::replace(elem, new_val.into());
            }
            _ => unreachable!(),
        }
    }
    assert_eq!(keyed_map.index(0).key_str().unwrap(), "new_key");
    assert_eq!(keyed_map.index(0).to_str().unwrap(), "bar");

    for (i, elem) in std::mem::take(keyed_map)
        .into_vec()
        .into_iter()
        .enumerate()
    {
        match i {
            0 => {
                assert_eq!(elem.key_str().unwrap(), "new_key");
                assert_eq!(elem.to_str().unwrap(), "bar");
            }
            _ => unreachable!(),
        }
    }
}

#[test]
#[allow(clippy::float_cmp)]
fn from_implementations() {
    assert_eq!(WafSigned::from(-123i64).value(), -123);
    assert_eq!(WafSigned::from(-123i32).value(), -123);

    assert_eq!(WafUnsigned::from(123u64).value(), 123);
    assert_eq!(WafUnsigned::from(123u32).value(), 123);

    assert_eq!(
        WafString::from("Hello, world!").as_str(),
        Ok("Hello, world!")
    );
    assert_eq!(
        WafString::from(&b"Hello, world!"[..]).as_str(),
        Ok("Hello, world!")
    );

    let arr = WafArray::from([
        WafObject::from(1u64),
        WafObject::from(2u64),
        WafObject::from(3u64),
    ]);
    for (i, elem) in arr.iter().enumerate() {
        assert_eq!(elem.to_u64().unwrap(), i as u64 + 1);
    }

    let map = WafMap::from([("1", WafObject::from(1u64)), ("2", WafObject::from(2u64))]);
    for elem in map.into_vec() {
        let key = elem.key_str().unwrap();
        let val = elem.to_u64().unwrap();
        assert_eq!(key, format!("{val}"));
    }

    assert!(WafBool::from(true).value());
    assert!(!WafBool::from(false).value());

    assert_eq!(f64::from_bits(WafFloat::from_bits(1.0f64.to_bits()).to_bits()), 1.0);

    assert!(WafNull::from(()).is_valid());
}

#[test]
fn try_from_implementations() {
    assert!(matches!(
        WafSigned::try_from(WafObject::default()),
        Err(ObjectTypeError {
            expected: WafObjectType::Signed,
            actual: WafObjectType::Invalid
        })
    ));
    assert!(matches!(
        WafUnsigned::try_from(WafObject::default()),
        Err(ObjectTypeError {
            expected: WafObjectType::Unsigned,
            actual: WafObjectType::Invalid
        })
    ));
    assert!(matches!(
        WafString::try_from(WafObject::default()),
        Err(ObjectTypeError {
            expected: WafObjectType::String,
            actual: WafObjectType::Invalid
        })
    ));
    assert!(matches!(
        WafArray::try_from(WafObject::default()),
        Err(ObjectTypeError {
            expected: WafObjectType::Array,
            actual: WafObjectType::Invalid
        })
    ));
    assert!(matches!(
        WafMap::try_from(WafObject::default()),
        Err(ObjectTypeError {
            expected: WafObjectType::Mapping,
            actual: WafObjectType::Invalid
        })
    ));
    assert!(matches!(
        WafBool::try_from(WafObject::default()),
        Err(ObjectTypeError {
            expected: WafObjectType::Bool,
            actual: WafObjectType::Invalid
        })
    ));
    assert!(matches!(
        WafFloat::try_from(WafObject::default()),
        Err(ObjectTypeError {
            expected: WafObjectType::Float,
            actual: WafObjectType::Invalid
        })
    ));
    assert!(matches!(
        WafNull::try_from(WafObject::default()),
        Err(ObjectTypeError {
            expected: WafObjectType::Null,
            actual: WafObjectType::Invalid
        })
    ));

    let obj = WafObject::from(42u64);
    assert!(WafArray::try_from(obj).is_err());
    let obj = WafObject::from(42u64);
    assert!(WafUnsigned::try_from(obj).is_ok());

    let obj = WafObject::from(42);
    assert!(WafUnsigned::try_from(obj).is_err());
    let obj = WafObject::from(42);
    assert!(WafSigned::try_from(obj).is_ok());

    let obj = float(42.0);
    assert!(WafSigned::try_from(obj).is_err());
    let obj = float(42.0);
    assert!(WafFloat::try_from(obj).is_ok());

    let obj = WafObject::from(true);
    assert!(WafFloat::try_from(obj).is_err());
    let obj = WafObject::from(true);
    assert!(WafBool::try_from(obj).is_ok());

    let obj = WafObject::from(());
    assert!(WafBool::try_from(obj).is_err());
    let obj = WafObject::from(());
    assert!(WafNull::try_from(obj).is_ok());

    let obj = WafObject::from("foobar");
    assert!(WafNull::try_from(obj).is_err());
    let obj = WafObject::from("foobar");
    assert!(WafString::try_from(obj).is_ok());

    let obj: WafObject = WafMap::new(0).into();
    assert!(WafString::try_from(obj).is_err());
    let obj: WafObject = WafMap::new(0).into();
    assert!(WafMap::try_from(obj).is_ok());

    let obj: WafObject = WafArray::new(0).into();
    assert!(WafMap::try_from(obj).is_err());
    let obj: WafObject = WafArray::new(0).into();
    assert!(WafArray::try_from(obj).is_ok());
}

#[test]
fn test_array_from_large_slice_truncates() {
    const EXCESS_SIZE: usize = u16::MAX as usize + 1;
    let mut large_vec: Vec<WafObject> = (0..EXCESS_SIZE)
        .map(|i| WafObject::from(i as u64))
        .collect();

    let array = WafArray::from(&mut large_vec[..]);

    // Verify the array was truncated to u16::MAX
    assert_eq!(array.len(), u16::MAX);
    assert_eq!(array.capacity(), u16::MAX);

    // Verify the elements in the array are correct
    assert_eq!(array.index(0).to_u64().unwrap(), 0);
    assert_eq!(array.index(100).to_u64().unwrap(), 100);
    assert_eq!(array.index(65534).to_u64().unwrap(), 65534);

    // The first u16::MAX elements of the vec were taken (replaced with invalid objects);
    // the excess one is still there.
    assert_eq!(large_vec.len(), EXCESS_SIZE);
    assert_eq!(large_vec[0].object_type(), WafObjectType::Invalid);
    assert_eq!(large_vec[65535].to_u64().unwrap(), 65535);
}

#[test]
fn test_map_from_large_slice_truncates() {
    const EXCESS_SIZE: usize = u16::MAX as usize + 1;
    let mut large_vec: Vec<(WafObject, WafObject)> = (0..EXCESS_SIZE)
        .map(|i| {
            (
                WafObject::from(format!("key{}", i).as_str()),
                WafObject::from(i as u64),
            )
        })
        .collect();

    let map = WafMap::from(&mut large_vec[..]);

    assert_eq!(map.len(), u16::MAX);
    assert_eq!(map.capacity(), u16::MAX);

    assert_eq!(map.get_str("key0").unwrap().to_u64().unwrap(), 0);
    assert_eq!(map.get_str("key100").unwrap().to_u64().unwrap(), 100);
    assert_eq!(map.get_str("key65534").unwrap().to_u64().unwrap(), 65534);

    assert_eq!(large_vec.len(), EXCESS_SIZE);
    assert_eq!(large_vec[0].0.object_type(), WafObjectType::Invalid);
    assert_eq!(large_vec[0].1.object_type(), WafObjectType::Invalid);
    assert_eq!(large_vec[65535].0.to_str().unwrap(), "key65535");
    assert_eq!(large_vec[65535].1.to_u64().unwrap(), 65535);
}

#[test]
fn string_representations_are_equivalent() {
    const HELLO: &[u8] = b"hello";

    let ss = WafString::new(b"hello").unwrap();
    assert_eq!(ss.kind(), StrKind::Small);
    assert!(ss.is_valid());
    let ss_obj: WafObject = ss.clone().into();
    assert_eq!(ss_obj.obj_type(), libddwaf::raw::DDWAF_OBJ_SMALL_STRING);
    assert!(ss_obj.is_string());

    let ls = WafString::new_literal(HELLO);
    assert_eq!(ls.kind(), StrKind::Literal);
    assert!(ls.is_valid());
    let ls_obj: WafObject = ls.clone().into();
    assert_eq!(ls_obj.obj_type(), libddwaf::raw::DDWAF_OBJ_LITERAL_STRING);
    assert!(ls_obj.is_string());
    assert_eq!(ss, ls);

    let ns = WafString::from(&b"a string longer than fourteen bytes"[..]);
    assert_eq!(ns.kind(), StrKind::Heap);
    let ns_obj: WafObject = ns.clone().into();
    assert_eq!(ns_obj.obj_type(), libddwaf::raw::DDWAF_OBJ_STRING);
    assert!(ns_obj.is_string());
    assert_eq!(ns.as_bytes(), &b"a string longer than fourteen bytes"[..]);

    let long_literal = WafString::new_literal(&b"a string longer than fourteen bytes"[..]);
    assert_eq!(long_literal.kind(), StrKind::Literal);
    assert_eq!(ns, long_literal);
    assert_ne!(ns, ss);
}

#[test]
fn keyed_array_iteration() {
    let arr = array_of(vec![WafObject::from(1u64), WafObject::from("foo")]);
    let mut keyed: Keyed<WafArray> = Keyed::new("key1".into(), arr);

    let mut seen = 0;
    for (i, elem) in keyed.iter().enumerate() {
        match i {
            0 => assert_eq!(elem.to_u64().unwrap(), 1),
            1 => assert_eq!(elem.to_str().unwrap(), "foo"),
            _ => unreachable!(),
        }
        seen += 1;
    }
    assert_eq!(seen, 2);

    for (i, elem) in keyed.iter_mut().enumerate() {
        match i {
            0 => assert_eq!(elem.to_u64().unwrap(), 1),
            1 => {
                assert_eq!(elem.to_str().unwrap(), "foo");
                let _ = std::mem::replace(elem, WafObject::from("bar"));
            }
            _ => unreachable!(),
        }
    }
    assert_eq!(keyed.iter_mut().count(), 2);
    assert_eq!(keyed.key_str().unwrap(), "key1");
    assert_eq!(keyed.value().index(1).to_str().unwrap(), "bar");
    assert_eq!(keyed.index(0).to_u64().unwrap(), 1);
}

#[test]
fn keyed_map_iteration() {
    let inner = literal_map(vec![
        ("key2", WafObject::from(1u64)),
        ("key3", WafObject::from(true)),
    ]);
    let mut keyed: Keyed<WafMap> = Keyed::new("key1".into(), inner);

    let keys: Vec<&str> = keyed.iter().map(|e| e.key_str().unwrap()).collect();
    assert_eq!(keys, vec!["key2", "key3"]);

    for (i, elem) in keyed.iter_mut().enumerate() {
        match i {
            0 => {
                assert_eq!(elem.to_u64().unwrap(), 1);
                let new_val: Keyed<WafString> = ("new_key", WafString::from("bar")).into();
                let _ = std::mem::replace(elem, new_val.into());
            }
            1 => assert_eq!(elem.to_bool(), Some(true)),
            _ => unreachable!(),
        }
    }
    assert_eq!(keyed.iter_mut().count(), 2);
    assert_eq!(keyed.key_str().unwrap(), "key1");
    assert_eq!(keyed.value().index(0).key_str().unwrap(), "new_key");
    assert_eq!(keyed.get_str("new_key").unwrap().to_str().unwrap(), "bar");
}

#[test]
fn containers_from_arrays_and_slices() {
    let arr = WafArray::from(
        &mut [
            WafObject::from(1u64),
            WafObject::from(2u64),
            WafObject::from(3u64),
        ][..],
    );
    assert_eq!(arr.len(), 3);
    assert_eq!(arr.capacity(), 3);
    assert_eq!(arr.index(2).to_u64(), Some(3));

    let empty = WafArray::from([] as [WafObject; 0]);
    assert_eq!(empty.len(), 0);
    assert_eq!(empty.capacity(), 0);

    let map = WafMap::from([
        (WafObject::from(7u64), WafObject::from("seven")),
        (WafObject::from("k"), WafObject::from(())),
    ]);
    assert_eq!(map.len(), 2);
    assert_eq!(map.capacity(), 2);
    assert_eq!(map.index(0).key().to_u64(), Some(7));
    assert_eq!(map.index(0).to_str(), Some("seven"));
    assert_eq!(map.index(1).key_str().unwrap(), "k");
    assert_eq!(map.index(1).object_type(), WafObjectType::Null);

    let map = WafMap::from([
        ("a fairly long key, on the heap", WafObject::from(1u64)),
        ("short", WafObject::from(2u64)),
    ]);
    assert_eq!(map.index(0).key().obj_type(), libddwaf::raw::DDWAF_OBJ_STRING);
    assert_eq!(map.index(1).key().obj_type(), libddwaf::raw::DDWAF_OBJ_SMALL_STRING);
    assert_eq!(map.get_str("short").unwrap().to_u64(), Some(2));

    let map = WafMap::from(
        &mut [
            (WafObject::from("1"), WafObject::from(1u64)),
            (WafObject::from("2"), WafObject::from(2u64)),
        ][..],
    );
    assert_eq!(map.get_str("2").unwrap().to_u64(), Some(2));
}
