use playwright::access::{Array, Enum, Object, ObjectArr};
use playwright::de::Deserializer;
use playwright::error::Error;
use playwright::rules::{Decoded, EnumSource, FloatSource, MapSource};
use playwright::value::{contains_key, get, Number, Value};

fn s(x: &str) -> Value {
    Value::String(x.to_string())
}

fn n(x: u64) -> Value {
    Value::Number(Number::PosInt(x))
}

fn obj(entries: Vec<(&str, Value)>) -> Value {
    Value::Object(entries.into_iter().map(|(k, v)| (k.to_string(), v)).collect())
}

fn float(x: f64) -> Value {
    Value::Number(Number::Float(x.to_bits()))
}

#[test]
fn struct_fields_from_key_value_pairs() {
    let v = obj(vec![(
        "o",
        Value::Array(vec![
            obj(vec![("k", s("a")), ("v", obj(vec![("n", n(3))]))]),
            obj(vec![("k", s("c")), ("v", obj(vec![("s", s("sdf"))]))]),
            obj(vec![("k", s("d")), ("v", obj(vec![("v", s("Infinity"))]))]),
            obj(vec![
                ("k", s("e")),
                ("v", obj(vec![("a", Value::Array(vec![obj(vec![("n", float(2.0))]), obj(vec![("b", Value::Bool(false))])]))])),
            ]),
        ]),
    )]);
    let mut de = Deserializer::new(&v);
    let pairs = match de.deserialize_map() {
        Ok(MapSource::Pairs(p)) => p,
        _ => panic!("expected pairs"),
    };
    let mut fields = ObjectArr::new(pairs);

    assert!(matches!(fields.next_key(&mut de), Ok(true)));
    assert_eq!(de.deserialize_str().unwrap(), "a");
    assert!(fields.next_value(&mut de).is_ok());
    assert_eq!(de.deserialize_i32().unwrap(), 3);

    assert!(matches!(fields.next_key(&mut de), Ok(true)));
    assert_eq!(de.deserialize_str().unwrap(), "c");
    assert!(fields.next_value(&mut de).is_ok());
    assert!(matches!(de.deserialize_option(), Ok(false)));
    assert_eq!(de.deserialize_str().unwrap(), "sdf");

    assert!(matches!(fields.next_key(&mut de), Ok(true)));
    assert_eq!(de.deserialize_str().unwrap(), "d");
    assert!(fields.next_value(&mut de).is_ok());
    assert!(matches!(de.deserialize_f64(), Ok(FloatSource::Infinity)));

    assert!(matches!(fields.next_key(&mut de), Ok(true)));
    assert_eq!(de.deserialize_str().unwrap(), "e");
    assert!(fields.next_value(&mut de).is_ok());
    let items = de.deserialize_seq().unwrap();
    assert_eq!(items.len(), 2);
    let mut elements = Array::new(items);
    assert!(elements.next_element(&mut de));
    match de.deserialize_any() {
        Ok(Decoded::F64(FloatSource::Number(Number::Float(bits)))) => assert_eq!(f64::from_bits(bits), 2.0),
        _ => panic!("expected a float"),
    }
    assert!(elements.next_element(&mut de));
    assert!(matches!(de.deserialize_any(), Ok(Decoded::Bool(false))));
    assert!(!elements.next_element(&mut de));

    assert!(matches!(fields.next_key(&mut de), Ok(false)));
    assert!(matches!(de.pop(), Err(Error::Blank)));
}

#[test]
fn null_marker_reads_as_absent_option() {
    let v = obj(vec![("v", s("null"))]);
    let mut de = Deserializer::new(&v);
    assert!(matches!(de.deserialize_option(), Ok(true)));
    assert!(matches!(de.pop(), Err(Error::Blank)));
}

#[test]
fn undefined_marker_and_null_read_as_unit() {
    for v in [obj(vec![("v", s("undefined"))]), obj(vec![("v", s("null"))]), Value::Null] {
        let mut de = Deserializer::new(&v);
        assert!(de.deserialize_unit().is_ok());
        let mut de = Deserializer::new(&v);
        assert!(matches!(de.deserialize_any(), Ok(Decoded::Unit)));
    }
}

#[test]
fn present_option_stays_for_its_content() {
    let v = obj(vec![("n", n(7))]);
    let mut de = Deserializer::new(&v);
    assert!(matches!(de.deserialize_option(), Ok(false)));
    assert_eq!(de.deserialize_u64().unwrap(), 7);
    assert!(matches!(de.pop(), Err(Error::Blank)));
}

#[test]
fn tag_is_transparent_for_typed_reads() {
    let pairs = [
        (obj(vec![("b", Value::Bool(true))]), Value::Bool(true)),
        (obj(vec![("n", n(42))]), n(42)),
    ];
    for (tagged, plain) in pairs.iter() {
        let a = Deserializer::new(tagged).deserialize_bool().ok();
        let b = Deserializer::new(plain).deserialize_bool().ok();
        assert_eq!(a, b);
        let a = Deserializer::new(tagged).deserialize_u64().ok();
        let b = Deserializer::new(plain).deserialize_u64().ok();
        assert_eq!(a, b);
    }
    assert_eq!(Deserializer::new(&obj(vec![("s", s("x"))])).deserialize_str().unwrap(), "x");
    assert_eq!(Deserializer::new(&obj(vec![("a", Value::Array(vec![n(1)]))])).deserialize_seq().unwrap().len(), 1);
}

#[test]
fn plain_values_decode_as_themselves() {
    assert!(matches!(Deserializer::new(&Value::Null).deserialize_any(), Ok(Decoded::Unit)));
    assert!(matches!(Deserializer::new(&Value::Bool(true)).deserialize_any(), Ok(Decoded::Bool(true))));
    assert!(matches!(Deserializer::new(&n(5)).deserialize_any(), Ok(Decoded::U64(5))));
    assert!(matches!(Deserializer::new(&Value::Number(Number::NegInt(-5))).deserialize_any(), Ok(Decoded::I64(-5))));
    let f = float(1.5);
    match Deserializer::new(&f).deserialize_any() {
        Ok(Decoded::F64(FloatSource::Number(Number::Float(bits)))) => assert_eq!(f64::from_bits(bits), 1.5),
        _ => panic!("expected a float"),
    }
    match Deserializer::new(&s("hi")).deserialize_any() {
        Ok(Decoded::Str(x)) => assert_eq!(x, "hi"),
        _ => panic!("expected a string"),
    }
    match Deserializer::new(&Value::Array(vec![n(1), n(2)])).deserialize_any() {
        Ok(Decoded::Array(a)) => assert_eq!(a.len(), 2),
        _ => panic!("expected an array"),
    }
}

#[test]
fn single_tags_decode_as_payload() {
    assert!(matches!(Deserializer::new(&obj(vec![("b", Value::Bool(true))])).deserialize_any(), Ok(Decoded::Bool(true))));
    assert!(matches!(Deserializer::new(&obj(vec![("n", n(9))])).deserialize_any(), Ok(Decoded::U64(9))));
    assert!(matches!(
        Deserializer::new(&obj(vec![("n", Value::Number(Number::NegInt(-9)))])).deserialize_any(),
        Ok(Decoded::I64(-9))
    ));
    match Deserializer::new(&obj(vec![("s", s("t"))])).deserialize_any() {
        Ok(Decoded::Str(x)) => assert_eq!(x, "t"),
        _ => panic!("expected a string"),
    }
    match Deserializer::new(&obj(vec![("a", Value::Array(vec![]))])).deserialize_any() {
        Ok(Decoded::Array(a)) => assert!(a.is_empty()),
        _ => panic!("expected an array"),
    }
    match Deserializer::new(&obj(vec![("o", Value::Array(vec![]))])).deserialize_any() {
        Ok(Decoded::Object(MapSource::Pairs(p))) => assert!(p.is_empty()),
        _ => panic!("expected pairs"),
    }
}

#[test]
fn wrapping_under_v_is_transparent() {
    let v = obj(vec![("v", obj(vec![("v", n(5))]))]);
    let mut de = Deserializer::new(&v);
    assert!(matches!(de.deserialize_any(), Ok(Decoded::U64(5))));
    assert!(matches!(de.pop(), Err(Error::Blank)));
    let v = obj(vec![("v", s("hello"))]);
    match Deserializer::new(&v).deserialize_any() {
        Ok(Decoded::Str(x)) => assert_eq!(x, "hello"),
        _ => panic!("expected a string"),
    }
}

#[test]
fn special_words_read_as_floats() {
    let cases = [
        ("Infinity", f64::INFINITY),
        ("-Infinity", f64::NEG_INFINITY),
        ("-0", -0.0f64),
    ];
    for (word, _) in cases.iter() {
        let v = obj(vec![("v", s(word))]);
        let got = Deserializer::new(&v).deserialize_f64();
        let expected_word = match got {
            Ok(FloatSource::Infinity) => "Infinity",
            Ok(FloatSource::NegInfinity) => "-Infinity",
            Ok(FloatSource::NegZero) => "-0",
            _ => "other",
        };
        assert_eq!(expected_word, *word);
    }
    let v = obj(vec![("v", s("NaN"))]);
    assert!(matches!(Deserializer::new(&v).deserialize_any(), Ok(Decoded::F64(FloatSource::NaN))));
    let v = obj(vec![("v", s("Infinity")), ("n", n(3))]);
    assert!(matches!(
        Deserializer::new(&v).deserialize_f64(),
        Ok(FloatSource::Number(Number::PosInt(3)))
    ));
}

#[test]
fn integers_are_narrowed_or_refused() {
    assert_eq!(Deserializer::new(&n(127)).deserialize_i8().unwrap(), 127);
    assert!(matches!(Deserializer::new(&n(128)).deserialize_i8(), Err(Error::TypeMismatch)));
    assert_eq!(Deserializer::new(&Value::Number(Number::NegInt(-128))).deserialize_i8().unwrap(), -128);
    assert!(matches!(Deserializer::new(&Value::Number(Number::NegInt(-1))).deserialize_u8(), Err(Error::TypeMismatch)));
    assert_eq!(Deserializer::new(&n(255)).deserialize_u8().unwrap(), 255);
    assert!(matches!(Deserializer::new(&n(256)).deserialize_u8(), Err(Error::TypeMismatch)));
    assert_eq!(Deserializer::new(&n(65535)).deserialize_u16().unwrap(), 65535);
    assert!(matches!(Deserializer::new(&n(65536)).deserialize_u16(), Err(Error::TypeMismatch)));
    assert_eq!(Deserializer::new(&n(32767)).deserialize_i16().unwrap(), 32767);
    assert!(matches!(Deserializer::new(&n(32768)).deserialize_i16(), Err(Error::TypeMismatch)));
    assert_eq!(Deserializer::new(&n(4294967295)).deserialize_u32().unwrap(), 4294967295);
    assert!(matches!(Deserializer::new(&n(4294967296)).deserialize_u32(), Err(Error::TypeMismatch)));
    assert_eq!(Deserializer::new(&n(2147483647)).deserialize_i32().unwrap(), 2147483647);
    assert!(matches!(Deserializer::new(&n(2147483648)).deserialize_i32(), Err(Error::TypeMismatch)));
    assert!(matches!(Deserializer::new(&n(u64::MAX)).deserialize_i64(), Err(Error::TypeMismatch)));
    assert_eq!(Deserializer::new(&n(u64::MAX)).deserialize_u64().unwrap(), u64::MAX);
    assert!(matches!(Deserializer::new(&float(1.0)).deserialize_u64(), Err(Error::TypeMismatch)));
    assert!(matches!(Deserializer::new(&s("1")).deserialize_i64(), Err(Error::TypeMismatch)));
}

#[test]
fn number_tag_with_no_number_stays_on_the_stack() {
    let v = obj(vec![("n", s("x"))]);
    let mut de = Deserializer::new(&v);
    assert!(matches!(de.deserialize_any(), Err(Error::TypeMismatch)));
    assert!(de.pop().is_ok());
    assert!(matches!(de.pop(), Err(Error::Blank)));
}

#[test]
fn reads_take_the_value_even_when_they_fail() {
    let v = s("x");
    let mut de = Deserializer::new(&v);
    assert!(matches!(de.deserialize_bool(), Err(Error::TypeMismatch)));
    assert!(matches!(de.deserialize_bool(), Err(Error::Blank)));
    assert!(matches!(de.deserialize_any(), Err(Error::Blank)));
    assert!(matches!(de.deserialize_option(), Err(Error::Blank)));
}

#[test]
fn maps_by_their_form() {
    let v = obj(vec![("x", n(1)), ("y", Value::Bool(true))]);
    let mut de = Deserializer::new(&v);
    let entries = match de.deserialize_map() {
        Ok(MapSource::Entries(e)) => e,
        _ => panic!("expected entries"),
    };
    let mut o = Object::new(entries);
    assert_eq!(o.next_key().unwrap(), "x");
    assert_eq!(o.next_key().unwrap(), "y");
    assert!(o.next_key().is_none());
    assert!(o.next_value(&mut de).is_ok());
    assert_eq!(de.deserialize_u64().unwrap(), 1);
    assert!(o.next_value(&mut de).is_ok());
    assert!(de.deserialize_bool().unwrap());
    assert!(matches!(o.next_value(&mut de), Err(Error::Blank)));

    for refused in [
        obj(vec![("v", n(1))]),
        obj(vec![("a", n(1))]),
        obj(vec![("d", n(1))]),
        obj(vec![("n", n(1))]),
        obj(vec![("s", s("x"))]),
        obj(vec![("b", Value::Bool(true))]),
        obj(vec![("o", n(1))]),
        n(1),
    ] {
        assert!(matches!(Deserializer::new(&refused).deserialize_map(), Err(Error::TypeMismatch)));
    }
}

#[test]
fn pair_without_key_or_value_is_blank() {
    let v = Value::Array(vec![obj(vec![("v", n(1))]), obj(vec![("k", s("b"))])]);
    let pairs = match &v {
        Value::Array(a) => a,
        _ => unreachable!(),
    };
    let holder = n(0);
    let mut de = Deserializer::new(&holder);
    let mut fields = ObjectArr::new(pairs);
    assert_eq!(fields.entered(), 0);
    assert!(matches!(fields.next_key(&mut de), Err(Error::Blank)));
    assert_eq!(fields.entered(), 1);
    assert!(fields.next_value(&mut de).is_ok());
    assert_eq!(de.deserialize_u64().unwrap(), 1);
    assert!(matches!(fields.next_key(&mut de), Ok(true)));
    assert_eq!(de.deserialize_str().unwrap(), "b");
    assert!(matches!(fields.next_value(&mut de), Err(Error::Blank)));
    assert_eq!(de.deserialize_u64().unwrap(), 0);
}

#[test]
fn enums_by_name_or_first_entry() {
    let v = s("Unit");
    match Deserializer::new(&v).deserialize_enum() {
        Ok(EnumSource::Name(x)) => assert_eq!(x, "Unit"),
        _ => panic!("expected a name"),
    }
    let v = obj(vec![("Newtype", n(4)), ("Other", n(5))]);
    let mut de = Deserializer::new(&v);
    let entries = match de.deserialize_enum() {
        Ok(EnumSource::Entries(e)) => e,
        _ => panic!("expected entries"),
    };
    let e = Enum::new(entries);
    assert_eq!(e.variant_name().unwrap(), "Newtype");
    e.enter_variant(&mut de);
    assert_eq!(de.deserialize_u64().unwrap(), 4);
    let empty = obj(vec![]);
    let entries = match &empty {
        Value::Object(m) => m,
        _ => unreachable!(),
    };
    assert!(matches!(Enum::new(entries).variant_name(), Err(Error::Blank)));
    assert!(matches!(Deserializer::new(&n(1)).deserialize_enum(), Err(Error::TypeMismatch)));
}

#[test]
fn lookup_takes_the_first_matching_key() {
    let m = vec![("a".to_string(), n(1)), ("b".to_string(), n(2)), ("a".to_string(), n(3))];
    assert!(matches!(get(&m, "a"), Some(Value::Number(Number::PosInt(1)))));
    assert!(matches!(get(&m, "b"), Some(Value::Number(Number::PosInt(2)))));
    assert!(get(&m, "c").is_none());
    assert!(get(&m, "ab").is_none());
    assert!(contains_key(&m, "b"));
    assert!(!contains_key(&m, "B"));
}

#[test]
fn number_kinds() {
    let big = Number::PosInt(u64::MAX);
    assert!(big.is_u64() && !big.is_i64() && !big.is_f64());
    assert_eq!(big.as_u64(), Some(u64::MAX));
    assert_eq!(big.as_i64(), None);
    let neg = Number::NegInt(-3);
    assert!(!neg.is_u64() && neg.is_i64());
    assert_eq!(neg.as_u64(), None);
    assert_eq!(neg.as_i64(), Some(-3));
    let f = Number::Float(0.5f64.to_bits());
    assert!(f.is_f64() && !f.is_i64());
    assert_eq!(f.as_i64(), None);
}

#[test]
fn dates_are_flagged_before_a_self_describing_read() {
    let date = obj(vec![("d", s("2021-01-01"))]);
    assert!(Deserializer::new(&date).any_is_unimplemented());
    let wrapped = obj(vec![("v", obj(vec![("d", n(1))]))]);
    assert!(Deserializer::new(&wrapped).any_is_unimplemented());
    let marked = obj(vec![("v", s("null")), ("d", n(1))]);
    assert!(!Deserializer::new(&marked).any_is_unimplemented());
    let listed = obj(vec![("a", Value::Array(vec![])), ("d", n(1))]);
    assert!(!Deserializer::new(&listed).any_is_unimplemented());
    assert!(!Deserializer::new(&n(1)).any_is_unimplemented());
}

#[test]
fn self_describing_read_agrees_with_typed_reads() {
    let values = [
        obj(vec![("n", n(12))]),
        obj(vec![("v", obj(vec![("b", Value::Bool(true))]))]),
        obj(vec![("s", s("x"))]),
        Value::Number(Number::NegInt(-7)),
    ];
    for v in values.iter() {
        match Deserializer::new(v).deserialize_any() {
            Ok(Decoded::U64(x)) => assert_eq!(Deserializer::new(v).deserialize_u64().unwrap(), x),
            Ok(Decoded::I64(x)) => assert_eq!(Deserializer::new(v).deserialize_i64().unwrap(), x),
            Ok(Decoded::Str(x)) => assert_eq!(Deserializer::new(v).deserialize_str().unwrap(), x),
            Ok(Decoded::Bool(b)) => {
                let mut de = Deserializer::new(v);
                assert!(matches!(de.deserialize_any(), Ok(Decoded::Bool(c)) if c == b));
                assert!(b);
            }
            other => panic!("unexpected {:?}", other),
        }
    }
}
