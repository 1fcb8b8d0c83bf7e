use playwright::access::{Array, ObjectArr};
use playwright::de::Deserializer;
use playwright::error::Error;
use playwright::rules::{Decoded, FloatSource, MapSource};
use playwright::value::{Number, Value};

#[derive(Debug, PartialEq, Clone)]
enum Data {
    Null,
    Bool(bool),
    U64(u64),
    I64(i64),
    F64Bits(u64),
    Str(String),
    List(Vec<Data>),
    Entries(Vec<(String, Data)>),
}

fn read_all(de: &mut Deserializer<'_>) -> Data {
    assert!(!de.any_is_unimplemented());
    match de.deserialize_any() {
        Ok(Decoded::Unit) => Data::Null,
        Ok(Decoded::Bool(b)) => Data::Bool(b),
        Ok(Decoded::U64(n)) => Data::U64(n),
        Ok(Decoded::I64(n)) => Data::I64(n),
        Ok(Decoded::F64(FloatSource::Number(Number::Float(bits)))) => Data::F64Bits(bits),
        Ok(Decoded::Str(s)) => Data::Str(s.clone()),
        Ok(Decoded::Array(items)) => {
            let mut out = Vec::new();
            let mut cursor = Array::new(items);
            while cursor.next_element(de) {
                out.push(read_all(de));
            }
            Data::List(out)
        }
        Ok(Decoded::Object(MapSource::Pairs(pairs))) => {
            let mut out = Vec::new();
            let mut cursor = ObjectArr::new(pairs);
            while cursor.next_key(de).unwrap() {
                let key = de.deserialize_str().unwrap().clone();
                cursor.next_value(de).unwrap();
                out.push((key, read_all(de)));
            }
            Data::Entries(out)
        }
        other => panic!("unexpected {:?}", other),
    }
}

fn tag(k: &str, v: Value) -> Value {
    Value::Object(vec![(k.to_string(), v)])
}

fn encode(d: &Data) -> Value {
    match d {
        Data::Null => tag("v", Value::String("null".to_string())),
        Data::Bool(b) => tag("b", Value::Bool(*b)),
        Data::U64(n) => tag("n", Value::Number(Number::PosInt(*n))),
        Data::I64(n) => tag("n", Value::Number(Number::NegInt(*n))),
        Data::F64Bits(b) => tag("n", Value::Number(Number::Float(*b))),
        Data::Str(s) => tag("s", Value::String(s.clone())),
        Data::List(xs) => tag("a", Value::Array(xs.iter().map(encode).collect())),
        Data::Entries(es) => tag(
            "o",
            Value::Array(
                es.iter()
                    .map(|(k, v)| {
                        Value::Object(vec![("k".to_string(), Value::String(k.clone())), ("v".to_string(), encode(v))])
                    })
                    .collect(),
            ),
        ),
    }
}

fn sample() -> Data {
    Data::Entries(vec![
        ("a".to_string(), Data::U64(3)),
        ("b".to_string(), Data::Null),
        ("c".to_string(), Data::List(vec![Data::Bool(true), Data::I64(-4), Data::F64Bits(2.5f64.to_bits())])),
        (
            "d".to_string(),
            Data::Entries(vec![("x".to_string(), Data::Str("y".to_string())), ("z".to_string(), Data::List(vec![]))]),
        ),
    ])
}

#[test]
fn encoded_data_reads_back_as_itself() {
    let data = sample();
    let v = encode(&data);
    let mut de = Deserializer::new(&v);
    assert_eq!(read_all(&mut de), data);
    assert!(matches!(de.pop(), Err(Error::Blank)));
}

#[test]
fn plain_json_reads_back_as_itself() {
    let v = Value::Array(vec![
        Value::Null,
        Value::Bool(false),
        Value::Number(Number::PosInt(7)),
        Value::Array(vec![Value::String("q".to_string()), Value::Number(Number::NegInt(-1))]),
    ]);
    let mut de = Deserializer::new(&v);
    assert_eq!(
        read_all(&mut de),
        Data::List(vec![
            Data::Null,
            Data::Bool(false),
            Data::U64(7),
            Data::List(vec![Data::Str("q".to_string()), Data::I64(-1)]),
        ])
    );
    assert!(matches!(de.pop(), Err(Error::Blank)));
}

#[test]
fn array_cursor_hands_out_each_element_once_in_order() {
    let items = vec![Value::Number(Number::PosInt(10)), Value::Number(Number::PosInt(11)), Value::Number(Number::PosInt(12))];
    let holder = Value::Null;
    let mut de = Deserializer::new(&holder);
    let mut cursor = Array::new(&items);
    for expected in [10u64, 11, 12] {
        assert!(cursor.next_element(&mut de));
        assert_eq!(de.deserialize_u64().unwrap(), expected);
    }
    for _ in 0..3 {
        assert!(!cursor.next_element(&mut de));
    }
    assert!(de.deserialize_unit().is_ok());
    assert!(matches!(de.pop(), Err(Error::Blank)));
}

#[test]
fn pair_cursor_hands_out_keys_and_values_in_order() {
    let pairs: Vec<Value> = (0..3u64)
        .map(|i| {
            Value::Object(vec![
                ("k".to_string(), Value::String(format!("key{}", i))),
                ("v".to_string(), Value::Number(Number::PosInt(i * 100))),
            ])
        })
        .collect();
    let holder = Value::Null;
    let mut de = Deserializer::new(&holder);
    let mut cursor = ObjectArr::new(&pairs);
    for i in 0..3u64 {
        assert!(matches!(cursor.next_key(&mut de), Ok(true)));
        assert_eq!(de.deserialize_str().unwrap(), &format!("key{}", i));
        assert!(cursor.next_value(&mut de).is_ok());
        assert_eq!(de.deserialize_u64().unwrap(), i * 100);
    }
    for _ in 0..2 {
        assert!(matches!(cursor.next_key(&mut de), Ok(false)));
    }
    assert_eq!(cursor.entered(), 3);
}
