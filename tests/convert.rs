use fdo_util::convert::{yaml_to_cbor, number_to_cbor_value, CborValue, YamlNumber, YamlValue};

fn text(s: &str) -> YamlValue {
    YamlValue::String(s.to_string())
}

#[test]
fn unsigned_integer_becomes_integer() {
    let r = yaml_to_cbor(&YamlValue::Number(YamlNumber::PosInt(42))).unwrap();
    assert_eq!(r, CborValue::Integer(42));
}

#[test]
fn largest_unsigned_integer_is_kept() {
    let r = yaml_to_cbor(&YamlValue::Number(YamlNumber::PosInt(u64::MAX))).unwrap();
    assert_eq!(r, CborValue::Integer(u64::MAX as i128));
}

#[test]
fn negative_integer_becomes_integer() {
    let r = yaml_to_cbor(&YamlValue::Number(YamlNumber::NegInt(i64::MIN))).unwrap();
    assert_eq!(r, CborValue::Integer(i64::MIN as i128));
    let r = yaml_to_cbor(&YamlValue::Number(YamlNumber::NegInt(-5))).unwrap();
    assert_eq!(r, CborValue::Integer(-5));
}

#[test]
fn float_becomes_float() {
    let r = yaml_to_cbor(&YamlValue::Number(YamlNumber::Float(3.14f64.to_bits()))).unwrap();
    match r {
        CborValue::Float(bits) => assert_eq!(f64::from_bits(bits), 3.14),
        other => panic!("expected a float, got {:?}", other),
    }
}

#[test]
fn whole_float_stays_float() {
    let r = yaml_to_cbor(&YamlValue::Number(YamlNumber::Float(2.0f64.to_bits()))).unwrap();
    assert_eq!(r, CborValue::Float(2.0f64.to_bits()));
}

#[test]
fn number_tiers() {
    assert_eq!(number_to_cbor_value(&YamlNumber::PosInt(7)), Ok(CborValue::Integer(7)));
    assert_eq!(YamlNumber::PosInt(u64::MAX).as_i64(), None);
    assert_eq!(YamlNumber::PosInt(9).as_i64(), Some(9));
    assert_eq!(YamlNumber::NegInt(-1).as_u64(), None);
    assert_eq!(YamlNumber::Float(0).as_u64(), None);
    assert_eq!(YamlNumber::Float(5).as_f64_bits(), Some(5));
}

#[test]
fn scalars_convert_directly() {
    assert_eq!(yaml_to_cbor(&YamlValue::Null).unwrap(), CborValue::Null);
    assert_eq!(yaml_to_cbor(&YamlValue::Bool(true)).unwrap(), CborValue::Bool(true));
    assert_eq!(yaml_to_cbor(&text("hi")).unwrap(), CborValue::Text("hi".to_string()));
}

#[test]
fn sequence_keeps_order() {
    let src = YamlValue::Sequence(vec![
        YamlValue::Number(YamlNumber::PosInt(1)),
        text("a"),
        YamlValue::Null,
    ]);
    let r = yaml_to_cbor(&src).unwrap();
    assert_eq!(
        r,
        CborValue::Array(vec![
            CborValue::Integer(1),
            CborValue::Text("a".to_string()),
            CborValue::Null,
        ])
    );
}

#[test]
fn empty_collections() {
    assert_eq!(yaml_to_cbor(&YamlValue::Sequence(vec![])).unwrap(), CborValue::Array(vec![]));
    assert_eq!(yaml_to_cbor(&YamlValue::Mapping(vec![])).unwrap(), CborValue::Mapping(vec![]));
}

#[test]
fn sequence_key_in_mapping() {
    let key = YamlValue::Sequence(vec![
        YamlValue::Number(YamlNumber::PosInt(1)),
        YamlValue::Number(YamlNumber::PosInt(2)),
    ]);
    let src = YamlValue::Mapping(vec![(key, text("x"))]);
    let r = yaml_to_cbor(&src).unwrap();
    assert_eq!(
        r,
        CborValue::Mapping(vec![(
            CborValue::Array(vec![CborValue::Integer(1), CborValue::Integer(2)]),
            CborValue::Text("x".to_string()),
        )])
    );
}

#[test]
fn nested_mapping_converts() {
    let inner = YamlValue::Mapping(vec![(text("port"), YamlValue::Number(YamlNumber::PosInt(8080)))]);
    let src = YamlValue::Mapping(vec![
        (text("bind"), inner),
        (YamlValue::Bool(false), YamlValue::Number(YamlNumber::NegInt(-3))),
    ]);
    let r = yaml_to_cbor(&src).unwrap();
    assert_eq!(
        r,
        CborValue::Mapping(vec![
            (
                CborValue::Text("bind".to_string()),
                CborValue::Mapping(vec![(CborValue::Text("port".to_string()), CborValue::Integer(8080))]),
            ),
            (CborValue::Bool(false), CborValue::Integer(-3)),
        ])
    );
}

#[test]
fn converting_twice_gives_equal_trees() {
    let src = YamlValue::Mapping(vec![
        (text("a"), YamlValue::Sequence(vec![YamlValue::Number(YamlNumber::Float(1.5f64.to_bits())), YamlValue::Null])),
        (YamlValue::Number(YamlNumber::NegInt(-1)), text("b")),
    ]);
    let first = yaml_to_cbor(&src).unwrap();
    let second = yaml_to_cbor(&src).unwrap();
    assert_eq!(first, second);
}
