//! Decoding parameter flags and values.

use zsh_module::{
    flags_for, CStrArray, GsuValue, Param, ParamFlags, ParamType, ParamValue, PM_ARRAY,
    PM_EFLOAT, PM_FFLOAT, PM_HASHED, PM_INTEGER, PM_SCALAR,
};

#[test]
fn type_bits_decode_to_each_shape() {
    assert_eq!(ParamFlags::from_bits(PM_SCALAR).only_type(), ParamType::Scalar);
    assert_eq!(ParamFlags::from_bits(PM_ARRAY).only_type(), ParamType::Array);
    assert_eq!(ParamFlags::from_bits(PM_INTEGER).only_type(), ParamType::Integer);
    assert_eq!(ParamFlags::from_bits(PM_EFLOAT).only_type(), ParamType::EFloat);
    assert_eq!(ParamFlags::from_bits(PM_FFLOAT).only_type(), ParamType::FFloat);
    assert_eq!(ParamFlags::from_bits(PM_HASHED).only_type(), ParamType::Hashed);
}

#[test]
fn attribute_bits_do_not_disturb_the_type() {
    // read-only (bit 10) and exported (bit 12) are attributes, not types
    let bits = PM_INTEGER | (1 << 10) | (1 << 12);
    assert_eq!(ParamFlags::from_bits(bits).only_type(), ParamType::Integer);
}

#[test]
fn flag_roundtrip_reproduces_each_tagged_variant() {
    let cases: Vec<(ParamType, GsuValue)> = vec![
        (ParamType::Scalar, GsuValue::Scalar(b"text".to_vec())),
        (ParamType::Integer, GsuValue::Integer(42)),
        (ParamType::EFloat, GsuValue::Float(0x3ff0000000000000)),
        (ParamType::FFloat, GsuValue::Float(0x4000000000000000)),
        (
            ParamType::Array,
            GsuValue::Array(CStrArray::from_items(vec![b"a".to_vec()])),
        ),
        (ParamType::Hashed, GsuValue::Opaque),
    ];
    for (t, raw) in cases {
        let flags = flags_for(t);
        assert_eq!(flags.only_type(), t);
        let param = Param::new(flags, raw).unwrap();
        assert_eq!(param.type_of(), t);
        let value = param.get_value();
        let matches_shape = match (t, &value) {
            (ParamType::Scalar, ParamValue::Scalar(_)) => true,
            (ParamType::Integer, ParamValue::Integer(_)) => true,
            (ParamType::EFloat, ParamValue::Float(_)) => true,
            (ParamType::FFloat, ParamValue::Float(_)) => true,
            (ParamType::Array, ParamValue::Array(_)) => true,
            (ParamType::Hashed, ParamValue::HashTable) => true,
            _ => false,
        };
        assert!(matches_shape);
    }
}

#[test]
fn decoded_payloads_come_through_unchanged() {
    let param = Param::new(flags_for(ParamType::Integer), GsuValue::Integer(-7)).unwrap();
    assert!(matches!(param.get_value(), ParamValue::Integer(-7)));

    let param = Param::new(flags_for(ParamType::Scalar), GsuValue::Scalar(b"hi".to_vec())).unwrap();
    match param.get_value() {
        ParamValue::Scalar(s) => assert_eq!(s, b"hi".to_vec()),
        _ => panic!("wrong variant"),
    }

    let param = Param::new(
        flags_for(ParamType::Array),
        GsuValue::Array(CStrArray::from_items(vec![b"x".to_vec(), b"y".to_vec()])),
    )
    .unwrap();
    match param.get_value() {
        ParamValue::Array(a) => {
            assert_eq!(a.len(), 2);
            assert_eq!(a.get(1).unwrap(), &b"y".to_vec());
        }
        _ => panic!("wrong variant"),
    }
}

#[test]
fn fetch_through_the_wrong_getter_is_refused() {
    assert!(Param::new(flags_for(ParamType::Integer), GsuValue::Scalar(b"oops".to_vec())).is_none());
    assert!(Param::new(flags_for(ParamType::Scalar), GsuValue::Integer(1)).is_none());
    assert!(Param::new(flags_for(ParamType::Hashed), GsuValue::Integer(1)).is_none());
    assert!(Param::new(flags_for(ParamType::EFloat), GsuValue::Integer(1)).is_none());
}
