use metacall::codec::{
    decode, encode_arg, reader_for_tag, ForeignValue, Reader, Reading, TAG_ARRAY, TAG_BOOL,
    TAG_BUFFER, TAG_CHAR, TAG_DOUBLE, TAG_FLOAT, TAG_FUNCTION, TAG_FUTURE, TAG_INT, TAG_LONG,
    TAG_MAP, TAG_NULL, TAG_PTR, TAG_SHORT, TAG_STRING,
};
use metacall::Any;

/// What a runtime that keeps the payload hands back through the matching accessor.
fn stored(f: &ForeignValue) -> Reading {
    match f {
        ForeignValue::Short(x) => Reading::Short(*x),
        ForeignValue::Int(x) => Reading::Int(*x),
        ForeignValue::Long(x) => Reading::Long(*x),
        ForeignValue::Float(x) => Reading::Float(*x),
        ForeignValue::Double(x) => Reading::Double(*x),
        ForeignValue::Bool(x) => Reading::Bool(*x),
        ForeignValue::Char(x) => Reading::Char(*x),
        ForeignValue::Str(b) => Reading::Str(b.clone()),
    }
}

fn round_trip(a: &Any) -> Any {
    let f = encode_arg(a).expect("encodable");
    decode(stored(&f))
}

#[test]
fn encode_primitives() {
    assert_eq!(encode_arg(&Any::Short(3)), Some(ForeignValue::Short(3)));
    assert_eq!(encode_arg(&Any::Int(-4)), Some(ForeignValue::Int(-4)));
    assert_eq!(encode_arg(&Any::Long(1 << 40)), Some(ForeignValue::Long(1 << 40)));
    assert_eq!(encode_arg(&Any::Float(7)), Some(ForeignValue::Float(7)));
    assert_eq!(encode_arg(&Any::Double(9)), Some(ForeignValue::Double(9)));
    assert_eq!(encode_arg(&Any::Bool(true)), Some(ForeignValue::Bool(1)));
    assert_eq!(encode_arg(&Any::Bool(false)), Some(ForeignValue::Bool(0)));
    assert_eq!(encode_arg(&Any::Char('A')), Some(ForeignValue::Char(65)));
    assert_eq!(encode_arg(&Any::Char('\u{e9}')), Some(ForeignValue::Char(-23)));
}

#[test]
fn encode_string_with_utf8_length() {
    let f = encode_arg(&Any::Str("héllo".to_string()));
    assert_eq!(f, Some(ForeignValue::Str(vec![b'h', 0xc3, 0xa9, b'l', b'l', b'o'])));
}

#[test]
fn encode_unsupported_variants() {
    assert_eq!(encode_arg(&Any::Null), None);
    assert_eq!(encode_arg(&Any::Array(vec![Any::Int(1)])), None);
    assert_eq!(encode_arg(&Any::Buffer(vec![1, 2])), None);
    assert_eq!(encode_arg(&Any::Pointer(Box::new(Any::Int(1)))), None);
    assert_eq!(encode_arg(&Any::Function(0)), None);
}

#[test]
fn readers_of_tags() {
    assert_eq!(reader_for_tag(TAG_BOOL), Some(Reader::Bool));
    assert_eq!(reader_for_tag(TAG_CHAR), Some(Reader::Char));
    assert_eq!(reader_for_tag(TAG_SHORT), Some(Reader::Short));
    assert_eq!(reader_for_tag(TAG_INT), Some(Reader::Int));
    assert_eq!(reader_for_tag(TAG_LONG), Some(Reader::Long));
    assert_eq!(reader_for_tag(TAG_FLOAT), Some(Reader::Float));
    assert_eq!(reader_for_tag(TAG_DOUBLE), Some(Reader::Double));
    assert_eq!(reader_for_tag(TAG_STRING), Some(Reader::Str));
    for tag in [TAG_BUFFER, TAG_ARRAY, TAG_MAP, TAG_PTR, TAG_FUTURE, TAG_FUNCTION, TAG_NULL] {
        assert_eq!(reader_for_tag(tag), None);
    }
    assert_eq!(TAG_NULL, 14);
    assert_eq!(reader_for_tag(15), None);
    assert_eq!(reader_for_tag(-1), None);
    assert_eq!(reader_for_tag(i32::MAX), None);
}

#[test]
fn decode_readings() {
    assert_eq!(decode(Reading::Bool(0)), Any::Bool(false));
    assert_eq!(decode(Reading::Bool(5)), Any::Bool(true));
    assert_eq!(decode(Reading::Char(-1)), Any::Char('\u{ff}'));
    assert_eq!(decode(Reading::Short(-2)), Any::Short(-2));
    assert_eq!(decode(Reading::Int(42)), Any::Int(42));
    assert_eq!(decode(Reading::Long(-42)), Any::Long(-42));
    assert_eq!(decode(Reading::Float(1)), Any::Float(1));
    assert_eq!(decode(Reading::Double(2)), Any::Double(2));
    assert_eq!(decode(Reading::Str(b"Hello World".to_vec())), Any::Str("Hello World".to_string()));
}

#[test]
fn decode_invalid_utf8_is_null() {
    assert_eq!(decode(Reading::Str(vec![0xff, 0xfe])), Any::Null);
}

#[test]
fn primitive_round_trips() {
    let values = vec![
        Any::from(i16::MIN),
        Any::from(123456i32),
        Any::from(-9_000_000_000i64),
        Any::Float(2.5f32.to_bits()),
        Any::Double(f64::NAN.to_bits()),
        Any::from(true),
        Any::from(false),
        Any::from(-128i8),
        Any::from(127i8),
    ];
    for v in values {
        assert_eq!(round_trip(&v), v);
    }
}

#[test]
fn string_round_trip() {
    let v = Any::Str("héllo".to_string());
    assert_eq!(round_trip(&v), v);
    let with_nul = Any::Str("a\u{0}b".to_string());
    assert_eq!(round_trip(&with_nul), with_nul);
    let empty = Any::Str(String::new());
    assert_eq!(round_trip(&empty), empty);
}
