use metacall::{Any, Error, ErrorKind};

#[test]
fn from_short_int_long() {
    assert_eq!(Any::from(-7i16), Any::Short(-7));
    assert_eq!(Any::from(i32::MIN), Any::Int(i32::MIN));
    assert_eq!(Any::from(i64::MAX), Any::Long(i64::MAX));
}

#[test]
fn from_bool() {
    assert_eq!(Any::from(true), Any::Bool(true));
    assert_eq!(Any::from(false), Any::Bool(false));
}

#[test]
fn from_char_reads_byte_as_unsigned() {
    assert_eq!(Any::from(b'a' as i8), Any::Char('a'));
    // 0xE9 as a signed byte is -23; it must widen to U+00E9, not sign-extend.
    assert_eq!(Any::from(-23i8), Any::Char('\u{e9}'));
    assert_eq!(Any::from(-1i8), Any::Char('\u{ff}'));
}

#[test]
fn float_payloads_are_bit_exact() {
    let f = 1.5f32;
    let d = -0.0f64;
    assert_eq!(Any::Float(f.to_bits()), Any::Float(0x3fc0_0000));
    assert_eq!(f32::from_bits(0x3fc0_0000), f);
    assert_eq!(Any::Double(d.to_bits()), Any::Double(0x8000_0000_0000_0000));
}

#[test]
fn error_messages() {
    assert_eq!(Error(ErrorKind::FunctionNotFound).message(), "function not found");
    assert_eq!(Error(ErrorKind::InitializationFailed).message(), "failed to initialize the runtime");
    assert_eq!(Error(ErrorKind::LoadFailed).message(), "failed to load script");
    assert_eq!(Error(ErrorKind::UnsupportedArgumentType).message(), "unsupported argument type");
}
