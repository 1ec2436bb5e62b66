use vstd::prelude::*;
use vstd::utf8::{decode_utf8, encode_utf8, valid_utf8};
use vstd::string::StrSliceExecFns;
use crate::value::Any;

verus! {

broadcast use vstd::utf8::encode_utf8_valid_utf8, vstd::utf8::encode_utf8_decode_utf8;

/// Type tags that the runtime reports for a value handle.
pub const TAG_BOOL: i32 = 0;
pub const TAG_CHAR: i32 = 1;
pub const TAG_SHORT: i32 = 2;
pub const TAG_INT: i32 = 3;
pub const TAG_LONG: i32 = 4;
pub const TAG_FLOAT: i32 = 5;
pub const TAG_DOUBLE: i32 = 6;
pub const TAG_STRING: i32 = 7;
pub const TAG_BUFFER: i32 = 8;
pub const TAG_ARRAY: i32 = 9;
pub const TAG_MAP: i32 = 10;
pub const TAG_PTR: i32 = 11;
pub const TAG_FUTURE: i32 = 12;
pub const TAG_FUNCTION: i32 = 13;
/// The "no value" tag.
pub const TAG_NULL: i32 = 14;

/// A request to one of the runtime's value constructors, with the payload it
/// is handed.
#[derive(Debug, PartialEq, Eq)]
pub enum ForeignValue {
    Short(i16),
    Int(i32),
    Long(i64),
    Float(u32),
    Double(u64),
    /// A boolean as the runtime's integer: 1 or 0.
    Bool(i32),
    /// A one-byte character.
    Char(i8),
    /// UTF-8 bytes, handed over together with their explicit length.
    Str(Vec<u8>),
}

/// One of the runtime's typed accessors on a value handle.
#[derive(Debug, Clone, Copy, PartialEq, Eq, Structural)]
pub enum Reader {
    Bool,
    Char,
    Short,
    Int,
    Long,
    Float,
    Double,
    Str,
}

/// What a typed accessor returned.
#[derive(Debug, PartialEq, Eq)]
pub enum Reading {
    Bool(i32),
    Char(i8),
    Short(i16),
    Int(i32),
    Long(i64),
    Float(u32),
    Double(u64),
    /// The bytes of the string up to its terminator.
    Str(Vec<u8>),
}

/// The low byte of a character, as the runtime's one-byte character.
pub open spec fn byte_of_char(c: char) -> i8 {
    ((c as u32) % 256) as u8 as i8
}

/// A variant that has an encoding for the runtime.
pub open spec fn encodable(a: Any) -> bool {
    match a {
        Any::Short(_) | Any::Int(_) | Any::Long(_) | Any::Float(_) | Any::Double(_)
        | Any::Bool(_) | Any::Char(_) | Any::Str(_) => true,
        _ => false,
    }
}

/// `f` is the constructor request that encodes `a`.
pub open spec fn encodes(a: Any, f: ForeignValue) -> bool {
    match (a, f) {
        (Any::Short(x), ForeignValue::Short(y)) => x == y,
        (Any::Int(x), ForeignValue::Int(y)) => x == y,
        (Any::Long(x), ForeignValue::Long(y)) => x == y,
        (Any::Float(x), ForeignValue::Float(y)) => x == y,
        (Any::Double(x), ForeignValue::Double(y)) => x == y,
        (Any::Bool(x), ForeignValue::Bool(y)) => y == (if x { 1i32 } else { 0i32 }),
        (Any::Char(x), ForeignValue::Char(y)) => y == byte_of_char(x),
        (Any::Str(s), ForeignValue::Str(b)) => b@ == encode_utf8(s@),
        _ => false,
    }
}

/// The accessor that the runtime offers for a type tag, where one is decoded.
pub open spec fn reader_of_tag(tag: i32) -> Option<Reader> {
    if tag == TAG_BOOL {
        Some(Reader::Bool)
    } else if tag == TAG_CHAR {
        Some(Reader::Char)
    } else if tag == TAG_SHORT {
        Some(Reader::Short)
    } else if tag == TAG_INT {
        Some(Reader::Int)
    } else if tag == TAG_LONG {
        Some(Reader::Long)
    } else if tag == TAG_FLOAT {
        Some(Reader::Float)
    } else if tag == TAG_DOUBLE {
        Some(Reader::Double)
    } else if tag == TAG_STRING {
        Some(Reader::Str)
    } else {
        None
    }
}

/// The tag that the runtime reports for a handle made from `f`.
pub open spec fn tag_of(f: ForeignValue) -> i32 {
    match f {
        ForeignValue::Bool(_) => TAG_BOOL,
        ForeignValue::Char(_) => TAG_CHAR,
        ForeignValue::Short(_) => TAG_SHORT,
        ForeignValue::Int(_) => TAG_INT,
        ForeignValue::Long(_) => TAG_LONG,
        ForeignValue::Float(_) => TAG_FLOAT,
        ForeignValue::Double(_) => TAG_DOUBLE,
        ForeignValue::Str(_) => TAG_STRING,
    }
}

/// `r` is what the matching accessor reads back from a handle made from `f`:
/// the same payload.
pub open spec fn reads_back(f: ForeignValue, r: Reading) -> bool {
    match (f, r) {
        (ForeignValue::Short(x), Reading::Short(y)) => x == y,
        (ForeignValue::Int(x), Reading::Int(y)) => x == y,
        (ForeignValue::Long(x), Reading::Long(y)) => x == y,
        (ForeignValue::Float(x), Reading::Float(y)) => x == y,
        (ForeignValue::Double(x), Reading::Double(y)) => x == y,
        (ForeignValue::Bool(x), Reading::Bool(y)) => x == y,
        (ForeignValue::Char(x), Reading::Char(y)) => x == y,
        (ForeignValue::Str(x), Reading::Str(y)) => x@ == y@,
        _ => false,
    }
}

/// `a` is the value decoded from `r`. Text that is not valid UTF-8 has no
/// conversion and decodes to `Null`.
pub open spec fn decodes(r: Reading, a: Any) -> bool {
    match r {
        Reading::Bool(x) => a == Any::Bool(x != 0),
        Reading::Char(x) => a == Any::Char(Any::char_of_byte(x)),
        Reading::Short(x) => a == Any::Short(x),
        Reading::Int(x) => a == Any::Int(x),
        Reading::Long(x) => a == Any::Long(x),
        Reading::Float(x) => a == Any::Float(x),
        Reading::Double(x) => a == Any::Double(x),
        Reading::Str(b) => if valid_utf8(b@) {
            a matches Any::Str(s) && s@ == decode_utf8(b@)
        } else {
            a is Null
        },
    }
}

/// Encodes one argument as a constructor request; `None` for a variant that
/// has no encoding.
pub fn encode_arg(a: &Any) -> (r: Option<ForeignValue>)
    ensures
        r is Some <==> encodable(*a),
        r matches Some(f) ==> encodes(*a, f),
{
    match a {
        Any::Short(x) => Some(ForeignValue::Short(*x)),
        Any::Int(x) => Some(ForeignValue::Int(*x)),
        Any::Long(x) => Some(ForeignValue::Long(*x)),
        Any::Float(x) => Some(ForeignValue::Float(*x)),
        Any::Double(x) => Some(ForeignValue::Double(*x)),
        Any::Bool(x) => Some(ForeignValue::Bool(if *x { 1 } else { 0 })),
        Any::Char(x) => {
            let code: u32 = *x as u32;
            Some(ForeignValue::Char(((code % 256) as u8) as i8))
        },
        Any::Str(s) => Some(ForeignValue::Str(s.as_str().as_bytes_vec())),
        _ => None,
    }
}

/// The accessor to call on a result handle of type tag `tag`; `None` where
/// the tag is void, names a kind without a conversion, or is unknown.
pub fn reader_for_tag(tag: i32) -> (r: Option<Reader>)
    ensures
        r == reader_of_tag(tag),
{
    if tag == TAG_BOOL {
        Some(Reader::Bool)
    } else if tag == TAG_CHAR {
        Some(Reader::Char)
    } else if tag == TAG_SHORT {
        Some(Reader::Short)
    } else if tag == TAG_INT {
        Some(Reader::Int)
    } else if tag == TAG_LONG {
        Some(Reader::Long)
    } else if tag == TAG_FLOAT {
        Some(Reader::Float)
    } else if tag == TAG_DOUBLE {
        Some(Reader::Double)
    } else if tag == TAG_STRING {
        Some(Reader::Str)
    } else {
        None
    }
}

/// Relies on `String::from_utf8`: it succeeds exactly on valid UTF-8, and
/// the text it returns is those bytes decoded.
#[verifier::external_body]
fn string_from_utf8(bytes: Vec<u8>) -> (r: Option<String>)
    ensures
        r is Some <==> valid_utf8(bytes@),
        r matches Some(s) ==> s@ == decode_utf8(bytes@),
{
    String::from_utf8(bytes).ok()
}

/// Decodes what an accessor read into a value.
pub fn decode(reading: Reading) -> (r: Any)
    ensures
        decodes(reading, r),
{
    match reading {
        Reading::Bool(x) => Any::Bool(x != 0),
        Reading::Char(x) => Any::Char((x as u8) as char),
        Reading::Short(x) => Any::Short(x),
        Reading::Int(x) => Any::Int(x),
        Reading::Long(x) => Any::Long(x),
        Reading::Float(x) => Any::Float(x),
        Reading::Double(x) => Any::Double(x),
        Reading::Str(b) => {
            match string_from_utf8(b) {
                Some(s) => Any::Str(s),
                None => Any::Null,
            }
        },
    }
}

/// The accessor that produced a reading.
pub open spec fn reader_of(r: Reading) -> Reader {
    match r {
        Reading::Bool(_) => Reader::Bool,
        Reading::Char(_) => Reader::Char,
        Reading::Short(_) => Reader::Short,
        Reading::Int(_) => Reader::Int,
        Reading::Long(_) => Reader::Long,
        Reading::Float(_) => Reader::Float,
        Reading::Double(_) => Reader::Double,
        Reading::Str(_) => Reader::Str,
    }
}

/// A value that the conversion from a native primitive can produce: an
/// integer, a float, a boolean, or a character of a one-byte code.
pub open spec fn is_native_primitive(a: Any) -> bool {
    match a {
        Any::Short(_) | Any::Int(_) | Any::Long(_) | Any::Float(_) | Any::Double(_)
        | Any::Bool(_) => true,
        Any::Char(c) => (c as u32) < 256,
        _ => false,
    }
}

/// A native primitive value, encoded, stored by the runtime and read back
/// through the accessor of the tag the runtime reports, decodes to itself
/// and to nothing else.
pub proof fn lemma_primitive_round_trip(a: Any, f: ForeignValue, r: Reading)
    requires
        is_native_primitive(a),
        encodes(a, f),
        reads_back(f, r),
    ensures
        reader_of_tag(tag_of(f)) == Some(reader_of(r)),
        forall|d: Any| decodes(r, d) <==> d == a,
{
    if let Any::Char(c) = a {
        let x = c as u32;
        assert(((x % 256) as u8 as i8) as u8 == x as u8) by (bit_vector)
            requires
                x < 256,
        ;
    }
}

/// Text encoded with its explicit length, stored by the runtime and read
/// back through the accessor of the tag the runtime reports, decodes to the
/// same characters.
pub proof fn lemma_string_round_trip(s: String, f: ForeignValue, r: Reading)
    requires
        encodes(Any::Str(s), f),
        reads_back(f, r),
    ensures
        reader_of_tag(tag_of(f)) == Some(Reader::Str),
        forall|d: Any| decodes(r, d) ==> (d matches Any::Str(t) && t@ == s@),
{
}

} // verus!
