use vstd::prelude::*;

verus! {

/// Every value kind that can cross the boundary to the runtime.
///
/// Floating-point payloads are held as their IEEE-754 bit patterns, so that
/// a value is carried bit for bit and compared exactly.
#[derive(Debug, PartialEq)]
pub enum Any {
    Null,
    Short(i16),
    Int(i32),
    Long(i64),
    /// Single precision, as `f32::to_bits`.
    Float(u32),
    /// Double precision, as `f64::to_bits`.
    Double(u64),
    Bool(bool),
    Char(char),
    Str(String),
    Array(Vec<Any>),
    Buffer(Vec<u8>),
    Pointer(Box<Any>),
    /// A native callable, identified by its address.
    Function(usize),
}

/// What went wrong in a runtime operation.
#[derive(Debug, Clone, Copy, PartialEq, Eq, Structural)]
pub enum ErrorKind {
    /// Starting the runtime reported a non-zero status.
    InitializationFailed,
    /// Loading source files reported a non-zero status.
    LoadFailed,
    /// No callable of the requested name could be resolved.
    FunctionNotFound,
    /// An argument's variant has no encoding for the runtime.
    UnsupportedArgumentType,
}

/// An error of a runtime operation.
#[derive(Debug, Clone, Copy, PartialEq, Eq, Structural)]
pub struct Error(pub ErrorKind);

impl Error {
    pub open spec fn message_of(kind: ErrorKind) -> &'static str {
        match kind {
            ErrorKind::InitializationFailed => "failed to initialize the runtime",
            ErrorKind::LoadFailed => "failed to load script",
            ErrorKind::FunctionNotFound => "function not found",
            ErrorKind::UnsupportedArgumentType => "unsupported argument type",
        }
    }

    /// A short human-readable description.
    pub fn message(&self) -> (r: &'static str)
        ensures
            r@ == Error::message_of(self.0)@,
    {
        match self.0 {
            ErrorKind::InitializationFailed => "failed to initialize the runtime",
            ErrorKind::LoadFailed => "failed to load script",
            ErrorKind::FunctionNotFound => "function not found",
            ErrorKind::UnsupportedArgumentType => "unsupported argument type",
        }
    }
}

impl Any {
    /// The payload of a one-byte foreign character, read as unsigned, as a character.
    pub open spec fn char_of_byte(b: i8) -> char {
        (b as u8) as char
    }
}

/// Holds a 16-bit signed integer.
impl From<i16> for Any {
    fn from(val: i16) -> (r: Any)
        ensures
            r == Any::Short(val),
    {
        Any::Short(val)
    }
}

impl vstd::std_specs::convert::FromSpecImpl<i16> for Any {
    open spec fn obeys_from_spec() -> bool {
        true
    }

    open spec fn from_spec(v: i16) -> Any {
        Any::Short(v)
    }
}

impl From<i32> for Any {
    fn from(val: i32) -> (r: Any)
        ensures
            r == Any::Int(val),
    {
        Any::Int(val)
    }
}

impl vstd::std_specs::convert::FromSpecImpl<i32> for Any {
    open spec fn obeys_from_spec() -> bool {
        true
    }

    open spec fn from_spec(v: i32) -> Any {
        Any::Int(v)
    }
}

impl From<i64> for Any {
    fn from(val: i64) -> (r: Any)
        ensures
            r == Any::Long(val),
    {
        Any::Long(val)
    }
}

impl vstd::std_specs::convert::FromSpecImpl<i64> for Any {
    open spec fn obeys_from_spec() -> bool {
        true
    }

    open spec fn from_spec(v: i64) -> Any {
        Any::Long(v)
    }
}

impl From<bool> for Any {
    fn from(val: bool) -> (r: Any)
        ensures
            r == Any::Bool(val),
    {
        Any::Bool(val)
    }
}

impl vstd::std_specs::convert::FromSpecImpl<bool> for Any {
    open spec fn obeys_from_spec() -> bool {
        true
    }

    open spec fn from_spec(v: bool) -> Any {
        Any::Bool(v)
    }
}

/// A one-byte foreign character is read as an unsigned byte before it is
/// widened, so a byte with its high bit set becomes a character of 128..=255.
impl From<i8> for Any {
    fn from(val: i8) -> (r: Any)
        ensures
            r == Any::Char(Any::char_of_byte(val)),
    {
        Any::Char((val as u8) as char)
    }
}

impl vstd::std_specs::convert::FromSpecImpl<i8> for Any {
    open spec fn obeys_from_spec() -> bool {
        true
    }

    open spec fn from_spec(v: i8) -> Any {
        Any::Char(Any::char_of_byte(v))
    }
}

} // verus!
