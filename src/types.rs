use crate::codec::{arg_views, at_line, encode_at, int_field, Arg, ArgV};
use vstd::prelude::*;
use vstd::string::StringSliceAdditionalSpecFns;

verus! {

/// Why a record could not be decoded; positions count fields from 0.
#[derive(Clone, Copy, Debug, PartialEq, Eq, Structural)]
pub enum CodecError {
    /// The record does not begin with the expected prefix.
    PrefixMismatch,
    /// The record ends before this field.
    MissingField(usize),
    /// This field does not hold a value of its type.
    InvalidField(usize),
    /// This field is longer than its type allows.
    TooLong(usize),
    /// This field holds a number or literal that names no variant.
    UnknownEnum(usize),
}

/// The modem's boolean: the wire carries the digit `0` or `1`.
#[derive(Clone, Copy, Debug, PartialEq, Eq, Structural)]
pub enum Bool {
    False,
    True,
}

/// The bytes that a modem boolean is written as.
pub open spec fn bool_bytes(b: Bool) -> Seq<u8> {
    match b {
        Bool::False => seq![48u8],
        Bool::True => seq![49u8],
    }
}

impl Bool {
    pub fn as_bool(&self) -> (r: bool)
        ensures
            r == (*self == Bool::True),
    {
        match self {
            Bool::True => true,
            Bool::False => false,
        }
    }

    /// The argument this value is written as: the digit `1` or `0`.
    pub fn to_arg(&self) -> (r: Arg)
        ensures
            r@ == (crate::codec::ArgV::Int(if *self == Bool::True { 1 } else { 0 })),
    {
        match self {
            Bool::True => Arg::Int(1),
            Bool::False => Arg::Int(0),
        }
    }

    /// Reads field `pos`: `1` is true, `0` is false, anything else is refused.
    pub fn decode(f: &[u8], pos: usize) -> (r: Result<Bool, CodecError>)
        ensures
            r == (if f@ == bool_bytes(Bool::True) {
                Ok::<Bool, CodecError>(Bool::True)
            } else if f@ == bool_bytes(Bool::False) {
                Ok(Bool::False)
            } else {
                Err(CodecError::InvalidField(pos))
            }),
    {
        if f.len() == 1 && f[0] == 49 {
            assert(f@ =~= bool_bytes(Bool::True));
            Ok(Bool::True)
        } else if f.len() == 1 && f[0] == 48 {
            assert(f@ =~= bool_bytes(Bool::False));
            Ok(Bool::False)
        } else {
            Err(CodecError::InvalidField(pos))
        }
    }
}

impl From<bool> for Bool {
    fn from(b: bool) -> (r: Bool) {
        if b {
            Bool::True
        } else {
            Bool::False
        }
    }
}

impl vstd::std_specs::convert::FromSpecImpl<bool> for Bool {
    open spec fn obeys_from_spec() -> bool {
        true
    }

    open spec fn from_spec(b: bool) -> Bool {
        if b {
            Bool::True
        } else {
            Bool::False
        }
    }
}

impl From<Bool> for bool {
    fn from(b: Bool) -> (r: bool) {
        b == Bool::True
    }
}

impl vstd::std_specs::convert::FromSpecImpl<Bool> for bool {
    open spec fn obeys_from_spec() -> bool {
        true
    }

    open spec fn from_spec(b: Bool) -> bool {
        b == Bool::True
    }
}

/// A value that may be absent; an absent one keeps its position on the wire
/// as an empty field.
#[derive(Clone, Copy, Debug, PartialEq, Eq)]
pub enum Nullable<T> {
    /// No value.
    Empty,
    /// Some value of type `T`.
    Value(T),
}

impl<T> Nullable<T> {
    pub open spec fn spec_option(self) -> Option<T> {
        match self {
            Nullable::Value(v) => Some(v),
            Nullable::Empty => None,
        }
    }

    pub fn from_option(opt: Option<T>) -> (r: Self)
        ensures
            r.spec_option() == opt,
    {
        match opt {
            Some(v) => Nullable::Value(v),
            None => Nullable::Empty,
        }
    }

    pub fn into_option(self) -> (r: Option<T>)
        ensures
            r == self.spec_option(),
    {
        match self {
            Nullable::Value(v) => Some(v),
            Nullable::Empty => None,
        }
    }

    pub fn as_option(&self) -> (r: Option<&T>)
        ensures
            r matches Some(v) ==> self.spec_option() == Some(*v),
            r is None ==> self.spec_option() is None,
    {
        match self {
            Nullable::Value(v) => Some(v),
            Nullable::Empty => None,
        }
    }

    pub fn as_option_mut(&mut self) -> (r: Option<&mut T>)
        ensures
            r matches Some(v) ==> old(self).spec_option() == Some(*v) && *final(self) == Nullable::Value(
                *final(v),
            ),
            r is None ==> old(self).spec_option() is None && *final(self) == *old(self),
    {
        match self {
            Nullable::Value(v) => Some(v),
            Nullable::Empty => None,
        }
    }
}

impl<T> From<Option<T>> for Nullable<T> {
    fn from(opt: Option<T>) -> (r: Nullable<T>) {
        Nullable::from_option(opt)
    }
}

impl<T> vstd::std_specs::convert::FromSpecImpl<Option<T>> for Nullable<T> {
    open spec fn obeys_from_spec() -> bool {
        true
    }

    open spec fn from_spec(opt: Option<T>) -> Nullable<T> {
        match opt {
            Some(v) => Nullable::Value(v),
            None => Nullable::Empty,
        }
    }
}

impl<T> From<Nullable<T>> for Option<T> {
    fn from(n: Nullable<T>) -> (r: Option<T>) {
        n.into_option()
    }
}

impl<T> vstd::std_specs::convert::FromSpecImpl<Nullable<T>> for Option<T> {
    open spec fn obeys_from_spec() -> bool {
        true
    }

    open spec fn from_spec(n: Nullable<T>) -> Option<T> {
        n.spec_option()
    }
}

impl Nullable<Arg> {
    /// The argument a nullable argument is written as: the argument itself,
    /// or an empty field that keeps its position.
    pub fn into_arg(self) -> (r: Arg)
        ensures
            r@ == (match self {
                Nullable::Value(a) => a@,
                Nullable::Empty => crate::codec::ArgV::Empty,
            }),
    {
        match self {
            Nullable::Value(a) => a,
            Nullable::Empty => Arg::Empty,
        }
    }
}

impl Nullable<Vec<u8>> {
    /// Reads a field as a quoted string, and as no value where it holds none.
    pub fn decode(f: &[u8]) -> (r: Nullable<Vec<u8>>)
        ensures
            f@.len() == 0 ==> r is Empty,
            crate::codec::unquote(f@) matches Some(v) ==> (r matches Nullable::Value(w) && w@ == v),
            crate::codec::unquote(f@) is None ==> r is Empty,
    {
        match crate::codec::decode_str(f) {
            Some(v) => Nullable::Value(v),
            None => Nullable::Empty,
        }
    }
}

impl Nullable<i64> {
    /// The argument this value is written as: the number, or an empty field.
    pub fn to_arg(&self) -> (r: Arg)
        ensures
            r@ == (match *self {
                Nullable::Value(n) => crate::codec::ArgV::Int(n as int),
                Nullable::Empty => crate::codec::ArgV::Empty,
            }),
    {
        match self {
            Nullable::Value(n) => Arg::Int(*n as i128),
            Nullable::Empty => Arg::Empty,
        }
    }

    /// Reads a field as a number, and as no value where it holds none.
    pub fn decode(f: &[u8]) -> (r: Nullable<i64>)
        ensures
            f@.len() == 0 ==> r == Nullable::<i64>::Empty,
            int_field(f@) matches Some(v) ==> r == Nullable::Value(v as i64),
            int_field(f@) is None ==> r == Nullable::<i64>::Empty,
    {
        match crate::codec::decode_int(f) {
            Some(v) => Nullable::Value(v),
            None => Nullable::Empty,
        }
    }
}

/// A reserved position: written empty, read whatever it holds.
#[derive(Clone, Copy, Debug, PartialEq, Eq, Structural)]
pub struct Reserved;

impl Reserved {
    /// The argument this slot is written as: an empty field.
    pub fn to_arg(&self) -> (r: Arg)
        ensures
            r@ == crate::codec::ArgV::Empty,
    {
        Arg::Empty
    }

    /// Reads a reserved field; its content is ignored.
    pub fn decode(f: &[u8]) -> (r: Reserved) {
        Reserved
    }
}

/// A response with nothing to decode: the modem answers `OK` alone.
#[derive(Clone, Copy, Debug, PartialEq, Eq, Structural)]
pub struct NoResponse;

/// The bare `AT` command: the modem answers `OK` when it is alive.
#[derive(Clone, Copy, Debug, PartialEq, Eq, Structural)]
pub struct AT;

impl AT {
    /// The command line `AT\r\n`.
    pub fn encode(&self) -> (r: Vec<u8>)
        ensures
            r@ == at_line("".spec_bytes(), Seq::empty()),
    {
        let args: Vec<Arg> = Vec::new();
        let r = encode_at("", &args);
        assert(arg_views(args@) =~= Seq::<ArgV>::empty());
        r
    }
}

} // verus!
