use crate::codec::{arg_views, at_line, decode_num_at, encode_at, fields, num_at, split_fields, Arg, ArgV};
use crate::types::CodecError;
use vstd::prelude::*;
use vstd::string::StringSliceAdditionalSpecFns;

verus! {

/// The modem's level of functionality.
#[derive(Clone, Copy, Debug, PartialEq, Eq, Structural)]
pub enum FunctionalMode {
    /// Radio off.
    Minimum,
    /// Radio on.
    Full,
    /// Radio off, SIM kept.
    AirplaneMode,
}

impl FunctionalMode {
    /// The number that stands for the value on the wire.
    pub open spec fn spec_code(self) -> int {
        match self {
            FunctionalMode::Minimum => 0,
            FunctionalMode::Full => 1,
            FunctionalMode::AirplaneMode => 4,
        }
    }

    pub fn code(&self) -> (r: i64)
        ensures
            r == self.spec_code(),
    {
        match self {
            FunctionalMode::Minimum => 0,
            FunctionalMode::Full => 1,
            FunctionalMode::AirplaneMode => 4,
        }
    }

    /// The value that a wire number stands for, if any.
    pub fn from_code(c: i64) -> (r: Option<Self>)
        ensures
            r matches Some(v) ==> v.spec_code() == c,
            r is None ==> forall|v: Self| v.spec_code() != c,
    {
        if c == 0 {
            Some(FunctionalMode::Minimum)
        } else if c == 1 {
            Some(FunctionalMode::Full)
        } else if c == 4 {
            Some(FunctionalMode::AirplaneMode)
        } else {
            None
        }
    }
}

/// Whether the modem restarts when the functionality changes.
#[derive(Clone, Copy, Debug, PartialEq, Eq, Structural)]
pub enum ResetFlag {
    Off,
    On,
}

impl ResetFlag {
    /// The number that stands for the value on the wire.
    pub open spec fn spec_code(self) -> int {
        match self {
            ResetFlag::Off => 0,
            ResetFlag::On => 1,
        }
    }

    pub fn code(&self) -> (r: i64)
        ensures
            r == self.spec_code(),
    {
        match self {
            ResetFlag::Off => 0,
            ResetFlag::On => 1,
        }
    }

    /// The value that a wire number stands for, if any.
    pub fn from_code(c: i64) -> (r: Option<Self>)
        ensures
            r matches Some(v) ==> v.spec_code() == c,
            r is None ==> forall|v: Self| v.spec_code() != c,
    {
        if c == 0 {
            Some(ResetFlag::Off)
        } else if c == 1 {
            Some(ResetFlag::On)
        } else {
            None
        }
    }
}

/// Sets the level of functionality.
#[derive(Clone, Debug, PartialEq, Eq)]
pub struct SetFunctionality {
    pub fun: FunctionalMode,
    pub rst: Option<ResetFlag>,
}

impl SetFunctionality {
    /// The command line: `AT+CFUN` and the arguments.
    pub fn encode(&self) -> (r: Vec<u8>)
        ensures
            r@ == at_line(
                "+CFUN".spec_bytes(),
                seq![
                    ArgV::Int(self.fun.spec_code()),
                    match self.rst {
                        Some(v) => ArgV::Int(v.spec_code()),
                        None => ArgV::Absent,
                    },
                ],
            ),
    {
        let args: Vec<Arg> = vec![
            Arg::Int(self.fun.code() as i128),
            match self.rst {
                Some(v) => Arg::Int(v.code() as i128),
                None => Arg::Absent,
            },
        ];
        let r = encode_at("+CFUN", &args);
        assert(arg_views(args@) =~= seq![
            ArgV::Int(self.fun.spec_code()),
            match self.rst {
                Some(v) => ArgV::Int(v.spec_code()),
                None => ArgV::Absent,
            },
        ]);
        r
    }
}

/// Asks for the received signal strength and bit error rate.
#[derive(Clone, Debug, PartialEq, Eq)]
pub struct GetSignalQuality;

impl GetSignalQuality {
    /// The command line: `AT+CSQ` and the arguments.
    pub fn encode(&self) -> (r: Vec<u8>)
        ensures
            r@ == at_line("+CSQ".spec_bytes(), Seq::empty()),
    {
        let args: Vec<Arg> = Vec::new();
        let r = encode_at("+CSQ", &args);
        assert(arg_views(args@) =~= Seq::<ArgV>::empty());
        r
    }
}

/// Received signal strength and channel bit error rate.
#[derive(Clone, Copy, Debug, PartialEq, Eq)]
pub struct SignalQuality {
    pub rssi: i32,
    pub ber: u8,
}

impl SignalQuality {
    /// Reads the payload of a `+CSQ` response: signal strength, bit error rate.
    pub fn decode(payload: &[u8]) -> (r: Result<SignalQuality, CodecError>)
        ensures
            r is Ok <==> num_at(fields(payload@), 0, i32::MIN as int, i32::MAX as int) is Some
                && num_at(fields(payload@), 1, 0, 255) is Some,
            r matches Ok(q) ==> num_at(fields(payload@), 0, i32::MIN as int, i32::MAX as int) == Some(
                q.rssi as int,
            ) && num_at(fields(payload@), 1, 0, 255) == Some(q.ber as int),
    {
        let fs = split_fields(payload);
        let rssi = decode_num_at(&fs, 0, -2147483648, 2147483647)?;
        let ber = decode_num_at(&fs, 1, 0, 255)?;
        Ok(SignalQuality { rssi: rssi as i32, ber: ber as u8 })
    }
}

} // verus!
