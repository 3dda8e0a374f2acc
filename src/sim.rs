use crate::codec::{arg_views, at_line, encode_at, to_vec, Arg, ArgV};
use vstd::prelude::*;
use vstd::string::StringSliceAdditionalSpecFns;

verus! {

/// What the SIM waits for.
#[derive(Clone, Copy, Debug, PartialEq, Eq, Structural)]
pub enum SIMState {
    Ready,
    PinRequired,
    PukRequired,
    PhoneToSimPinRequired,
    PhoneToFirstSimPinRequired,
    PhoneToFirstSimPukRequired,
    Pin2Required,
    Puk2Required,
    NetworkPinRequired,
    NetworkPukRequired,
    NetworkSubsetPinRequired,
    NetworkSubsetPukRequired,
    ServiceProviderPinRequired,
    ServiceProviderPukRequired,
    CorporateSimRequired,
    CorporatePukRequired,
}

impl SIMState {
    /// The number that stands for the value on the wire.
    pub open spec fn spec_code(self) -> int {
        match self {
            SIMState::Ready => 1,
            SIMState::PinRequired => 2,
            SIMState::PukRequired => 3,
            SIMState::PhoneToSimPinRequired => 4,
            SIMState::PhoneToFirstSimPinRequired => 5,
            SIMState::PhoneToFirstSimPukRequired => 6,
            SIMState::Pin2Required => 7,
            SIMState::Puk2Required => 8,
            SIMState::NetworkPinRequired => 9,
            SIMState::NetworkPukRequired => 10,
            SIMState::NetworkSubsetPinRequired => 11,
            SIMState::NetworkSubsetPukRequired => 12,
            SIMState::ServiceProviderPinRequired => 13,
            SIMState::ServiceProviderPukRequired => 14,
            SIMState::CorporateSimRequired => 15,
            SIMState::CorporatePukRequired => 16,
        }
    }

    pub fn code(&self) -> (r: i64)
        ensures
            r == self.spec_code(),
    {
        match self {
            SIMState::Ready => 1,
            SIMState::PinRequired => 2,
            SIMState::PukRequired => 3,
            SIMState::PhoneToSimPinRequired => 4,
            SIMState::PhoneToFirstSimPinRequired => 5,
            SIMState::PhoneToFirstSimPukRequired => 6,
            SIMState::Pin2Required => 7,
            SIMState::Puk2Required => 8,
            SIMState::NetworkPinRequired => 9,
            SIMState::NetworkPukRequired => 10,
            SIMState::NetworkSubsetPinRequired => 11,
            SIMState::NetworkSubsetPukRequired => 12,
            SIMState::ServiceProviderPinRequired => 13,
            SIMState::ServiceProviderPukRequired => 14,
            SIMState::CorporateSimRequired => 15,
            SIMState::CorporatePukRequired => 16,
        }
    }

    /// The value that a wire number stands for, if any.
    pub fn from_code(c: i64) -> (r: Option<Self>)
        ensures
            r matches Some(v) ==> v.spec_code() == c,
            r is None ==> forall|v: Self| v.spec_code() != c,
    {
        if c == 1 {
            Some(SIMState::Ready)
        } else if c == 2 {
            Some(SIMState::PinRequired)
        } else if c == 3 {
            Some(SIMState::PukRequired)
        } else if c == 4 {
            Some(SIMState::PhoneToSimPinRequired)
        } else if c == 5 {
            Some(SIMState::PhoneToFirstSimPinRequired)
        } else if c == 6 {
            Some(SIMState::PhoneToFirstSimPukRequired)
        } else if c == 7 {
            Some(SIMState::Pin2Required)
        } else if c == 8 {
            Some(SIMState::Puk2Required)
        } else if c == 9 {
            Some(SIMState::NetworkPinRequired)
        } else if c == 10 {
            Some(SIMState::NetworkPukRequired)
        } else if c == 11 {
            Some(SIMState::NetworkSubsetPinRequired)
        } else if c == 12 {
            Some(SIMState::NetworkSubsetPukRequired)
        } else if c == 13 {
            Some(SIMState::ServiceProviderPinRequired)
        } else if c == 14 {
            Some(SIMState::ServiceProviderPukRequired)
        } else if c == 15 {
            Some(SIMState::CorporateSimRequired)
        } else if c == 16 {
            Some(SIMState::CorporatePukRequired)
        } else {
            None
        }
    }
}

/// Enters the SIM PIN, or replaces it with `new_pin`.
#[derive(Clone, Debug, PartialEq, Eq)]
pub struct EnterPin {
    /// At most 6 bytes.
    pub pin: Vec<u8>,
    /// At most 6 bytes.
    pub new_pin: Option<Vec<u8>>,
}

impl EnterPin {
    /// The command line: `AT+CPIN` and the arguments.
    pub fn encode(&self) -> (r: Vec<u8>)
        ensures
            r@ == at_line(
                "+CPIN".spec_bytes(),
                seq![
                    ArgV::Str(self.pin@),
                    match self.new_pin {
                        Some(v) => ArgV::Str(v@),
                        None => ArgV::Absent,
                    },
                ],
            ),
    {
        let args: Vec<Arg> = vec![
            Arg::Str(to_vec(self.pin.as_slice())),
            match &self.new_pin {
                Some(v) => Arg::Str(to_vec(v.as_slice())),
                None => Arg::Absent,
            },
        ];
        let r = encode_at("+CPIN", &args);
        assert(arg_views(args@) =~= seq![
            ArgV::Str(self.pin@),
            match self.new_pin {
                Some(v) => ArgV::Str(v@),
                None => ArgV::Absent,
            },
        ]);
        r
    }
}

} // verus!
