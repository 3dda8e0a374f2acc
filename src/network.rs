use crate::codec::{arg_views, at_line, decode_num_at, encode_at, fields, num_at, split_fields, to_vec, Arg, ArgV};
use crate::types::CodecError;
use vstd::prelude::*;
use vstd::string::StringSliceAdditionalSpecFns;

verus! {

/// How the network operator is chosen.
#[derive(Clone, Copy, Debug, PartialEq, Eq, Structural)]
pub enum NetworkSelectionMode {
    Automatic,
    Manual,
    Unregister,
    SetFormat,
    ManualAutoFallback,
}

impl NetworkSelectionMode {
    /// The number that stands for the value on the wire.
    pub open spec fn spec_code(self) -> int {
        match self {
            NetworkSelectionMode::Automatic => 0,
            NetworkSelectionMode::Manual => 1,
            NetworkSelectionMode::Unregister => 2,
            NetworkSelectionMode::SetFormat => 3,
            NetworkSelectionMode::ManualAutoFallback => 4,
        }
    }

    pub fn code(&self) -> (r: i64)
        ensures
            r == self.spec_code(),
    {
        match self {
            NetworkSelectionMode::Automatic => 0,
            NetworkSelectionMode::Manual => 1,
            NetworkSelectionMode::Unregister => 2,
            NetworkSelectionMode::SetFormat => 3,
            NetworkSelectionMode::ManualAutoFallback => 4,
        }
    }

    /// The value that a wire number stands for, if any.
    pub fn from_code(c: i64) -> (r: Option<Self>)
        ensures
            r matches Some(v) ==> v.spec_code() == c,
            r is None ==> forall|v: Self| v.spec_code() != c,
    {
        if c == 0 {
            Some(NetworkSelectionMode::Automatic)
        } else if c == 1 {
            Some(NetworkSelectionMode::Manual)
        } else if c == 2 {
            Some(NetworkSelectionMode::Unregister)
        } else if c == 3 {
            Some(NetworkSelectionMode::SetFormat)
        } else if c == 4 {
            Some(NetworkSelectionMode::ManualAutoFallback)
        } else {
            None
        }
    }
}

/// How operator names are written.
#[derive(Clone, Copy, Debug, PartialEq, Eq, Structural)]
pub enum OperatorNameFormat {
    LongAlphanumeric,
    ShortAlphanumeric,
    Numeric,
}

impl OperatorNameFormat {
    /// The number that stands for the value on the wire.
    pub open spec fn spec_code(self) -> int {
        match self {
            OperatorNameFormat::LongAlphanumeric => 0,
            OperatorNameFormat::ShortAlphanumeric => 1,
            OperatorNameFormat::Numeric => 2,
        }
    }

    pub fn code(&self) -> (r: i64)
        ensures
            r == self.spec_code(),
    {
        match self {
            OperatorNameFormat::LongAlphanumeric => 0,
            OperatorNameFormat::ShortAlphanumeric => 1,
            OperatorNameFormat::Numeric => 2,
        }
    }

    /// The value that a wire number stands for, if any.
    pub fn from_code(c: i64) -> (r: Option<Self>)
        ensures
            r matches Some(v) ==> v.spec_code() == c,
            r is None ==> forall|v: Self| v.spec_code() != c,
    {
        if c == 0 {
            Some(OperatorNameFormat::LongAlphanumeric)
        } else if c == 1 {
            Some(OperatorNameFormat::ShortAlphanumeric)
        } else if c == 2 {
            Some(OperatorNameFormat::Numeric)
        } else {
            None
        }
    }
}

/// Where the modem stands in registering with the LTE network.
#[derive(Clone, Copy, Debug, PartialEq, Eq, Structural)]
pub enum NetworkRegistrationState {
    NotSearching,
    RegisteredHome,
    Searching,
    Denied,
    Unknown,
    RegisteredRoaming,
    RegisteredSmsOnlyHome,
    RegisteredSmsOnlyRoaming,
    AttachedEmergencyOnly,
    RegisteredCsfbNotPreferredHome,
    RegisteredCsfbNotPreferredRoaming,
    RegisteredTempConnLoss,
}

impl NetworkRegistrationState {
    /// The number that stands for the value on the wire.
    pub open spec fn spec_code(self) -> int {
        match self {
            NetworkRegistrationState::NotSearching => 0,
            NetworkRegistrationState::RegisteredHome => 1,
            NetworkRegistrationState::Searching => 2,
            NetworkRegistrationState::Denied => 3,
            NetworkRegistrationState::Unknown => 4,
            NetworkRegistrationState::RegisteredRoaming => 5,
            NetworkRegistrationState::RegisteredSmsOnlyHome => 6,
            NetworkRegistrationState::RegisteredSmsOnlyRoaming => 7,
            NetworkRegistrationState::AttachedEmergencyOnly => 8,
            NetworkRegistrationState::RegisteredCsfbNotPreferredHome => 9,
            NetworkRegistrationState::RegisteredCsfbNotPreferredRoaming => 10,
            NetworkRegistrationState::RegisteredTempConnLoss => 80,
        }
    }

    pub fn code(&self) -> (r: i64)
        ensures
            r == self.spec_code(),
    {
        match self {
            NetworkRegistrationState::NotSearching => 0,
            NetworkRegistrationState::RegisteredHome => 1,
            NetworkRegistrationState::Searching => 2,
            NetworkRegistrationState::Denied => 3,
            NetworkRegistrationState::Unknown => 4,
            NetworkRegistrationState::RegisteredRoaming => 5,
            NetworkRegistrationState::RegisteredSmsOnlyHome => 6,
            NetworkRegistrationState::RegisteredSmsOnlyRoaming => 7,
            NetworkRegistrationState::AttachedEmergencyOnly => 8,
            NetworkRegistrationState::RegisteredCsfbNotPreferredHome => 9,
            NetworkRegistrationState::RegisteredCsfbNotPreferredRoaming => 10,
            NetworkRegistrationState::RegisteredTempConnLoss => 80,
        }
    }

    /// The value that a wire number stands for, if any.
    pub fn from_code(c: i64) -> (r: Option<Self>)
        ensures
            r matches Some(v) ==> v.spec_code() == c,
            r is None ==> forall|v: Self| v.spec_code() != c,
    {
        if c == 0 {
            Some(NetworkRegistrationState::NotSearching)
        } else if c == 1 {
            Some(NetworkRegistrationState::RegisteredHome)
        } else if c == 2 {
            Some(NetworkRegistrationState::Searching)
        } else if c == 3 {
            Some(NetworkRegistrationState::Denied)
        } else if c == 4 {
            Some(NetworkRegistrationState::Unknown)
        } else if c == 5 {
            Some(NetworkRegistrationState::RegisteredRoaming)
        } else if c == 6 {
            Some(NetworkRegistrationState::RegisteredSmsOnlyHome)
        } else if c == 7 {
            Some(NetworkRegistrationState::RegisteredSmsOnlyRoaming)
        } else if c == 8 {
            Some(NetworkRegistrationState::AttachedEmergencyOnly)
        } else if c == 9 {
            Some(NetworkRegistrationState::RegisteredCsfbNotPreferredHome)
        } else if c == 10 {
            Some(NetworkRegistrationState::RegisteredCsfbNotPreferredRoaming)
        } else if c == 80 {
            Some(NetworkRegistrationState::RegisteredTempConnLoss)
        } else {
            None
        }
    }
}

/// Selects the network operator.
#[derive(Clone, Debug, PartialEq, Eq)]
pub struct PLMNSelection {
    pub mode: NetworkSelectionMode,
    pub format: Option<OperatorNameFormat>,
    /// At most 16 bytes.
    pub oper: Option<Vec<u8>>,
}

impl PLMNSelection {
    /// The command line: `AT+COPS` and the arguments.
    pub fn encode(&self) -> (r: Vec<u8>)
        ensures
            r@ == at_line(
                "+COPS".spec_bytes(),
                seq![
                    ArgV::Int(self.mode.spec_code()),
                    match self.format {
                        Some(v) => ArgV::Int(v.spec_code()),
                        None => ArgV::Absent,
                    },
                    match self.oper {
                        Some(v) => ArgV::Str(v@),
                        None => ArgV::Absent,
                    },
                ],
            ),
    {
        let args: Vec<Arg> = vec![
            Arg::Int(self.mode.code() as i128),
            match self.format {
                Some(v) => Arg::Int(v.code() as i128),
                None => Arg::Absent,
            },
            match &self.oper {
                Some(v) => Arg::Str(to_vec(v.as_slice())),
                None => Arg::Absent,
            },
        ];
        let r = encode_at("+COPS", &args);
        assert(arg_views(args@) =~= seq![
            ArgV::Int(self.mode.spec_code()),
            match self.format {
                Some(v) => ArgV::Int(v.spec_code()),
                None => ArgV::Absent,
            },
            match self.oper {
                Some(v) => ArgV::Str(v@),
                None => ArgV::Absent,
            },
        ]);
        r
    }
}

/// Network registration report (`+CEREG`).
#[derive(Clone, Copy, Debug, PartialEq, Eq, Structural)]
pub struct NetworkRegistrationStatus {
    pub stat: NetworkRegistrationState,
}

impl NetworkRegistrationStatus {
    /// Reads the payload of a registration report: the state's number first.
    pub fn decode(payload: &[u8]) -> (r: Result<NetworkRegistrationStatus, CodecError>)
        ensures
            r matches Ok(s) ==> num_at(fields(payload@), 0, 0, 255) == Some(s.stat.spec_code()),
            r is Ok <==> (num_at(fields(payload@), 0, 0, 255) matches Some(c) && exists|v: NetworkRegistrationState|
                v.spec_code() == c),
    {
        let fs = split_fields(payload);
        let c = decode_num_at(&fs, 0, 0, 255)?;
        match NetworkRegistrationState::from_code(c) {
            Some(stat) => Ok(NetworkRegistrationStatus { stat }),
            None => Err(CodecError::UnknownEnum(0)),
        }
    }
}

} // verus!
