use crate::codec::{arg_views, at_line, encode_at, Arg, ArgV};
use vstd::prelude::*;
use vstd::string::StringSliceAdditionalSpecFns;

verus! {

/// How the modem reports equipment errors.
#[derive(Clone, Copy, Debug, PartialEq, Eq, Structural)]
pub enum CMEErrorReports {
    /// Plain `ERROR`.
    Off,
    /// `+CME ERROR: <n>` with a number.
    Numeric,
    /// `+CME ERROR: <text>`.
    Verbose,
}

impl CMEErrorReports {
    /// The number that stands for the value on the wire.
    pub open spec fn spec_code(self) -> int {
        match self {
            CMEErrorReports::Off => 0,
            CMEErrorReports::Numeric => 1,
            CMEErrorReports::Verbose => 2,
        }
    }

    pub fn code(&self) -> (r: i64)
        ensures
            r == self.spec_code(),
    {
        match self {
            CMEErrorReports::Off => 0,
            CMEErrorReports::Numeric => 1,
            CMEErrorReports::Verbose => 2,
        }
    }

    /// The value that a wire number stands for, if any.
    pub fn from_code(c: i64) -> (r: Option<Self>)
        ensures
            r matches Some(v) ==> v.spec_code() == c,
            r is None ==> forall|v: Self| v.spec_code() != c,
    {
        if c == 0 {
            Some(CMEErrorReports::Off)
        } else if c == 1 {
            Some(CMEErrorReports::Numeric)
        } else if c == 2 {
            Some(CMEErrorReports::Verbose)
        } else {
            None
        }
    }
}

/// Which network registration reports (`+CEREG`) the modem sends.
#[derive(Clone, Copy, Debug, PartialEq, Eq, Structural)]
pub enum CEREGReports {
    Off,
    Enabled,
    EnabledWithLocation,
    EnabledWithLocationEmmCause,
    EnabledUePsmWithLocation,
    EnabledUePsmWithLocationEmmCause,
}

impl CEREGReports {
    /// The number that stands for the value on the wire.
    pub open spec fn spec_code(self) -> int {
        match self {
            CEREGReports::Off => 0,
            CEREGReports::Enabled => 1,
            CEREGReports::EnabledWithLocation => 2,
            CEREGReports::EnabledWithLocationEmmCause => 3,
            CEREGReports::EnabledUePsmWithLocation => 4,
            CEREGReports::EnabledUePsmWithLocationEmmCause => 5,
        }
    }

    pub fn code(&self) -> (r: i64)
        ensures
            r == self.spec_code(),
    {
        match self {
            CEREGReports::Off => 0,
            CEREGReports::Enabled => 1,
            CEREGReports::EnabledWithLocation => 2,
            CEREGReports::EnabledWithLocationEmmCause => 3,
            CEREGReports::EnabledUePsmWithLocation => 4,
            CEREGReports::EnabledUePsmWithLocationEmmCause => 5,
        }
    }

    /// The value that a wire number stands for, if any.
    pub fn from_code(c: i64) -> (r: Option<Self>)
        ensures
            r matches Some(v) ==> v.spec_code() == c,
            r is None ==> forall|v: Self| v.spec_code() != c,
    {
        if c == 0 {
            Some(CEREGReports::Off)
        } else if c == 1 {
            Some(CEREGReports::Enabled)
        } else if c == 2 {
            Some(CEREGReports::EnabledWithLocation)
        } else if c == 3 {
            Some(CEREGReports::EnabledWithLocationEmmCause)
        } else if c == 4 {
            Some(CEREGReports::EnabledUePsmWithLocation)
        } else if c == 5 {
            Some(CEREGReports::EnabledUePsmWithLocationEmmCause)
        } else {
            None
        }
    }
}

/// Sets how equipment errors are reported.
#[derive(Clone, Debug, PartialEq, Eq)]
pub struct ConfigureCMEErrorReports {
    pub typ: CMEErrorReports,
}

impl ConfigureCMEErrorReports {
    /// The command line: `AT+CMEE` and the arguments.
    pub fn encode(&self) -> (r: Vec<u8>)
        ensures
            r@ == at_line(
                "+CMEE".spec_bytes(),
                seq![
                    ArgV::Int(self.typ.spec_code()),
                ],
            ),
    {
        let args: Vec<Arg> = vec![
            Arg::Int(self.typ.code() as i128),
        ];
        let r = encode_at("+CMEE", &args);
        assert(arg_views(args@) =~= seq![
            ArgV::Int(self.typ.spec_code()),
        ]);
        r
    }
}

/// Sets which network registration reports are sent.
#[derive(Clone, Debug, PartialEq, Eq)]
pub struct ConfigureCEREGReports {
    pub typ: CEREGReports,
}

impl ConfigureCEREGReports {
    /// The command line: `AT+CEREG` and the arguments.
    pub fn encode(&self) -> (r: Vec<u8>)
        ensures
            r@ == at_line(
                "+CEREG".spec_bytes(),
                seq![
                    ArgV::Int(self.typ.spec_code()),
                ],
            ),
    {
        let args: Vec<Arg> = vec![
            Arg::Int(self.typ.code() as i128),
        ];
        let r = encode_at("+CEREG", &args);
        assert(arg_views(args@) =~= seq![
            ArgV::Int(self.typ.spec_code()),
        ]);
        r
    }
}

} // verus!
