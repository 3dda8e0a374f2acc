use crate::codec::{arg_views, at_line, bytes_eq, encode_at, quote_bytes, quoted, to_vec, Arg, ArgV};
use crate::types::Bool;
use vstd::prelude::*;
use vstd::string::StringSliceAdditionalSpecFns;

verus! {

/// PDP header compression.
#[derive(Clone, Copy, Debug, PartialEq, Eq, Structural)]
pub enum PDPHComp {
    Off,
    On,
    RFC1144,
    RFC2507,
    RFC3095,
    Unspec,
}

impl PDPHComp {
    /// The number that stands for the value on the wire.
    pub open spec fn spec_code(self) -> int {
        match self {
            PDPHComp::Off => 0,
            PDPHComp::On => 1,
            PDPHComp::RFC1144 => 2,
            PDPHComp::RFC2507 => 3,
            PDPHComp::RFC3095 => 4,
            PDPHComp::Unspec => 99,
        }
    }

    pub fn code(&self) -> (r: i64)
        ensures
            r == self.spec_code(),
    {
        match self {
            PDPHComp::Off => 0,
            PDPHComp::On => 1,
            PDPHComp::RFC1144 => 2,
            PDPHComp::RFC2507 => 3,
            PDPHComp::RFC3095 => 4,
            PDPHComp::Unspec => 99,
        }
    }

    /// The value that a wire number stands for, if any.
    pub fn from_code(c: i64) -> (r: Option<Self>)
        ensures
            r matches Some(v) ==> v.spec_code() == c,
            r is None ==> forall|v: Self| v.spec_code() != c,
    {
        if c == 0 {
            Some(PDPHComp::Off)
        } else if c == 1 {
            Some(PDPHComp::On)
        } else if c == 2 {
            Some(PDPHComp::RFC1144)
        } else if c == 3 {
            Some(PDPHComp::RFC2507)
        } else if c == 4 {
            Some(PDPHComp::RFC3095)
        } else if c == 99 {
            Some(PDPHComp::Unspec)
        } else {
            None
        }
    }
}

/// PDP data compression.
#[derive(Clone, Copy, Debug, PartialEq, Eq, Structural)]
pub enum PDPDComp {
    Off,
    On,
    V42BIS,
    V44,
    Unspec,
}

impl PDPDComp {
    /// The number that stands for the value on the wire.
    pub open spec fn spec_code(self) -> int {
        match self {
            PDPDComp::Off => 0,
            PDPDComp::On => 1,
            PDPDComp::V42BIS => 2,
            PDPDComp::V44 => 3,
            PDPDComp::Unspec => 99,
        }
    }

    pub fn code(&self) -> (r: i64)
        ensures
            r == self.spec_code(),
    {
        match self {
            PDPDComp::Off => 0,
            PDPDComp::On => 1,
            PDPDComp::V42BIS => 2,
            PDPDComp::V44 => 3,
            PDPDComp::Unspec => 99,
        }
    }

    /// The value that a wire number stands for, if any.
    pub fn from_code(c: i64) -> (r: Option<Self>)
        ensures
            r matches Some(v) ==> v.spec_code() == c,
            r is None ==> forall|v: Self| v.spec_code() != c,
    {
        if c == 0 {
            Some(PDPDComp::Off)
        } else if c == 1 {
            Some(PDPDComp::On)
        } else if c == 2 {
            Some(PDPDComp::V42BIS)
        } else if c == 3 {
            Some(PDPDComp::V44)
        } else if c == 99 {
            Some(PDPDComp::Unspec)
        } else {
            None
        }
    }
}

/// How the IPv4 address is allocated.
#[derive(Clone, Copy, Debug, PartialEq, Eq, Structural)]
pub enum PDPIPv4Alloc {
    NAS,
    DHCP,
}

impl PDPIPv4Alloc {
    /// The number that stands for the value on the wire.
    pub open spec fn spec_code(self) -> int {
        match self {
            PDPIPv4Alloc::NAS => 0,
            PDPIPv4Alloc::DHCP => 1,
        }
    }

    pub fn code(&self) -> (r: i64)
        ensures
            r == self.spec_code(),
    {
        match self {
            PDPIPv4Alloc::NAS => 0,
            PDPIPv4Alloc::DHCP => 1,
        }
    }

    /// The value that a wire number stands for, if any.
    pub fn from_code(c: i64) -> (r: Option<Self>)
        ensures
            r matches Some(v) ==> v.spec_code() == c,
            r is None ==> forall|v: Self| v.spec_code() != c,
    {
        if c == 0 {
            Some(PDPIPv4Alloc::NAS)
        } else if c == 1 {
            Some(PDPIPv4Alloc::DHCP)
        } else {
            None
        }
    }
}

/// Kind of PDP context request.
#[derive(Clone, Copy, Debug, PartialEq, Eq, Structural)]
pub enum PDPRequestType {
    NewOrHandover,
    Emergency,
    New,
    Handover,
    EmergencyHandover,
}

impl PDPRequestType {
    /// The number that stands for the value on the wire.
    pub open spec fn spec_code(self) -> int {
        match self {
            PDPRequestType::NewOrHandover => 0,
            PDPRequestType::Emergency => 1,
            PDPRequestType::New => 2,
            PDPRequestType::Handover => 3,
            PDPRequestType::EmergencyHandover => 4,
        }
    }

    pub fn code(&self) -> (r: i64)
        ensures
            r == self.spec_code(),
    {
        match self {
            PDPRequestType::NewOrHandover => 0,
            PDPRequestType::Emergency => 1,
            PDPRequestType::New => 2,
            PDPRequestType::Handover => 3,
            PDPRequestType::EmergencyHandover => 4,
        }
    }

    /// The value that a wire number stands for, if any.
    pub fn from_code(c: i64) -> (r: Option<Self>)
        ensures
            r matches Some(v) ==> v.spec_code() == c,
            r is None ==> forall|v: Self| v.spec_code() != c,
    {
        if c == 0 {
            Some(PDPRequestType::NewOrHandover)
        } else if c == 1 {
            Some(PDPRequestType::Emergency)
        } else if c == 2 {
            Some(PDPRequestType::New)
        } else if c == 3 {
            Some(PDPRequestType::Handover)
        } else if c == 4 {
            Some(PDPRequestType::EmergencyHandover)
        } else {
            None
        }
    }
}

/// How the P-CSCF address is discovered.
#[derive(Clone, Copy, Debug, PartialEq, Eq, Structural)]
pub enum PDPPCSCF {
    Auto,
    NAS,
}

impl PDPPCSCF {
    /// The number that stands for the value on the wire.
    pub open spec fn spec_code(self) -> int {
        match self {
            PDPPCSCF::Auto => 0,
            PDPPCSCF::NAS => 1,
        }
    }

    pub fn code(&self) -> (r: i64)
        ensures
            r == self.spec_code(),
    {
        match self {
            PDPPCSCF::Auto => 0,
            PDPPCSCF::NAS => 1,
        }
    }

    /// The value that a wire number stands for, if any.
    pub fn from_code(c: i64) -> (r: Option<Self>)
        ensures
            r matches Some(v) ==> v.spec_code() == c,
            r is None ==> forall|v: Self| v.spec_code() != c,
    {
        if c == 0 {
            Some(PDPPCSCF::Auto)
        } else if c == 1 {
            Some(PDPPCSCF::NAS)
        } else {
            None
        }
    }
}

/// Packet data protocol type.
#[derive(Clone, Copy, Debug, PartialEq, Eq, Structural)]
pub enum PDPType {
    IP,
    IPv4V6,
    IPv6,
    NonIP,
    OSPIH,
    PPP,
    X25,
}

impl PDPType {
    /// The literal that stands for the value on the wire, without its quotes.
    pub open spec fn spec_literal(self) -> Seq<u8> {
        match self {
            PDPType::IP => "IP".spec_bytes(),
            PDPType::IPv4V6 => "IPV4V6".spec_bytes(),
            PDPType::IPv6 => "IPV6".spec_bytes(),
            PDPType::NonIP => "Non-IP".spec_bytes(),
            PDPType::OSPIH => "OSPIH".spec_bytes(),
            PDPType::PPP => "PPP".spec_bytes(),
            PDPType::X25 => "X.25".spec_bytes(),
        }
    }

    pub fn literal(&self) -> (r: &'static str)
        ensures
            r.spec_bytes() == self.spec_literal(),
    {
        match self {
            PDPType::IP => "IP",
            PDPType::IPv4V6 => "IPV4V6",
            PDPType::IPv6 => "IPV6",
            PDPType::NonIP => "Non-IP",
            PDPType::OSPIH => "OSPIH",
            PDPType::PPP => "PPP",
            PDPType::X25 => "X.25",
        }
    }

    /// The argument this value is written as: its literal between double quotes.
    pub fn to_arg(&self) -> (r: Arg)
        ensures
            r@ == ArgV::Raw(quoted(self.spec_literal())),
    {
        Arg::Raw(quote_bytes(self.literal().as_bytes()))
    }

    /// The value that a literal stands for, if any.
    pub fn from_literal(f: &[u8]) -> (r: Option<Self>)
        ensures
            r matches Some(v) ==> v.spec_literal() == f@,
            r is None ==> forall|v: Self| v.spec_literal() != f@,
    {
        if bytes_eq(f, "IP".as_bytes()) {
            Some(PDPType::IP)
        } else if bytes_eq(f, "IPV4V6".as_bytes()) {
            Some(PDPType::IPv4V6)
        } else if bytes_eq(f, "IPV6".as_bytes()) {
            Some(PDPType::IPv6)
        } else if bytes_eq(f, "Non-IP".as_bytes()) {
            Some(PDPType::NonIP)
        } else if bytes_eq(f, "OSPIH".as_bytes()) {
            Some(PDPType::OSPIH)
        } else if bytes_eq(f, "PPP".as_bytes()) {
            Some(PDPType::PPP)
        } else if bytes_eq(f, "X.25".as_bytes()) {
            Some(PDPType::X25)
        } else {
            None
        }
    }
}

/// Defines a PDP context.
#[derive(Clone, Debug, PartialEq, Eq)]
pub struct DefinePDPContext {
    pub cid: u8,
    pub pdp_type: PDPType,
    /// At most 64 bytes.
    pub apn: Vec<u8>,
    /// At most 64 bytes.
    pub pdp_addr: Vec<u8>,
    pub d_comp: PDPDComp,
    pub h_comp: PDPHComp,
    pub ipv4_alloc: PDPIPv4Alloc,
    pub request_type: PDPRequestType,
    pub pdp_pcscf_discovery_method: PDPPCSCF,
    pub for_imcn: Bool,
    pub nslpi: Bool,
    pub secure_pco: Bool,
    pub ipv4_mtu_discovery: Bool,
    pub local_addr_ind: Bool,
    pub non_ip_mtu_discovery: Bool,
}

impl DefinePDPContext {
    /// The command line: `AT+CGDCONT` and the arguments.
    pub fn encode(&self) -> (r: Vec<u8>)
        ensures
            r@ == at_line(
                "+CGDCONT".spec_bytes(),
                seq![
                    ArgV::Int(self.cid as int),
                    ArgV::Raw(quoted(self.pdp_type.spec_literal())),
                    ArgV::Str(self.apn@),
                    ArgV::Str(self.pdp_addr@),
                    ArgV::Int(self.d_comp.spec_code()),
                    ArgV::Int(self.h_comp.spec_code()),
                    ArgV::Int(self.ipv4_alloc.spec_code()),
                    ArgV::Int(self.request_type.spec_code()),
                    ArgV::Int(self.pdp_pcscf_discovery_method.spec_code()),
                    ArgV::Int(if self.for_imcn == Bool::True { 1 } else { 0 }),
                    ArgV::Int(if self.nslpi == Bool::True { 1 } else { 0 }),
                    ArgV::Int(if self.secure_pco == Bool::True { 1 } else { 0 }),
                    ArgV::Int(if self.ipv4_mtu_discovery == Bool::True { 1 } else { 0 }),
                    ArgV::Int(if self.local_addr_ind == Bool::True { 1 } else { 0 }),
                    ArgV::Int(if self.non_ip_mtu_discovery == Bool::True { 1 } else { 0 }),
                ],
            ),
    {
        let args: Vec<Arg> = vec![
            Arg::Int(self.cid as i128),
            self.pdp_type.to_arg(),
            Arg::Str(to_vec(self.apn.as_slice())),
            Arg::Str(to_vec(self.pdp_addr.as_slice())),
            Arg::Int(self.d_comp.code() as i128),
            Arg::Int(self.h_comp.code() as i128),
            Arg::Int(self.ipv4_alloc.code() as i128),
            Arg::Int(self.request_type.code() as i128),
            Arg::Int(self.pdp_pcscf_discovery_method.code() as i128),
            self.for_imcn.to_arg(),
            self.nslpi.to_arg(),
            self.secure_pco.to_arg(),
            self.ipv4_mtu_discovery.to_arg(),
            self.local_addr_ind.to_arg(),
            self.non_ip_mtu_discovery.to_arg(),
        ];
        let r = encode_at("+CGDCONT", &args);
        assert(arg_views(args@) =~= seq![
            ArgV::Int(self.cid as int),
            ArgV::Raw(quoted(self.pdp_type.spec_literal())),
            ArgV::Str(self.apn@),
            ArgV::Str(self.pdp_addr@),
            ArgV::Int(self.d_comp.spec_code()),
            ArgV::Int(self.h_comp.spec_code()),
            ArgV::Int(self.ipv4_alloc.spec_code()),
            ArgV::Int(self.request_type.spec_code()),
            ArgV::Int(self.pdp_pcscf_discovery_method.spec_code()),
            ArgV::Int(if self.for_imcn == Bool::True { 1 } else { 0 }),
            ArgV::Int(if self.nslpi == Bool::True { 1 } else { 0 }),
            ArgV::Int(if self.secure_pco == Bool::True { 1 } else { 0 }),
            ArgV::Int(if self.ipv4_mtu_discovery == Bool::True { 1 } else { 0 }),
            ArgV::Int(if self.local_addr_ind == Bool::True { 1 } else { 0 }),
            ArgV::Int(if self.non_ip_mtu_discovery == Bool::True { 1 } else { 0 }),
        ]);
        r
    }
}

} // verus!
