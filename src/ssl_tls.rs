use crate::codec::{arg_views, at_line, encode_at, to_vec, Arg, ArgV};
use crate::types::Nullable;
use vstd::prelude::*;
use vstd::string::StringSliceAdditionalSpecFns;

verus! {

/// TLS protocol version of a security profile.
#[derive(Clone, Copy, Debug, PartialEq, Eq, Structural)]
pub enum SslTlsVersion {
    Tls10,
    Tls11,
    Tls12,
    Tls13,
    Reset,
}

impl SslTlsVersion {
    /// The number that stands for the value on the wire.
    pub open spec fn spec_code(self) -> int {
        match self {
            SslTlsVersion::Tls10 => 0,
            SslTlsVersion::Tls11 => 1,
            SslTlsVersion::Tls12 => 2,
            SslTlsVersion::Tls13 => 3,
            SslTlsVersion::Reset => 255,
        }
    }

    pub fn code(&self) -> (r: i64)
        ensures
            r == self.spec_code(),
    {
        match self {
            SslTlsVersion::Tls10 => 0,
            SslTlsVersion::Tls11 => 1,
            SslTlsVersion::Tls12 => 2,
            SslTlsVersion::Tls13 => 3,
            SslTlsVersion::Reset => 255,
        }
    }

    /// The value that a wire number stands for, if any.
    pub fn from_code(c: i64) -> (r: Option<Self>)
        ensures
            r matches Some(v) ==> v.spec_code() == c,
            r is None ==> forall|v: Self| v.spec_code() != c,
    {
        if c == 0 {
            Some(SslTlsVersion::Tls10)
        } else if c == 1 {
            Some(SslTlsVersion::Tls11)
        } else if c == 2 {
            Some(SslTlsVersion::Tls12)
        } else if c == 3 {
            Some(SslTlsVersion::Tls13)
        } else if c == 255 {
            Some(SslTlsVersion::Reset)
        } else {
            None
        }
    }
}

/// A TLS cipher suite, by its IANA number.
#[derive(Clone, Copy, Debug, PartialEq, Eq, Structural)]
pub enum CipherSuite {
    SslRsaWith3DesEdeCbcSha,
    TlsAes128Ccm8Sha256,
    TlsAes128CcmSha256,
    TlsAes128GcmSha256,
    TlsAes256GcmSha384,
    TlsChacha20Poly1305Sha256,
    TlsDhePskWithAes128CbcSha256,
    TlsDhePskWithAes128Ccm,
    TlsDhePskWithAes128GcmSha256,
    TlsDhePskWithAes256CbcSha384,
    TlsDhePskWithAes256Ccm,
    TlsDhePskWithAes256GcmSha384,
    TlsDheRsaWithAes128CbcSha,
    TlsDheRsaWithAes128CbcSha256,
    TlsDheRsaWithAes256CbcSha,
    TlsDheRsaWithAes256CbcSha256,
    TlsEcdheEcdsaWith3desEdeCbcSha,
    TlsEcdheEcdsaWithAes128CbcSha,
    TlsEcdheEcdsaWithAes128Ccm,
    TlsEcdheEcdsaWithAes128Ccm8,
    TlsEcdheEcdsaWithAes256CbcSha,
    TlsEcdheEcdsaWithAes256Ccm8,
    TlsEcdheRsaWith3desEdeCbcSha,
    TlsEcdheRsaWithAes128CbcSha,
    TlsEcdheRsaWithAes256CbcSha,
    TlsPskWithAes128CbcSha,
    TlsPskWithAes128CbcSha256,
    TlsPskWithAes128Ccm,
    TlsPskWithAes128Ccm8,
    TlsPskWithAes128GcmSha256,
    TlsPskWithAes256CbcSha,
    TlsPskWithAes256CbcSha384,
    TlsPskWithAes256Ccm,
    TlsPskWithAes256Ccm8,
    TlsPskWithAes256GcmSha384,
    TlsRsaWithAes128CbcSha,
    TlsRsaWithAes128CbcSha256,
    TlsRsaWithAes128Ccm8,
    TlsRsaWithAes128GcmSha256,
    TlsRsaWithAes256CbcSha,
    TlsRsaWithAes256CbcSha256,
    TlsRsaWithAes256Ccm8,
}

impl CipherSuite {
    /// The number that stands for the value on the wire.
    pub open spec fn spec_code(self) -> int {
        match self {
            CipherSuite::SslRsaWith3DesEdeCbcSha => 10,
            CipherSuite::TlsAes128Ccm8Sha256 => 4869,
            CipherSuite::TlsAes128CcmSha256 => 4868,
            CipherSuite::TlsAes128GcmSha256 => 4865,
            CipherSuite::TlsAes256GcmSha384 => 4866,
            CipherSuite::TlsChacha20Poly1305Sha256 => 4867,
            CipherSuite::TlsDhePskWithAes128CbcSha256 => 178,
            CipherSuite::TlsDhePskWithAes128Ccm => 49318,
            CipherSuite::TlsDhePskWithAes128GcmSha256 => 170,
            CipherSuite::TlsDhePskWithAes256CbcSha384 => 179,
            CipherSuite::TlsDhePskWithAes256Ccm => 49319,
            CipherSuite::TlsDhePskWithAes256GcmSha384 => 171,
            CipherSuite::TlsDheRsaWithAes128CbcSha => 51,
            CipherSuite::TlsDheRsaWithAes128CbcSha256 => 103,
            CipherSuite::TlsDheRsaWithAes256CbcSha => 57,
            CipherSuite::TlsDheRsaWithAes256CbcSha256 => 107,
            CipherSuite::TlsEcdheEcdsaWith3desEdeCbcSha => 49160,
            CipherSuite::TlsEcdheEcdsaWithAes128CbcSha => 49161,
            CipherSuite::TlsEcdheEcdsaWithAes128Ccm => 49324,
            CipherSuite::TlsEcdheEcdsaWithAes128Ccm8 => 49326,
            CipherSuite::TlsEcdheEcdsaWithAes256CbcSha => 49162,
            CipherSuite::TlsEcdheEcdsaWithAes256Ccm8 => 49327,
            CipherSuite::TlsEcdheRsaWith3desEdeCbcSha => 49170,
            CipherSuite::TlsEcdheRsaWithAes128CbcSha => 49171,
            CipherSuite::TlsEcdheRsaWithAes256CbcSha => 49172,
            CipherSuite::TlsPskWithAes128CbcSha => 140,
            CipherSuite::TlsPskWithAes128CbcSha256 => 174,
            CipherSuite::TlsPskWithAes128Ccm => 49316,
            CipherSuite::TlsPskWithAes128Ccm8 => 49320,
            CipherSuite::TlsPskWithAes128GcmSha256 => 168,
            CipherSuite::TlsPskWithAes256CbcSha => 141,
            CipherSuite::TlsPskWithAes256CbcSha384 => 175,
            CipherSuite::TlsPskWithAes256Ccm => 49317,
            CipherSuite::TlsPskWithAes256Ccm8 => 49321,
            CipherSuite::TlsPskWithAes256GcmSha384 => 169,
            CipherSuite::TlsRsaWithAes128CbcSha => 47,
            CipherSuite::TlsRsaWithAes128CbcSha256 => 60,
            CipherSuite::TlsRsaWithAes128Ccm8 => 49312,
            CipherSuite::TlsRsaWithAes128GcmSha256 => 156,
            CipherSuite::TlsRsaWithAes256CbcSha => 53,
            CipherSuite::TlsRsaWithAes256CbcSha256 => 61,
            CipherSuite::TlsRsaWithAes256Ccm8 => 49313,
        }
    }

    pub fn code(&self) -> (r: i64)
        ensures
            r == self.spec_code(),
    {
        match self {
            CipherSuite::SslRsaWith3DesEdeCbcSha => 10,
            CipherSuite::TlsAes128Ccm8Sha256 => 4869,
            CipherSuite::TlsAes128CcmSha256 => 4868,
            CipherSuite::TlsAes128GcmSha256 => 4865,
            CipherSuite::TlsAes256GcmSha384 => 4866,
            CipherSuite::TlsChacha20Poly1305Sha256 => 4867,
            CipherSuite::TlsDhePskWithAes128CbcSha256 => 178,
            CipherSuite::TlsDhePskWithAes128Ccm => 49318,
            CipherSuite::TlsDhePskWithAes128GcmSha256 => 170,
            CipherSuite::TlsDhePskWithAes256CbcSha384 => 179,
            CipherSuite::TlsDhePskWithAes256Ccm => 49319,
            CipherSuite::TlsDhePskWithAes256GcmSha384 => 171,
            CipherSuite::TlsDheRsaWithAes128CbcSha => 51,
            CipherSuite::TlsDheRsaWithAes128CbcSha256 => 103,
            CipherSuite::TlsDheRsaWithAes256CbcSha => 57,
            CipherSuite::TlsDheRsaWithAes256CbcSha256 => 107,
            CipherSuite::TlsEcdheEcdsaWith3desEdeCbcSha => 49160,
            CipherSuite::TlsEcdheEcdsaWithAes128CbcSha => 49161,
            CipherSuite::TlsEcdheEcdsaWithAes128Ccm => 49324,
            CipherSuite::TlsEcdheEcdsaWithAes128Ccm8 => 49326,
            CipherSuite::TlsEcdheEcdsaWithAes256CbcSha => 49162,
            CipherSuite::TlsEcdheEcdsaWithAes256Ccm8 => 49327,
            CipherSuite::TlsEcdheRsaWith3desEdeCbcSha => 49170,
            CipherSuite::TlsEcdheRsaWithAes128CbcSha => 49171,
            CipherSuite::TlsEcdheRsaWithAes256CbcSha => 49172,
            CipherSuite::TlsPskWithAes128CbcSha => 140,
            CipherSuite::TlsPskWithAes128CbcSha256 => 174,
            CipherSuite::TlsPskWithAes128Ccm => 49316,
            CipherSuite::TlsPskWithAes128Ccm8 => 49320,
            CipherSuite::TlsPskWithAes128GcmSha256 => 168,
            CipherSuite::TlsPskWithAes256CbcSha => 141,
            CipherSuite::TlsPskWithAes256CbcSha384 => 175,
            CipherSuite::TlsPskWithAes256Ccm => 49317,
            CipherSuite::TlsPskWithAes256Ccm8 => 49321,
            CipherSuite::TlsPskWithAes256GcmSha384 => 169,
            CipherSuite::TlsRsaWithAes128CbcSha => 47,
            CipherSuite::TlsRsaWithAes128CbcSha256 => 60,
            CipherSuite::TlsRsaWithAes128Ccm8 => 49312,
            CipherSuite::TlsRsaWithAes128GcmSha256 => 156,
            CipherSuite::TlsRsaWithAes256CbcSha => 53,
            CipherSuite::TlsRsaWithAes256CbcSha256 => 61,
            CipherSuite::TlsRsaWithAes256Ccm8 => 49313,
        }
    }

    /// The value that a wire number stands for, if any.
    pub fn from_code(c: i64) -> (r: Option<Self>)
        ensures
            r matches Some(v) ==> v.spec_code() == c,
            r is None ==> forall|v: Self| v.spec_code() != c,
    {
        if c == 10 {
            Some(CipherSuite::SslRsaWith3DesEdeCbcSha)
        } else if c == 4869 {
            Some(CipherSuite::TlsAes128Ccm8Sha256)
        } else if c == 4868 {
            Some(CipherSuite::TlsAes128CcmSha256)
        } else if c == 4865 {
            Some(CipherSuite::TlsAes128GcmSha256)
        } else if c == 4866 {
            Some(CipherSuite::TlsAes256GcmSha384)
        } else if c == 4867 {
            Some(CipherSuite::TlsChacha20Poly1305Sha256)
        } else if c == 178 {
            Some(CipherSuite::TlsDhePskWithAes128CbcSha256)
        } else if c == 49318 {
            Some(CipherSuite::TlsDhePskWithAes128Ccm)
        } else if c == 170 {
            Some(CipherSuite::TlsDhePskWithAes128GcmSha256)
        } else if c == 179 {
            Some(CipherSuite::TlsDhePskWithAes256CbcSha384)
        } else if c == 49319 {
            Some(CipherSuite::TlsDhePskWithAes256Ccm)
        } else if c == 171 {
            Some(CipherSuite::TlsDhePskWithAes256GcmSha384)
        } else if c == 51 {
            Some(CipherSuite::TlsDheRsaWithAes128CbcSha)
        } else if c == 103 {
            Some(CipherSuite::TlsDheRsaWithAes128CbcSha256)
        } else if c == 57 {
            Some(CipherSuite::TlsDheRsaWithAes256CbcSha)
        } else if c == 107 {
            Some(CipherSuite::TlsDheRsaWithAes256CbcSha256)
        } else if c == 49160 {
            Some(CipherSuite::TlsEcdheEcdsaWith3desEdeCbcSha)
        } else if c == 49161 {
            Some(CipherSuite::TlsEcdheEcdsaWithAes128CbcSha)
        } else if c == 49324 {
            Some(CipherSuite::TlsEcdheEcdsaWithAes128Ccm)
        } else if c == 49326 {
            Some(CipherSuite::TlsEcdheEcdsaWithAes128Ccm8)
        } else if c == 49162 {
            Some(CipherSuite::TlsEcdheEcdsaWithAes256CbcSha)
        } else if c == 49327 {
            Some(CipherSuite::TlsEcdheEcdsaWithAes256Ccm8)
        } else if c == 49170 {
            Some(CipherSuite::TlsEcdheRsaWith3desEdeCbcSha)
        } else if c == 49171 {
            Some(CipherSuite::TlsEcdheRsaWithAes128CbcSha)
        } else if c == 49172 {
            Some(CipherSuite::TlsEcdheRsaWithAes256CbcSha)
        } else if c == 140 {
            Some(CipherSuite::TlsPskWithAes128CbcSha)
        } else if c == 174 {
            Some(CipherSuite::TlsPskWithAes128CbcSha256)
        } else if c == 49316 {
            Some(CipherSuite::TlsPskWithAes128Ccm)
        } else if c == 49320 {
            Some(CipherSuite::TlsPskWithAes128Ccm8)
        } else if c == 168 {
            Some(CipherSuite::TlsPskWithAes128GcmSha256)
        } else if c == 141 {
            Some(CipherSuite::TlsPskWithAes256CbcSha)
        } else if c == 175 {
            Some(CipherSuite::TlsPskWithAes256CbcSha384)
        } else if c == 49317 {
            Some(CipherSuite::TlsPskWithAes256Ccm)
        } else if c == 49321 {
            Some(CipherSuite::TlsPskWithAes256Ccm8)
        } else if c == 169 {
            Some(CipherSuite::TlsPskWithAes256GcmSha384)
        } else if c == 47 {
            Some(CipherSuite::TlsRsaWithAes128CbcSha)
        } else if c == 60 {
            Some(CipherSuite::TlsRsaWithAes128CbcSha256)
        } else if c == 49312 {
            Some(CipherSuite::TlsRsaWithAes128Ccm8)
        } else if c == 156 {
            Some(CipherSuite::TlsRsaWithAes128GcmSha256)
        } else if c == 53 {
            Some(CipherSuite::TlsRsaWithAes256CbcSha)
        } else if c == 61 {
            Some(CipherSuite::TlsRsaWithAes256CbcSha256)
        } else if c == 49313 {
            Some(CipherSuite::TlsRsaWithAes256Ccm8)
        } else {
            None
        }
    }
}

/// Where a security profile keeps its keys.
#[derive(Clone, Copy, Debug, PartialEq, Eq, Structural)]
pub enum StorageId {
    NVM,
    HostedCryptoEngine,
    Reserved,
}

impl StorageId {
    /// The number that stands for the value on the wire.
    pub open spec fn spec_code(self) -> int {
        match self {
            StorageId::NVM => 0,
            StorageId::HostedCryptoEngine => 1,
            StorageId::Reserved => 2,
        }
    }

    pub fn code(&self) -> (r: i64)
        ensures
            r == self.spec_code(),
    {
        match self {
            StorageId::NVM => 0,
            StorageId::HostedCryptoEngine => 1,
            StorageId::Reserved => 2,
        }
    }

    /// The value that a wire number stands for, if any.
    pub fn from_code(c: i64) -> (r: Option<Self>)
        ensures
            r matches Some(v) ==> v.spec_code() == c,
            r is None ==> forall|v: Self| v.spec_code() != c,
    {
        if c == 0 {
            Some(StorageId::NVM)
        } else if c == 1 {
            Some(StorageId::HostedCryptoEngine)
        } else if c == 2 {
            Some(StorageId::Reserved)
        } else {
            None
        }
    }
}

/// Whether TLS sessions are resumed.
#[derive(Clone, Copy, Debug, PartialEq, Eq, Structural)]
pub enum Resume {
    Disabled,
    Enabled,
}

impl Resume {
    /// The number that stands for the value on the wire.
    pub open spec fn spec_code(self) -> int {
        match self {
            Resume::Disabled => 0,
            Resume::Enabled => 1,
        }
    }

    pub fn code(&self) -> (r: i64)
        ensures
            r == self.spec_code(),
    {
        match self {
            Resume::Disabled => 0,
            Resume::Enabled => 1,
        }
    }

    /// The value that a wire number stands for, if any.
    pub fn from_code(c: i64) -> (r: Option<Self>)
        ensures
            r matches Some(v) ==> v.spec_code() == c,
            r is None ==> forall|v: Self| v.spec_code() != c,
    {
        if c == 0 {
            Some(Resume::Disabled)
        } else if c == 1 {
            Some(Resume::Enabled)
        } else {
            None
        }
    }
}

/// Configures a TLS security profile.
#[derive(Clone, Debug, PartialEq, Eq)]
pub struct Configure {
    /// Profile, 1 to 6.
    pub sp_id: u8,
    pub version: SslTlsVersion,
    pub cipher_specs: Vec<u8>,
    /// Bit flags: validity, root, common name.
    pub cert_valid_level: u8,
    pub ca_cert_id: Nullable<u8>,
    pub client_cert_id: Nullable<u8>,
    pub client_private_key_id: Nullable<u8>,
    pub psk: Vec<u8>,
    pub psk_identity: Option<Vec<u8>>,
    pub storage_id: StorageId,
    pub resume: Resume,
    pub lifetime: u32,
}

impl Configure {
    /// The command line: `AT+SQNSPCFG` and the arguments.
    pub fn encode(&self) -> (r: Vec<u8>)
        ensures
            r@ == at_line(
                "+SQNSPCFG".spec_bytes(),
                seq![
                    ArgV::Int(self.sp_id as int),
                    ArgV::Int(self.version.spec_code()),
                    ArgV::Str(self.cipher_specs@),
                    ArgV::Int(self.cert_valid_level as int),
                    match self.ca_cert_id {
                        Nullable::Value(v) => ArgV::Int(v as int),
                        Nullable::Empty => ArgV::Empty,
                    },
                    match self.client_cert_id {
                        Nullable::Value(v) => ArgV::Int(v as int),
                        Nullable::Empty => ArgV::Empty,
                    },
                    match self.client_private_key_id {
                        Nullable::Value(v) => ArgV::Int(v as int),
                        Nullable::Empty => ArgV::Empty,
                    },
                    ArgV::Str(self.psk@),
                    match self.psk_identity {
                        Some(v) => ArgV::Str(v@),
                        None => ArgV::Absent,
                    },
                    ArgV::Int(self.storage_id.spec_code()),
                    ArgV::Int(self.resume.spec_code()),
                    ArgV::Int(self.lifetime as int),
                ],
            ),
    {
        let args: Vec<Arg> = vec![
            Arg::Int(self.sp_id as i128),
            Arg::Int(self.version.code() as i128),
            Arg::Str(to_vec(self.cipher_specs.as_slice())),
            Arg::Int(self.cert_valid_level as i128),
            match self.ca_cert_id {
                Nullable::Value(v) => Arg::Int(v as i128),
                Nullable::Empty => Arg::Empty,
            },
            match self.client_cert_id {
                Nullable::Value(v) => Arg::Int(v as i128),
                Nullable::Empty => Arg::Empty,
            },
            match self.client_private_key_id {
                Nullable::Value(v) => Arg::Int(v as i128),
                Nullable::Empty => Arg::Empty,
            },
            Arg::Str(to_vec(self.psk.as_slice())),
            match &self.psk_identity {
                Some(v) => Arg::Str(to_vec(v.as_slice())),
                None => Arg::Absent,
            },
            Arg::Int(self.storage_id.code() as i128),
            Arg::Int(self.resume.code() as i128),
            Arg::Int(self.lifetime as i128),
        ];
        let r = encode_at("+SQNSPCFG", &args);
        assert(arg_views(args@) =~= seq![
            ArgV::Int(self.sp_id as int),
            ArgV::Int(self.version.spec_code()),
            ArgV::Str(self.cipher_specs@),
            ArgV::Int(self.cert_valid_level as int),
            match self.ca_cert_id {
                Nullable::Value(v) => ArgV::Int(v as int),
                Nullable::Empty => ArgV::Empty,
            },
            match self.client_cert_id {
                Nullable::Value(v) => ArgV::Int(v as int),
                Nullable::Empty => ArgV::Empty,
            },
            match self.client_private_key_id {
                Nullable::Value(v) => ArgV::Int(v as int),
                Nullable::Empty => ArgV::Empty,
            },
            ArgV::Str(self.psk@),
            match self.psk_identity {
                Some(v) => ArgV::Str(v@),
                None => ArgV::Absent,
            },
            ArgV::Int(self.storage_id.spec_code()),
            ArgV::Int(self.resume.spec_code()),
            ArgV::Int(self.lifetime as int),
        ]);
        r
    }
}

} // verus!
