use crate::codec::{arg_views, at_line, bytes_eq, encode_at, quote_bytes, quoted, Arg, ArgV};
use vstd::prelude::*;
use vstd::string::StringSliceAdditionalSpecFns;

verus! {

/// Kind of public key burnt into the modem.
#[derive(Clone, Copy, Debug, PartialEq, Eq, Structural)]
pub enum KeyType {
    Ecdsa256,
    Rsa2048,
}

impl KeyType {
    /// The literal that stands for the value on the wire, without its quotes.
    pub open spec fn spec_literal(self) -> Seq<u8> {
        match self {
            KeyType::Ecdsa256 => "ECDSA 256".spec_bytes(),
            KeyType::Rsa2048 => "RSA 2048".spec_bytes(),
        }
    }

    pub fn literal(&self) -> (r: &'static str)
        ensures
            r.spec_bytes() == self.spec_literal(),
    {
        match self {
            KeyType::Ecdsa256 => "ECDSA 256",
            KeyType::Rsa2048 => "RSA 2048",
        }
    }

    /// The argument this value is written as: its literal between double quotes.
    pub fn to_arg(&self) -> (r: Arg)
        ensures
            r@ == ArgV::Raw(quoted(self.spec_literal())),
    {
        Arg::Raw(quote_bytes(self.literal().as_bytes()))
    }

    /// The value that a literal stands for, if any.
    pub fn from_literal(f: &[u8]) -> (r: Option<Self>)
        ensures
            r matches Some(v) ==> v.spec_literal() == f@,
            r is None ==> forall|v: Self| v.spec_literal() != f@,
    {
        if bytes_eq(f, "ECDSA 256".as_bytes()) {
            Some(KeyType::Ecdsa256)
        } else if bytes_eq(f, "RSA 2048".as_bytes()) {
            Some(KeyType::Rsa2048)
        } else {
            None
        }
    }
}

/// Burns a public key of the given size; only allowed at functionality level 5.
#[derive(Clone, Debug, PartialEq, Eq)]
pub struct BurnPublicKey {
    pub size: i32,
    pub typ: KeyType,
}

impl BurnPublicKey {
    /// The command line: `AT+SMNPK` and the arguments.
    pub fn encode(&self) -> (r: Vec<u8>)
        ensures
            r@ == at_line(
                "+SMNPK".spec_bytes(),
                seq![
                    ArgV::Int(self.size as int),
                    ArgV::Raw(quoted(self.typ.spec_literal())),
                ],
            ),
    {
        let args: Vec<Arg> = vec![
            Arg::Int(self.size as i128),
            self.typ.to_arg(),
        ];
        let r = encode_at("+SMNPK", &args);
        assert(arg_views(args@) =~= seq![
            ArgV::Int(self.size as int),
            ArgV::Raw(quoted(self.typ.spec_literal())),
        ]);
        r
    }
}

} // verus!
