use crate::codec::{
    arg_views, at_line, bytes_eq, encode_at, encode_request, join, quote_bytes, quoted, request_bytes,
    to_vec, trim_absent, Arg, ArgV,
};
use vstd::prelude::*;
use vstd::string::StringSliceAdditionalSpecFns;

verus! {

/// Kind of credential kept in the modem's non-volatile memory.
#[derive(Clone, Copy, Debug, PartialEq, Eq, Structural)]
pub enum DataType {
    Certificate,
    Privatekey,
}

impl DataType {
    /// The literal that stands for the value on the wire, without its quotes.
    pub open spec fn spec_literal(self) -> Seq<u8> {
        match self {
            DataType::Certificate => "certificate".spec_bytes(),
            DataType::Privatekey => "privatekey".spec_bytes(),
        }
    }

    pub fn literal(&self) -> (r: &'static str)
        ensures
            r.spec_bytes() == self.spec_literal(),
    {
        match self {
            DataType::Certificate => "certificate",
            DataType::Privatekey => "privatekey",
        }
    }

    /// The argument this value is written as: its literal between double quotes.
    pub fn to_arg(&self) -> (r: Arg)
        ensures
            r@ == ArgV::Raw(quoted(self.spec_literal())),
    {
        Arg::Raw(quote_bytes(self.literal().as_bytes()))
    }

    /// The value that a literal stands for, if any.
    pub fn from_literal(f: &[u8]) -> (r: Option<Self>)
        ensures
            r matches Some(v) ==> v.spec_literal() == f@,
            r is None ==> forall|v: Self| v.spec_literal() != f@,
    {
        if bytes_eq(f, "certificate".as_bytes()) {
            Some(DataType::Certificate)
        } else if bytes_eq(f, "privatekey".as_bytes()) {
            Some(DataType::Privatekey)
        } else {
            None
        }
    }
}

/// Prepares writing `size` bytes of a credential at `index`; a size of 0 deletes it.
#[derive(Clone, Debug, PartialEq, Eq)]
pub struct PrepareWrite {
    pub data_type: DataType,
    pub index: u8,
    pub size: usize,
}

impl PrepareWrite {
    /// The command line: `AT+SQNSNVW` and the arguments.
    pub fn encode(&self) -> (r: Vec<u8>)
        ensures
            r@ == at_line(
                "+SQNSNVW".spec_bytes(),
                seq![
                    ArgV::Raw(quoted(self.data_type.spec_literal())),
                    ArgV::Int(self.index as int),
                    ArgV::Int(self.size as int),
                ],
            ),
    {
        let args: Vec<Arg> = vec![
            self.data_type.to_arg(),
            Arg::Int(self.index as i128),
            Arg::Int(self.size as i128),
        ];
        let r = encode_at("+SQNSNVW", &args);
        assert(arg_views(args@) =~= seq![
            ArgV::Raw(quoted(self.data_type.spec_literal())),
            ArgV::Int(self.index as int),
            ArgV::Int(self.size as int),
        ]);
        r
    }
}

/// The credential bytes, sent as they are after `PrepareWrite`: no prefix,
/// no separator, no line ending.
#[derive(Clone, Debug, PartialEq, Eq)]
pub struct Write {
    /// At most 8192 bytes.
    pub data: Vec<u8>,
}

impl Write {
    pub fn encode(&self) -> (r: Vec<u8>)
        ensures
            r@ == self.data@,
    {
        let args: Vec<Arg> = vec![Arg::Raw(to_vec(self.data.as_slice()))];
        let r = encode_request("", "", &args, "", false);
        assert(arg_views(args@) =~= seq![ArgV::Raw(self.data@)]);
        proof {
            reveal_strlit("");
            vstd::string::is_ascii_spec_bytes("");
            assert("".spec_bytes() =~= Seq::<u8>::empty());
            assert(trim_absent(seq![ArgV::Raw(self.data@)]) == seq![ArgV::Raw(self.data@)]);
            assert(join(seq![ArgV::Raw(self.data@)]) == self.data@);
            assert(r@ =~= self.data@);
        }
        r
    }
}

} // verus!
