use crate::codec::{decode_num_at, decode_str_at, fields, num_at, split_fields, str_at};
use crate::types::{Bool, CodecError};
use vstd::prelude::*;

verus! {

/// A CoAP connection report (`+SQNCOAPCONNECTED`).
#[derive(Clone, Debug, PartialEq, Eq)]
pub struct Connected {
    /// Profile identifier.
    pub id: u8,
    /// At most 64 bytes.
    pub server_address: Vec<u8>,
    pub port: u16,
    pub local_port: u16,
    pub dtls_enabled: Bool,
}

impl Connected {
    /// Reads the payload of a CoAP connection report.
    pub fn decode(payload: &[u8]) -> (r: Result<Connected, CodecError>)
        ensures
            r matches Ok(c) ==> ({
                let fs = fields(payload@);
                &&& num_at(fs, 0, 0, 255) == Some(c.id as int)
                &&& str_at(fs, 1) == Some(c.server_address@)
                &&& num_at(fs, 2, 0, 65535) == Some(c.port as int)
                &&& num_at(fs, 3, 0, 65535) == Some(c.local_port as int)
                &&& num_at(fs, 4, 0, 1) == Some(if c.dtls_enabled == Bool::True { 1int } else { 0 })
            }),
            r is Ok <==> ({
                let fs = fields(payload@);
                &&& num_at(fs, 0, 0, 255) is Some
                &&& str_at(fs, 1) is Some
                &&& num_at(fs, 2, 0, 65535) is Some
                &&& num_at(fs, 3, 0, 65535) is Some
                &&& num_at(fs, 4, 0, 1) is Some
            }),
    {
        let fs = split_fields(payload);
        let id = decode_num_at(&fs, 0, 0, 255)?;
        let server_address = decode_str_at(&fs, 1)?;
        let port = decode_num_at(&fs, 2, 0, 65535)?;
        let local_port = decode_num_at(&fs, 3, 0, 65535)?;
        let d = decode_num_at(&fs, 4, 0, 1)?;
        let dtls_enabled = if d == 1 {
            Bool::True
        } else {
            Bool::False
        };
        Ok(Connected {
            id: id as u8,
            server_address,
            port: port as u16,
            local_port: local_port as u16,
            dtls_enabled,
        })
    }
}

} // verus!
