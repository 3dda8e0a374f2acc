use crate::codec::{
    arg_views, at_line, decode_num_at, decode_str_at, encode_at, encode_request, fields, join, num_at,
    request_bytes, split_fields, str_at, to_vec, trim_absent, Arg, ArgV,
};
use crate::types::CodecError;
use vstd::prelude::*;
use vstd::string::StringSliceAdditionalSpecFns;

verus! {

/// MQTT quality of service.
#[derive(Clone, Copy, Debug, PartialEq, Eq, Structural)]
pub enum Qos {
    AtMostOnce,
    AtLeastOnce,
    ExactlyOnce,
}

impl Qos {
    /// The number that stands for the value on the wire.
    pub open spec fn spec_code(self) -> int {
        match self {
            Qos::AtMostOnce => 0,
            Qos::AtLeastOnce => 1,
            Qos::ExactlyOnce => 2,
        }
    }

    pub fn code(&self) -> (r: i64)
        ensures
            r == self.spec_code(),
    {
        match self {
            Qos::AtMostOnce => 0,
            Qos::AtLeastOnce => 1,
            Qos::ExactlyOnce => 2,
        }
    }

    /// The value that a wire number stands for, if any.
    pub fn from_code(c: i64) -> (r: Option<Self>)
        ensures
            r matches Some(v) ==> v.spec_code() == c,
            r is None ==> forall|v: Self| v.spec_code() != c,
    {
        if c == 0 {
            Some(Qos::AtMostOnce)
        } else if c == 1 {
            Some(Qos::AtLeastOnce)
        } else if c == 2 {
            Some(Qos::ExactlyOnce)
        } else {
            None
        }
    }
}

/// Result code of an MQTT operation.
#[derive(Clone, Copy, Debug, PartialEq, Eq, Structural)]
pub enum MQTTStatusCode {
    Success,
    NoMem,
    Protocol,
    Inval,
    NoConn,
    ConnRefused,
    NotFound,
    ConnLost,
    Tls,
    PayloadSize,
    NotSupported,
    Auth,
    AclDenied,
    Unknown,
    Errno,
    Eai,
    Proxy,
    Unavailable,
}

impl MQTTStatusCode {
    /// The number that stands for the value on the wire.
    pub open spec fn spec_code(self) -> int {
        match self {
            MQTTStatusCode::Success => 0,
            MQTTStatusCode::NoMem => -1,
            MQTTStatusCode::Protocol => -2,
            MQTTStatusCode::Inval => -3,
            MQTTStatusCode::NoConn => -4,
            MQTTStatusCode::ConnRefused => -5,
            MQTTStatusCode::NotFound => -6,
            MQTTStatusCode::ConnLost => -7,
            MQTTStatusCode::Tls => -8,
            MQTTStatusCode::PayloadSize => -9,
            MQTTStatusCode::NotSupported => -10,
            MQTTStatusCode::Auth => -11,
            MQTTStatusCode::AclDenied => -12,
            MQTTStatusCode::Unknown => -13,
            MQTTStatusCode::Errno => -14,
            MQTTStatusCode::Eai => -15,
            MQTTStatusCode::Proxy => -16,
            MQTTStatusCode::Unavailable => -17,
        }
    }

    pub fn code(&self) -> (r: i64)
        ensures
            r == self.spec_code(),
    {
        match self {
            MQTTStatusCode::Success => 0,
            MQTTStatusCode::NoMem => -1,
            MQTTStatusCode::Protocol => -2,
            MQTTStatusCode::Inval => -3,
            MQTTStatusCode::NoConn => -4,
            MQTTStatusCode::ConnRefused => -5,
            MQTTStatusCode::NotFound => -6,
            MQTTStatusCode::ConnLost => -7,
            MQTTStatusCode::Tls => -8,
            MQTTStatusCode::PayloadSize => -9,
            MQTTStatusCode::NotSupported => -10,
            MQTTStatusCode::Auth => -11,
            MQTTStatusCode::AclDenied => -12,
            MQTTStatusCode::Unknown => -13,
            MQTTStatusCode::Errno => -14,
            MQTTStatusCode::Eai => -15,
            MQTTStatusCode::Proxy => -16,
            MQTTStatusCode::Unavailable => -17,
        }
    }

    /// The value that a wire number stands for, if any.
    pub fn from_code(c: i64) -> (r: Option<Self>)
        ensures
            r matches Some(v) ==> v.spec_code() == c,
            r is None ==> forall|v: Self| v.spec_code() != c,
    {
        if c == 0 {
            Some(MQTTStatusCode::Success)
        } else if c == -1 {
            Some(MQTTStatusCode::NoMem)
        } else if c == -2 {
            Some(MQTTStatusCode::Protocol)
        } else if c == -3 {
            Some(MQTTStatusCode::Inval)
        } else if c == -4 {
            Some(MQTTStatusCode::NoConn)
        } else if c == -5 {
            Some(MQTTStatusCode::ConnRefused)
        } else if c == -6 {
            Some(MQTTStatusCode::NotFound)
        } else if c == -7 {
            Some(MQTTStatusCode::ConnLost)
        } else if c == -8 {
            Some(MQTTStatusCode::Tls)
        } else if c == -9 {
            Some(MQTTStatusCode::PayloadSize)
        } else if c == -10 {
            Some(MQTTStatusCode::NotSupported)
        } else if c == -11 {
            Some(MQTTStatusCode::Auth)
        } else if c == -12 {
            Some(MQTTStatusCode::AclDenied)
        } else if c == -13 {
            Some(MQTTStatusCode::Unknown)
        } else if c == -14 {
            Some(MQTTStatusCode::Errno)
        } else if c == -15 {
            Some(MQTTStatusCode::Eai)
        } else if c == -16 {
            Some(MQTTStatusCode::Proxy)
        } else if c == -17 {
            Some(MQTTStatusCode::Unavailable)
        } else {
            None
        }
    }
}

/// Disconnects from the broker.
#[derive(Clone, Debug, PartialEq, Eq)]
pub struct Disconnect {
    pub id: u8,
}

impl Disconnect {
    /// The command line: `AT+SQNSMQTTDISCONNECT` and the arguments.
    pub fn encode(&self) -> (r: Vec<u8>)
        ensures
            r@ == at_line(
                "+SQNSMQTTDISCONNECT".spec_bytes(),
                seq![
                    ArgV::Int(self.id as int),
                ],
            ),
    {
        let args: Vec<Arg> = vec![
            Arg::Int(self.id as i128),
        ];
        let r = encode_at("+SQNSMQTTDISCONNECT", &args);
        assert(arg_views(args@) =~= seq![
            ArgV::Int(self.id as int),
        ]);
        r
    }
}

/// Configures the MQTT client: identity and credentials or security profile.
#[derive(Clone, Debug, PartialEq, Eq)]
pub struct Configure {
    pub id: u8,
    /// At most 128 bytes.
    pub client_id: Vec<u8>,
    /// At most 256 bytes.
    pub username: Vec<u8>,
    /// At most 256 bytes.
    pub password: Vec<u8>,
    pub sp_id: Option<u8>,
}

impl Configure {
    /// The command line: `AT+SQNSMQTTCFG` and the arguments.
    pub fn encode(&self) -> (r: Vec<u8>)
        ensures
            r@ == at_line(
                "+SQNSMQTTCFG".spec_bytes(),
                seq![
                    ArgV::Int(self.id as int),
                    ArgV::Str(self.client_id@),
                    ArgV::Str(self.username@),
                    ArgV::Str(self.password@),
                    match self.sp_id {
                        Some(v) => ArgV::Int(v as int),
                        None => ArgV::Absent,
                    },
                ],
            ),
    {
        let args: Vec<Arg> = vec![
            Arg::Int(self.id as i128),
            Arg::Str(to_vec(self.client_id.as_slice())),
            Arg::Str(to_vec(self.username.as_slice())),
            Arg::Str(to_vec(self.password.as_slice())),
            match self.sp_id {
                Some(v) => Arg::Int(v as i128),
                None => Arg::Absent,
            },
        ];
        let r = encode_at("+SQNSMQTTCFG", &args);
        assert(arg_views(args@) =~= seq![
            ArgV::Int(self.id as int),
            ArgV::Str(self.client_id@),
            ArgV::Str(self.username@),
            ArgV::Str(self.password@),
            match self.sp_id {
                Some(v) => ArgV::Int(v as int),
                None => ArgV::Absent,
            },
        ]);
        r
    }
}

/// Connects to a broker.
#[derive(Clone, Debug, PartialEq, Eq)]
pub struct Connect {
    pub id: u8,
    /// At most 256 bytes.
    pub host: Vec<u8>,
    pub port: Option<u32>,
    pub keepalive: Option<u32>,
}

impl Connect {
    /// The command line: `AT+SQNSMQTTCONNECT` and the arguments.
    pub fn encode(&self) -> (r: Vec<u8>)
        ensures
            r@ == at_line(
                "+SQNSMQTTCONNECT".spec_bytes(),
                seq![
                    ArgV::Int(self.id as int),
                    ArgV::Str(self.host@),
                    match self.port {
                        Some(v) => ArgV::Int(v as int),
                        None => ArgV::Absent,
                    },
                    match self.keepalive {
                        Some(v) => ArgV::Int(v as int),
                        None => ArgV::Absent,
                    },
                ],
            ),
    {
        let args: Vec<Arg> = vec![
            Arg::Int(self.id as i128),
            Arg::Str(to_vec(self.host.as_slice())),
            match self.port {
                Some(v) => Arg::Int(v as i128),
                None => Arg::Absent,
            },
            match self.keepalive {
                Some(v) => Arg::Int(v as i128),
                None => Arg::Absent,
            },
        ];
        let r = encode_at("+SQNSMQTTCONNECT", &args);
        assert(arg_views(args@) =~= seq![
            ArgV::Int(self.id as int),
            ArgV::Str(self.host@),
            match self.port {
                Some(v) => ArgV::Int(v as int),
                None => ArgV::Absent,
            },
            match self.keepalive {
                Some(v) => ArgV::Int(v as int),
                None => ArgV::Absent,
            },
        ]);
        r
    }
}

/// Prepares a publication; the modem answers with a prompt, then takes the
/// payload. The line ends in `\r` alone.
#[derive(Clone, Debug, PartialEq, Eq)]
pub struct PreparePublish {
    pub id: u8,
    /// At most 64 bytes.
    pub topic: Vec<u8>,
    pub qos: Option<Qos>,
    /// Length of the payload that follows.
    pub length: usize,
}

impl PreparePublish {
    /// The command line `AT+SQNSMQTTPUBLISH=...` ended by `\r`.
    pub fn encode(&self) -> (r: Vec<u8>)
        ensures
            r@ == request_bytes(
                "AT".spec_bytes(),
                "+SQNSMQTTPUBLISH".spec_bytes(),
                seq![
                    ArgV::Int(self.id as int),
                    ArgV::Str(self.topic@),
                    match self.qos {
                        Some(q) => ArgV::Int(q.spec_code()),
                        None => ArgV::Absent,
                    },
                    ArgV::Int(self.length as int),
                ],
                "\r".spec_bytes(),
                true,
            ),
    {
        let args: Vec<Arg> = vec![
            Arg::Int(self.id as i128),
            Arg::Str(to_vec(self.topic.as_slice())),
            match self.qos {
                Some(q) => Arg::Int(q.code() as i128),
                None => Arg::Absent,
            },
            Arg::Int(self.length as i128),
        ];
        let r = encode_request("AT", "+SQNSMQTTPUBLISH", &args, "\r", true);
        assert(arg_views(args@) =~= seq![
            ArgV::Int(self.id as int),
            ArgV::Str(self.topic@),
            match self.qos {
                Some(q) => ArgV::Int(q.spec_code()),
                None => ArgV::Absent,
            },
            ArgV::Int(self.length as int),
        ]);
        r
    }
}

/// The payload of a publication, sent as it is after the prompt: no
/// prefix, no separator, no line ending.
#[derive(Clone, Debug, PartialEq, Eq)]
pub struct Publish {
    /// At most 2048 bytes.
    pub payload: Vec<u8>,
}

impl Publish {
    pub fn encode(&self) -> (r: Vec<u8>)
        ensures
            r@ == request_bytes(
                "".spec_bytes(),
                "".spec_bytes(),
                seq![ArgV::Raw(self.payload@)],
                "".spec_bytes(),
                false,
            ),
            r@ == self.payload@,
    {
        let args: Vec<Arg> = vec![Arg::Raw(to_vec(self.payload.as_slice()))];
        let r = encode_request("", "", &args, "", false);
        assert(arg_views(args@) =~= seq![ArgV::Raw(self.payload@)]);
        proof {
            reveal_strlit("");
            vstd::string::is_ascii_spec_bytes("");
            assert("".spec_bytes() =~= Seq::<u8>::empty());
            assert(trim_absent(seq![ArgV::Raw(self.payload@)]) == seq![ArgV::Raw(self.payload@)]);
            assert(join(seq![ArgV::Raw(self.payload@)]) == self.payload@);
            assert(r@ =~= self.payload@);
        }
        r
    }
}

/// The prompt for a payload, with the message identifier.
#[derive(Clone, Copy, Debug, PartialEq, Eq, Structural)]
pub struct PromptToPayload {
    pub pmid: u16,
}

/// Whether field `k` holds the number of an MQTT status.
pub open spec fn rc_at(fs: Seq<Seq<u8>>, k: int) -> bool {
    match num_at(fs, k, -128, 127) {
        Some(c) => exists|v: MQTTStatusCode| v.spec_code() == c,
        None => false,
    }
}

/// A connection report (`+SQNSMQTTONCONNECT: <id>,<rc>`).
#[derive(Clone, Copy, Debug, PartialEq, Eq, Structural)]
pub struct Connected {
    pub id: u8,
    pub rc: MQTTStatusCode,
}

/// Whether the fields of a connection or disconnection report read as
/// `id` and `rc`.
pub open spec fn id_rc_matches(fs: Seq<Seq<u8>>, id: u8, rc: MQTTStatusCode) -> bool {
    num_at(fs, 0, 0, 255) == Some(id as int) && num_at(fs, 1, -128, 127) == Some(rc.spec_code())
}

fn decode_id_rc(payload: &[u8]) -> (r: Result<(u8, MQTTStatusCode), CodecError>)
    ensures
        r matches Ok(p) ==> id_rc_matches(fields(payload@), p.0, p.1),
        r is Ok <==> num_at(fields(payload@), 0, 0, 255) is Some && rc_at(fields(payload@), 1),
{
    let fs = split_fields(payload);
    let id = decode_num_at(&fs, 0, 0, 255)?;
    let c = decode_num_at(&fs, 1, -128, 127)?;
    match MQTTStatusCode::from_code(c) {
        Some(rc) => Ok((id as u8, rc)),
        None => Err(CodecError::UnknownEnum(1)),
    }
}

impl Connected {
    /// Reads the payload of a connection report.
    pub fn decode(payload: &[u8]) -> (r: Result<Connected, CodecError>)
        ensures
            r matches Ok(c) ==> id_rc_matches(fields(payload@), c.id, c.rc),
            r is Ok <==> num_at(fields(payload@), 0, 0, 255) is Some && rc_at(fields(payload@), 1),
    {
        let (id, rc) = decode_id_rc(payload)?;
        Ok(Connected { id, rc })
    }
}

/// A disconnection report (`+SQNSMQTTONDISCONNECT: <id>,<rc>`).
#[derive(Clone, Copy, Debug, PartialEq, Eq, Structural)]
pub struct Disconnected {
    pub id: u8,
    pub rc: MQTTStatusCode,
}

impl Disconnected {
    /// Reads the payload of a disconnection report.
    pub fn decode(payload: &[u8]) -> (r: Result<Disconnected, CodecError>)
        ensures
            r matches Ok(c) ==> id_rc_matches(fields(payload@), c.id, c.rc),
            r is Ok <==> num_at(fields(payload@), 0, 0, 255) is Some && rc_at(fields(payload@), 1),
    {
        let (id, rc) = decode_id_rc(payload)?;
        Ok(Disconnected { id, rc })
    }
}

/// A publication report (`+SQNSMQTTONPUBLISH: <id>,<pmid>,<rc>`).
#[derive(Clone, Copy, Debug, PartialEq, Eq, Structural)]
pub struct PublishResponse {
    pub id: u8,
    pub pmid: u16,
    pub rc: MQTTStatusCode,
}

impl PublishResponse {
    /// Reads the payload of a publication report.
    pub fn decode(payload: &[u8]) -> (r: Result<PublishResponse, CodecError>)
        ensures
            r matches Ok(c) ==> ({
                let fs = fields(payload@);
                num_at(fs, 0, 0, 255) == Some(c.id as int) && num_at(fs, 1, 0, 65535) == Some(
                    c.pmid as int,
                ) && num_at(fs, 2, -128, 127) == Some(c.rc.spec_code())
            }),
            r is Ok <==> ({
                let fs = fields(payload@);
                num_at(fs, 0, 0, 255) is Some && num_at(fs, 1, 0, 65535) is Some && rc_at(fs, 2)
            }),
    {
        let fs = split_fields(payload);
        let id = decode_num_at(&fs, 0, 0, 255)?;
        let pmid = decode_num_at(&fs, 1, 0, 65535)?;
        let c = decode_num_at(&fs, 2, -128, 127)?;
        match MQTTStatusCode::from_code(c) {
            Some(rc) => Ok(PublishResponse { id: id as u8, pmid: pmid as u16, rc }),
            None => Err(CodecError::UnknownEnum(2)),
        }
    }
}

/// A message report (`+SQNSMQTTONMESSAGE`): a message waits to be received.
#[derive(Clone, Debug, PartialEq, Eq)]
pub struct Received {
    pub id: u8,
    /// At most 256 bytes.
    pub topic: Vec<u8>,
    pub msg_length: u16,
    pub qos: Qos,
    pub mid: Option<u16>,
}

impl Received {
    /// Reads the payload of a message report; the message identifier is
    /// the optional fifth field.
    pub fn decode(payload: &[u8]) -> (r: Result<Received, CodecError>)
        ensures
            r matches Ok(c) ==> ({
                let fs = fields(payload@);
                &&& num_at(fs, 0, 0, 255) == Some(c.id as int)
                &&& str_at(fs, 1) == Some(c.topic@)
                &&& num_at(fs, 2, 0, 65535) == Some(c.msg_length as int)
                &&& num_at(fs, 3, 0, 2) == Some(c.qos.spec_code())
                &&& match c.mid {
                    Some(m) => num_at(fs, 4, 0, 65535) == Some(m as int),
                    None => fs.len() <= 4,
                }
            }),
            r is Ok <==> ({
                let fs = fields(payload@);
                &&& num_at(fs, 0, 0, 255) is Some
                &&& str_at(fs, 1) is Some
                &&& num_at(fs, 2, 0, 65535) is Some
                &&& num_at(fs, 3, 0, 2) is Some
                &&& (fs.len() <= 4 || num_at(fs, 4, 0, 65535) is Some)
            }),
    {
        let fs = split_fields(payload);
        let id = decode_num_at(&fs, 0, 0, 255)?;
        let topic = decode_str_at(&fs, 1)?;
        let len = decode_num_at(&fs, 2, 0, 65535)?;
        let q = decode_num_at(&fs, 3, 0, 2)?;
        let qos = match Qos::from_code(q) {
            Some(v) => v,
            None => {
                assert(Qos::AtMostOnce.spec_code() == 0 && Qos::AtLeastOnce.spec_code() == 1
                    && Qos::ExactlyOnce.spec_code() == 2);
                return Err(CodecError::UnknownEnum(3));
            },
        };
        let mid = if fs.len() > 4 {
            Some(decode_num_at(&fs, 4, 0, 65535)? as u16)
        } else {
            None
        };
        Ok(Received { id: id as u8, topic, msg_length: len as u16, qos, mid })
    }
}

/// A subscription report (`+SQNSMQTTONSUBSCRIBE: <id>,<topic>,<rc>`).
#[derive(Clone, Debug, PartialEq, Eq)]
pub struct Subscribed {
    pub id: u8,
    /// At most 256 bytes.
    pub topic: Vec<u8>,
    pub rc: MQTTStatusCode,
}

impl Subscribed {
    /// Reads the payload of a subscription report.
    pub fn decode(payload: &[u8]) -> (r: Result<Subscribed, CodecError>)
        ensures
            r matches Ok(c) ==> ({
                let fs = fields(payload@);
                num_at(fs, 0, 0, 255) == Some(c.id as int) && str_at(fs, 1) == Some(c.topic@)
                    && num_at(fs, 2, -128, 127) == Some(c.rc.spec_code())
            }),
            r is Ok <==> ({
                let fs = fields(payload@);
                num_at(fs, 0, 0, 255) is Some && str_at(fs, 1) is Some && rc_at(fs, 2)
            }),
    {
        let fs = split_fields(payload);
        let id = decode_num_at(&fs, 0, 0, 255)?;
        let topic = decode_str_at(&fs, 1)?;
        let c = decode_num_at(&fs, 2, -128, 127)?;
        match MQTTStatusCode::from_code(c) {
            Some(rc) => Ok(Subscribed { id: id as u8, topic, rc }),
            None => Err(CodecError::UnknownEnum(2)),
        }
    }
}

/// The prompt for a payload, reported as `+SQNSMQTTPUBLISH: <pmid>`.
#[derive(Clone, Copy, Debug, PartialEq, Eq, Structural)]
pub struct PromptToPublish {
    pub pmid: u8,
}

impl PromptToPublish {
    /// Reads the payload of a prompt.
    pub fn decode(payload: &[u8]) -> (r: Result<PromptToPublish, CodecError>)
        ensures
            r matches Ok(c) ==> num_at(fields(payload@), 0, 0, 255) == Some(c.pmid as int),
            r is Err ==> num_at(fields(payload@), 0, 0, 255) is None,
    {
        let fs = split_fields(payload);
        let pmid = decode_num_at(&fs, 0, 0, 255)?;
        Ok(PromptToPublish { pmid: pmid as u8 })
    }
}

/// Receives a waiting message.
#[derive(Clone, Debug, PartialEq, Eq)]
pub struct Receive {
    pub id: u8,
    /// At most 256 bytes.
    pub topic: Vec<u8>,
    pub mid: Option<u16>,
    pub max_length: Option<u16>,
}

impl Receive {
    /// The command line: `AT+SQNSMQTTRCVMESSAGE` and the arguments.
    pub fn encode(&self) -> (r: Vec<u8>)
        ensures
            r@ == at_line(
                "+SQNSMQTTRCVMESSAGE".spec_bytes(),
                seq![
                    ArgV::Int(self.id as int),
                    ArgV::Str(self.topic@),
                    match self.mid {
                        Some(v) => ArgV::Int(v as int),
                        None => ArgV::Absent,
                    },
                    match self.max_length {
                        Some(v) => ArgV::Int(v as int),
                        None => ArgV::Absent,
                    },
                ],
            ),
    {
        let args: Vec<Arg> = vec![
            Arg::Int(self.id as i128),
            Arg::Str(to_vec(self.topic.as_slice())),
            match self.mid {
                Some(v) => Arg::Int(v as i128),
                None => Arg::Absent,
            },
            match self.max_length {
                Some(v) => Arg::Int(v as i128),
                None => Arg::Absent,
            },
        ];
        let r = encode_at("+SQNSMQTTRCVMESSAGE", &args);
        assert(arg_views(args@) =~= seq![
            ArgV::Int(self.id as int),
            ArgV::Str(self.topic@),
            match self.mid {
                Some(v) => ArgV::Int(v as int),
                None => ArgV::Absent,
            },
            match self.max_length {
                Some(v) => ArgV::Int(v as int),
                None => ArgV::Absent,
            },
        ]);
        r
    }
}

/// Subscribes to a topic.
#[derive(Clone, Debug, PartialEq, Eq)]
pub struct Subscribe {
    pub id: u8,
    /// At most 256 bytes.
    pub topic: Vec<u8>,
    pub qos: Option<Qos>,
}

impl Subscribe {
    /// The command line: `AT+SQNSMQTTSUBSCRIBE` and the arguments.
    pub fn encode(&self) -> (r: Vec<u8>)
        ensures
            r@ == at_line(
                "+SQNSMQTTSUBSCRIBE".spec_bytes(),
                seq![
                    ArgV::Int(self.id as int),
                    ArgV::Str(self.topic@),
                    match self.qos {
                        Some(v) => ArgV::Int(v.spec_code()),
                        None => ArgV::Absent,
                    },
                ],
            ),
    {
        let args: Vec<Arg> = vec![
            Arg::Int(self.id as i128),
            Arg::Str(to_vec(self.topic.as_slice())),
            match self.qos {
                Some(v) => Arg::Int(v.code() as i128),
                None => Arg::Absent,
            },
        ];
        let r = encode_at("+SQNSMQTTSUBSCRIBE", &args);
        assert(arg_views(args@) =~= seq![
            ArgV::Int(self.id as int),
            ArgV::Str(self.topic@),
            match self.qos {
                Some(v) => ArgV::Int(v.spec_code()),
                None => ArgV::Absent,
            },
        ]);
        r
    }
}

} // verus!
