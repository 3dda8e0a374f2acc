use crate::codec::{fields, num_at, spaces_dropped, starts_with, str_at, without_crlf};
use crate::gnss::{fix_decodable, fix_matches, GnssFixReady};
use crate::types::{Bool, CodecError};
use crate::{coap, mqtt, network};
use vstd::prelude::*;
use vstd::string::StringSliceAdditionalSpecFns;

verus! {

/// Reports that the modem has shut down and is about to restart (`+SHUTDOWN`).
#[derive(Clone, Copy, Debug, PartialEq, Eq, Structural)]
pub struct Shutdown;

/// Reports that the modem has started and is ready (`+SYSSTART`).
#[derive(Clone, Copy, Debug, PartialEq, Eq, Structural)]
pub struct Start;

/// The kinds of unsolicited result codes, one per prefix.
#[derive(Clone, Copy, Debug, PartialEq, Eq, Structural)]
pub enum UrcKind {
    GnssFixReady,
    MqttConnected,
    MqttDisconnected,
    MqttMessagePublished,
    MqttMessageReceived,
    MqttSubscribed,
    MqttPromptToPublish,
    Shutdown,
    Start,
    NetworkRegistrationStatus,
    CoapConnected,
}

impl UrcKind {
    /// The prefix that a record of this kind begins with.
    pub open spec fn spec_tag(self) -> Seq<u8> {
        match self {
            UrcKind::GnssFixReady => "+LPGNSSFIXREADY".spec_bytes(),
            UrcKind::MqttConnected => "+SQNSMQTTONCONNECT".spec_bytes(),
            UrcKind::MqttDisconnected => "+SQNSMQTTONDISCONNECT".spec_bytes(),
            UrcKind::MqttMessagePublished => "+SQNSMQTTONPUBLISH".spec_bytes(),
            UrcKind::MqttMessageReceived => "+SQNSMQTTONMESSAGE".spec_bytes(),
            UrcKind::MqttSubscribed => "+SQNSMQTTONSUBSCRIBE".spec_bytes(),
            UrcKind::MqttPromptToPublish => "+SQNSMQTTPUBLISH".spec_bytes(),
            UrcKind::Shutdown => "+SHUTDOWN".spec_bytes(),
            UrcKind::Start => "+SYSSTART".spec_bytes(),
            UrcKind::NetworkRegistrationStatus => "+CEREG".spec_bytes(),
            UrcKind::CoapConnected => "+SQNCOAPCONNECTED".spec_bytes(),
        }
    }

    pub fn tag(&self) -> (r: &'static str)
        ensures
            r.spec_bytes() == self.spec_tag(),
    {
        match self {
            UrcKind::GnssFixReady => "+LPGNSSFIXREADY",
            UrcKind::MqttConnected => "+SQNSMQTTONCONNECT",
            UrcKind::MqttDisconnected => "+SQNSMQTTONDISCONNECT",
            UrcKind::MqttMessagePublished => "+SQNSMQTTONPUBLISH",
            UrcKind::MqttMessageReceived => "+SQNSMQTTONMESSAGE",
            UrcKind::MqttSubscribed => "+SQNSMQTTONSUBSCRIBE",
            UrcKind::MqttPromptToPublish => "+SQNSMQTTPUBLISH",
            UrcKind::Shutdown => "+SHUTDOWN",
            UrcKind::Start => "+SYSSTART",
            UrcKind::NetworkRegistrationStatus => "+CEREG",
            UrcKind::CoapConnected => "+SQNCOAPCONNECTED",
        }
    }
}

/// The prefix table, in the order in which records are matched against it.
pub open spec fn kinds() -> Seq<UrcKind> {
    seq![
        UrcKind::GnssFixReady,
        UrcKind::MqttConnected,
        UrcKind::MqttDisconnected,
        UrcKind::MqttMessagePublished,
        UrcKind::MqttMessageReceived,
        UrcKind::MqttSubscribed,
        UrcKind::MqttPromptToPublish,
        UrcKind::Shutdown,
        UrcKind::Start,
        UrcKind::NetworkRegistrationStatus,
        UrcKind::CoapConnected,
    ]
}

fn kind_at(i: usize) -> (r: UrcKind)
    requires
        i < 11,
    ensures
        r == kinds()[i as int],
{
    if i == 0 {
        UrcKind::GnssFixReady
    } else if i == 1 {
        UrcKind::MqttConnected
    } else if i == 2 {
        UrcKind::MqttDisconnected
    } else if i == 3 {
        UrcKind::MqttMessagePublished
    } else if i == 4 {
        UrcKind::MqttMessageReceived
    } else if i == 5 {
        UrcKind::MqttSubscribed
    } else if i == 6 {
        UrcKind::MqttPromptToPublish
    } else if i == 7 {
        UrcKind::Shutdown
    } else if i == 8 {
        UrcKind::Start
    } else if i == 9 {
        UrcKind::NetworkRegistrationStatus
    } else {
        UrcKind::CoapConnected
    }
}

/// Whether a record is of kind `k`: its prefix, then `:` or the end.
pub open spec fn has_tag(rec: Seq<u8>, k: UrcKind) -> bool {
    let t = k.spec_tag();
    &&& t.len() <= rec.len()
    &&& rec.subrange(0, t.len() as int) == t
    &&& (rec.len() == t.len() || rec[t.len() as int] == 58u8)
}

/// The first kind in the table that a record is of, searching from `i`.
pub open spec fn kind_from(rec: Seq<u8>, i: int) -> Option<UrcKind>
    decreases 11 - i,
{
    if i >= 11 || i < 0 {
        None
    } else if has_tag(rec, kinds()[i]) {
        Some(kinds()[i])
    } else {
        kind_from(rec, i + 1)
    }
}

/// The kind of a record, where its prefix is in the table.
pub open spec fn record_kind(rec: Seq<u8>) -> Option<UrcKind> {
    kind_from(rec, 0)
}

/// What follows the prefix and `:` of a record of kind `k`, from its first
/// non-space byte on.
pub open spec fn payload(rec: Seq<u8>, k: UrcKind) -> Seq<u8> {
    let n = k.spec_tag().len() as int;
    if rec.len() > n {
        spaces_dropped(rec.subrange(n + 1, rec.len() as int))
    } else {
        Seq::empty()
    }
}

/// The bytes of each prefix.
pub open spec fn tag_bytes(k: UrcKind) -> Seq<u8> {
    match k {
        UrcKind::GnssFixReady => seq![43u8, 76u8, 80u8, 71u8, 78u8, 83u8, 83u8, 70u8, 73u8, 88u8, 82u8, 69u8, 65u8, 68u8, 89u8],
        UrcKind::MqttConnected => seq![43u8, 83u8, 81u8, 78u8, 83u8, 77u8, 81u8, 84u8, 84u8, 79u8, 78u8, 67u8, 79u8, 78u8, 78u8, 69u8, 67u8, 84u8],
        UrcKind::MqttDisconnected => seq![43u8, 83u8, 81u8, 78u8, 83u8, 77u8, 81u8, 84u8, 84u8, 79u8, 78u8, 68u8, 73u8, 83u8, 67u8, 79u8, 78u8, 78u8, 69u8, 67u8, 84u8],
        UrcKind::MqttMessagePublished => seq![43u8, 83u8, 81u8, 78u8, 83u8, 77u8, 81u8, 84u8, 84u8, 79u8, 78u8, 80u8, 85u8, 66u8, 76u8, 73u8, 83u8, 72u8],
        UrcKind::MqttMessageReceived => seq![43u8, 83u8, 81u8, 78u8, 83u8, 77u8, 81u8, 84u8, 84u8, 79u8, 78u8, 77u8, 69u8, 83u8, 83u8, 65u8, 71u8, 69u8],
        UrcKind::MqttSubscribed => seq![43u8, 83u8, 81u8, 78u8, 83u8, 77u8, 81u8, 84u8, 84u8, 79u8, 78u8, 83u8, 85u8, 66u8, 83u8, 67u8, 82u8, 73u8, 66u8, 69u8],
        UrcKind::MqttPromptToPublish => seq![43u8, 83u8, 81u8, 78u8, 83u8, 77u8, 81u8, 84u8, 84u8, 80u8, 85u8, 66u8, 76u8, 73u8, 83u8, 72u8],
        UrcKind::Shutdown => seq![43u8, 83u8, 72u8, 85u8, 84u8, 68u8, 79u8, 87u8, 78u8],
        UrcKind::Start => seq![43u8, 83u8, 89u8, 83u8, 83u8, 84u8, 65u8, 82u8, 84u8],
        UrcKind::NetworkRegistrationStatus => seq![43u8, 67u8, 69u8, 82u8, 69u8, 71u8],
        UrcKind::CoapConnected => seq![43u8, 83u8, 81u8, 78u8, 67u8, 79u8, 65u8, 80u8, 67u8, 79u8, 78u8, 78u8, 69u8, 67u8, 84u8, 69u8, 68u8],
    }
}

proof fn lemma_tag_bytes(k: UrcKind)
    ensures
        k.spec_tag() == tag_bytes(k),
{
    match k {
        UrcKind::GnssFixReady => {
            reveal_strlit("+LPGNSSFIXREADY");
            vstd::string::is_ascii_spec_bytes("+LPGNSSFIXREADY");
            assert(k.spec_tag() =~= seq![43u8, 76u8, 80u8, 71u8, 78u8, 83u8, 83u8, 70u8, 73u8, 88u8, 82u8, 69u8, 65u8, 68u8, 89u8]);
        },
        UrcKind::MqttConnected => {
            reveal_strlit("+SQNSMQTTONCONNECT");
            vstd::string::is_ascii_spec_bytes("+SQNSMQTTONCONNECT");
            assert(k.spec_tag() =~= seq![43u8, 83u8, 81u8, 78u8, 83u8, 77u8, 81u8, 84u8, 84u8, 79u8, 78u8, 67u8, 79u8, 78u8, 78u8, 69u8, 67u8, 84u8]);
        },
        UrcKind::MqttDisconnected => {
            reveal_strlit("+SQNSMQTTONDISCONNECT");
            vstd::string::is_ascii_spec_bytes("+SQNSMQTTONDISCONNECT");
            assert(k.spec_tag() =~= seq![43u8, 83u8, 81u8, 78u8, 83u8, 77u8, 81u8, 84u8, 84u8, 79u8, 78u8, 68u8, 73u8, 83u8, 67u8, 79u8, 78u8, 78u8, 69u8, 67u8, 84u8]);
        },
        UrcKind::MqttMessagePublished => {
            reveal_strlit("+SQNSMQTTONPUBLISH");
            vstd::string::is_ascii_spec_bytes("+SQNSMQTTONPUBLISH");
            assert(k.spec_tag() =~= seq![43u8, 83u8, 81u8, 78u8, 83u8, 77u8, 81u8, 84u8, 84u8, 79u8, 78u8, 80u8, 85u8, 66u8, 76u8, 73u8, 83u8, 72u8]);
        },
        UrcKind::MqttMessageReceived => {
            reveal_strlit("+SQNSMQTTONMESSAGE");
            vstd::string::is_ascii_spec_bytes("+SQNSMQTTONMESSAGE");
            assert(k.spec_tag() =~= seq![43u8, 83u8, 81u8, 78u8, 83u8, 77u8, 81u8, 84u8, 84u8, 79u8, 78u8, 77u8, 69u8, 83u8, 83u8, 65u8, 71u8, 69u8]);
        },
        UrcKind::MqttSubscribed => {
            reveal_strlit("+SQNSMQTTONSUBSCRIBE");
            vstd::string::is_ascii_spec_bytes("+SQNSMQTTONSUBSCRIBE");
            assert(k.spec_tag() =~= seq![43u8, 83u8, 81u8, 78u8, 83u8, 77u8, 81u8, 84u8, 84u8, 79u8, 78u8, 83u8, 85u8, 66u8, 83u8, 67u8, 82u8, 73u8, 66u8, 69u8]);
        },
        UrcKind::MqttPromptToPublish => {
            reveal_strlit("+SQNSMQTTPUBLISH");
            vstd::string::is_ascii_spec_bytes("+SQNSMQTTPUBLISH");
            assert(k.spec_tag() =~= seq![43u8, 83u8, 81u8, 78u8, 83u8, 77u8, 81u8, 84u8, 84u8, 80u8, 85u8, 66u8, 76u8, 73u8, 83u8, 72u8]);
        },
        UrcKind::Shutdown => {
            reveal_strlit("+SHUTDOWN");
            vstd::string::is_ascii_spec_bytes("+SHUTDOWN");
            assert(k.spec_tag() =~= seq![43u8, 83u8, 72u8, 85u8, 84u8, 68u8, 79u8, 87u8, 78u8]);
        },
        UrcKind::Start => {
            reveal_strlit("+SYSSTART");
            vstd::string::is_ascii_spec_bytes("+SYSSTART");
            assert(k.spec_tag() =~= seq![43u8, 83u8, 89u8, 83u8, 83u8, 84u8, 65u8, 82u8, 84u8]);
        },
        UrcKind::NetworkRegistrationStatus => {
            reveal_strlit("+CEREG");
            vstd::string::is_ascii_spec_bytes("+CEREG");
            assert(k.spec_tag() =~= seq![43u8, 67u8, 69u8, 82u8, 69u8, 71u8]);
        },
        UrcKind::CoapConnected => {
            reveal_strlit("+SQNCOAPCONNECTED");
            vstd::string::is_ascii_spec_bytes("+SQNCOAPCONNECTED");
            assert(k.spec_tag() =~= seq![43u8, 83u8, 81u8, 78u8, 67u8, 79u8, 65u8, 80u8, 67u8, 79u8, 78u8, 78u8, 69u8, 67u8, 84u8, 69u8, 68u8]);
        },
    }
}

proof fn lemma_tags_unambiguous(rec: Seq<u8>, k1: UrcKind, k2: UrcKind)
    requires
        has_tag(rec, k1),
        has_tag(rec, k2),
    ensures
        k1 == k2,
{
    lemma_tag_bytes(k1);
    lemma_tag_bytes(k2);
    let t1 = k1.spec_tag();
    let t2 = k2.spec_tag();
    if t1.len() < t2.len() {
        assert(rec.subrange(0, t2.len() as int)[t1.len() as int] == rec[t1.len() as int]);
        assert(rec[t1.len() as int] == 58u8);
        assert(false);
    } else if t2.len() < t1.len() {
        assert(rec.subrange(0, t1.len() as int)[t2.len() as int] == rec[t2.len() as int]);
        assert(rec[t2.len() as int] == 58u8);
        assert(false);
    } else {
        assert(t1 == t2);
        assert(t1[2] == t2[2] && t1[11] == t2[11]);
    }
}

proof fn lemma_kind_from_tags(rec: Seq<u8>, i: int)
    requires
        kind_from(rec, i) is Some,
    ensures
        has_tag(rec, kind_from(rec, i).unwrap()),
    decreases 11 - i,
{
    if !has_tag(rec, kinds()[i]) {
        lemma_kind_from_tags(rec, i + 1);
    }
}

proof fn lemma_kind_from_finds(rec: Seq<u8>, k: UrcKind, i: int, j: int)
    requires
        has_tag(rec, k),
        0 <= i <= j < 11,
        kinds()[j] == k,
    ensures
        kind_from(rec, i) == Some(k),
    decreases j - i,
{
    if has_tag(rec, kinds()[i]) {
        lemma_tags_unambiguous(rec, k, kinds()[i]);
    } else {
        lemma_kind_from_finds(rec, k, i + 1, j);
    }
}

/// A record's kind is decided by its prefix alone: a record is of kind `k`
/// exactly where it begins with `k`'s prefix followed by `:` or its end, so
/// each record gives at most one kind, whatever the order of the table.
pub proof fn law_prefix_decides_kind(rec: Seq<u8>, k: UrcKind)
    ensures
        record_kind(rec) == Some(k) <==> has_tag(rec, k),
{
    if record_kind(rec) == Some(k) {
        lemma_kind_from_tags(rec, 0);
    }
    if has_tag(rec, k) {
        let j: int = match k {
            UrcKind::GnssFixReady => 0,
            UrcKind::MqttConnected => 1,
            UrcKind::MqttDisconnected => 2,
            UrcKind::MqttMessagePublished => 3,
            UrcKind::MqttMessageReceived => 4,
            UrcKind::MqttSubscribed => 5,
            UrcKind::MqttPromptToPublish => 6,
            UrcKind::Shutdown => 7,
            UrcKind::Start => 8,
            UrcKind::NetworkRegistrationStatus => 9,
            UrcKind::CoapConnected => 10,
        };
        lemma_kind_from_finds(rec, k, 0, j);
    }
}

/// Whether the payload `p` of a record of kind `k` can be read.
pub open spec fn payload_decodes(k: UrcKind, p: Seq<u8>) -> bool {
    let fs = fields(p);
    match k {
        UrcKind::GnssFixReady => fix_decodable(fields(without_crlf(p))),
        UrcKind::MqttConnected => num_at(fs, 0, 0, 255) is Some && mqtt::rc_at(fs, 1),
        UrcKind::MqttDisconnected => num_at(fs, 0, 0, 255) is Some && mqtt::rc_at(fs, 1),
        UrcKind::MqttMessagePublished => num_at(fs, 0, 0, 255) is Some && num_at(fs, 1, 0, 65535) is Some
            && mqtt::rc_at(fs, 2),
        UrcKind::MqttMessageReceived => {
            &&& num_at(fs, 0, 0, 255) is Some
            &&& str_at(fs, 1) is Some
            &&& num_at(fs, 2, 0, 65535) is Some
            &&& num_at(fs, 3, 0, 2) is Some
            &&& (fs.len() <= 4 || num_at(fs, 4, 0, 65535) is Some)
        },
        UrcKind::MqttSubscribed => num_at(fs, 0, 0, 255) is Some && str_at(fs, 1) is Some && mqtt::rc_at(
            fs,
            2,
        ),
        UrcKind::MqttPromptToPublish => num_at(fs, 0, 0, 255) is Some,
        UrcKind::Shutdown => true,
        UrcKind::Start => true,
        UrcKind::NetworkRegistrationStatus => (num_at(fs, 0, 0, 255) matches Some(c) && exists|
            v: network::NetworkRegistrationState,
        | v.spec_code() == c),
        UrcKind::CoapConnected => {
            &&& num_at(fs, 0, 0, 255) is Some
            &&& str_at(fs, 1) is Some
            &&& num_at(fs, 2, 0, 65535) is Some
            &&& num_at(fs, 3, 0, 65535) is Some
            &&& num_at(fs, 4, 0, 1) is Some
        },
    }
}

/// An unsolicited result code.
#[derive(Clone, Debug, PartialEq, Eq)]
pub enum Urc {
    GnssFixReady(GnssFixReady),
    MqttConnected(mqtt::Connected),
    MqttDisconnected(mqtt::Disconnected),
    MqttMessagePublished(mqtt::PublishResponse),
    MqttMessageReceived(mqtt::Received),
    MqttSubscribed(mqtt::Subscribed),
    MqttPromptToPublish(mqtt::PromptToPublish),
    /// The modem has shut down and is about to restart.
    Shutdown,
    /// The modem has started and is ready.
    Start,
    NetworkRegistrationStatus(network::NetworkRegistrationStatus),
    CoapConnected(coap::Connected),
}

/// Why no frame could be taken from the front of a buffer.
#[derive(Clone, Copy, Debug, PartialEq, Eq, Structural)]
pub enum ParseError {
    /// No result code of the table begins the buffer.
    NoMatch,
    /// One begins it, but its line has not ended yet.
    Incomplete,
}

impl Urc {
    pub open spec fn kind(self) -> UrcKind {
        match self {
            Urc::GnssFixReady(_) => UrcKind::GnssFixReady,
            Urc::MqttConnected(_) => UrcKind::MqttConnected,
            Urc::MqttDisconnected(_) => UrcKind::MqttDisconnected,
            Urc::MqttMessagePublished(_) => UrcKind::MqttMessagePublished,
            Urc::MqttMessageReceived(_) => UrcKind::MqttMessageReceived,
            Urc::MqttSubscribed(_) => UrcKind::MqttSubscribed,
            Urc::MqttPromptToPublish(_) => UrcKind::MqttPromptToPublish,
            Urc::Shutdown => UrcKind::Shutdown,
            Urc::Start => UrcKind::Start,
            Urc::NetworkRegistrationStatus(_) => UrcKind::NetworkRegistrationStatus,
            Urc::CoapConnected(_) => UrcKind::CoapConnected,
        }
    }

    /// Whether `self` is what the payload `p` of its kind reads as.
    pub open spec fn reads_from(self, p: Seq<u8>) -> bool {
        let fs = fields(p);
        match self {
            Urc::GnssFixReady(f) => fix_matches(fields(without_crlf(p)), f),
            Urc::MqttConnected(c) => mqtt::id_rc_matches(fs, c.id, c.rc),
            Urc::MqttDisconnected(c) => mqtt::id_rc_matches(fs, c.id, c.rc),
            Urc::MqttMessagePublished(c) => num_at(fs, 0, 0, 255) == Some(c.id as int) && num_at(
                fs,
                1,
                0,
                65535,
            ) == Some(c.pmid as int) && num_at(fs, 2, -128, 127) == Some(c.rc.spec_code()),
            Urc::MqttMessageReceived(c) => {
                &&& num_at(fs, 0, 0, 255) == Some(c.id as int)
                &&& str_at(fs, 1) == Some(c.topic@)
                &&& num_at(fs, 2, 0, 65535) == Some(c.msg_length as int)
                &&& num_at(fs, 3, 0, 2) == Some(c.qos.spec_code())
                &&& match c.mid {
                    Some(m) => num_at(fs, 4, 0, 65535) == Some(m as int),
                    None => fs.len() <= 4,
                }
            },
            Urc::MqttSubscribed(c) => num_at(fs, 0, 0, 255) == Some(c.id as int) && str_at(fs, 1)
                == Some(c.topic@) && num_at(fs, 2, -128, 127) == Some(c.rc.spec_code()),
            Urc::MqttPromptToPublish(c) => num_at(fs, 0, 0, 255) == Some(c.pmid as int),
            Urc::Shutdown => true,
            Urc::Start => true,
            Urc::NetworkRegistrationStatus(st) => num_at(fs, 0, 0, 255) == Some(st.stat.spec_code()),
            Urc::CoapConnected(c) => {
                &&& num_at(fs, 0, 0, 255) == Some(c.id as int)
                &&& str_at(fs, 1) == Some(c.server_address@)
                &&& num_at(fs, 2, 0, 65535) == Some(c.port as int)
                &&& num_at(fs, 3, 0, 65535) == Some(c.local_port as int)
                &&& num_at(fs, 4, 0, 1) == Some(if c.dtls_enabled == Bool::True { 1int } else { 0 })
            },
        }
    }

    /// The kind of a record: the first prefix of the table that it begins
    /// with, followed by `:` or the end of the record.
    pub fn kind_of(rec: &[u8]) -> (r: Option<UrcKind>)
        ensures
            r == record_kind(rec@),
    {
        let mut i: usize = 0;
        while i < 11
            invariant
                i <= 11,
                record_kind(rec@) == kind_from(rec@, i as int),
            decreases 11 - i,
        {
            let k = kind_at(i);
            let t = k.tag().as_bytes();
            if starts_with(rec, t) && (rec.len() == t.len() || rec[t.len()] == 58) {
                return Some(k);
            }
            i = i + 1;
        }
        None
    }

    /// Decodes a record (a line without its line ending). A record whose
    /// prefix is not in the table gives nothing; one whose prefix is gives
    /// one value of that prefix's kind, or the error of its payload.
    pub fn from_record(rec: &[u8]) -> (r: Option<Result<Urc, CodecError>>)
        ensures
            record_kind(rec@) is None ==> r is None,
            record_kind(rec@) matches Some(k) ==> (r matches Some(res) && (res matches Ok(u) ==> u.kind()
                == k && u.reads_from(payload(rec@, k))) && (res is Err ==> !payload_decodes(
                k,
                payload(rec@, k),
            ))),
    {
        let k = match Urc::kind_of(rec) {
            Some(k) => k,
            None => {
                return None;
            },
        };
        let n = k.tag().as_bytes().len();
        let mut start: usize = if rec.len() > n {
            n + 1
        } else {
            rec.len()
        };
        let ghost after = if rec@.len() > n {
            rec@.subrange(n + 1, rec@.len() as int)
        } else {
            Seq::<u8>::empty()
        };
        assert(rec@.subrange(start as int, rec@.len() as int) =~= after);
        while start < rec.len() && rec[start] == 32
            invariant
                start <= rec@.len(),
                spaces_dropped(after) == spaces_dropped(rec@.subrange(start as int, rec@.len() as int)),
            decreases rec@.len() - start,
        {
            assert(rec@.subrange(start as int, rec@.len() as int).drop_first() =~= rec@.subrange(
                start + 1,
                rec@.len() as int,
            ));
            start = start + 1;
        }
        let p = rec.split_at(start).1;
        assert(p@ =~= rec@.subrange(start as int, rec@.len() as int));
        assert(p@ == payload(rec@, k));
        let res = match k {
            UrcKind::GnssFixReady => match GnssFixReady::decode(p) {
                Ok(v) => Ok(Urc::GnssFixReady(v)),
                Err(e) => Err(e),
            },
            UrcKind::MqttConnected => match mqtt::Connected::decode(p) {
                Ok(v) => Ok(Urc::MqttConnected(v)),
                Err(e) => Err(e),
            },
            UrcKind::MqttDisconnected => match mqtt::Disconnected::decode(p) {
                Ok(v) => Ok(Urc::MqttDisconnected(v)),
                Err(e) => Err(e),
            },
            UrcKind::MqttMessagePublished => match mqtt::PublishResponse::decode(p) {
                Ok(v) => Ok(Urc::MqttMessagePublished(v)),
                Err(e) => Err(e),
            },
            UrcKind::MqttMessageReceived => match mqtt::Received::decode(p) {
                Ok(v) => Ok(Urc::MqttMessageReceived(v)),
                Err(e) => Err(e),
            },
            UrcKind::MqttSubscribed => match mqtt::Subscribed::decode(p) {
                Ok(v) => Ok(Urc::MqttSubscribed(v)),
                Err(e) => Err(e),
            },
            UrcKind::MqttPromptToPublish => match mqtt::PromptToPublish::decode(p) {
                Ok(v) => Ok(Urc::MqttPromptToPublish(v)),
                Err(e) => Err(e),
            },
            UrcKind::Shutdown => Ok(Urc::Shutdown),
            UrcKind::Start => Ok(Urc::Start),
            UrcKind::NetworkRegistrationStatus => match network::NetworkRegistrationStatus::decode(p) {
                Ok(v) => Ok(Urc::NetworkRegistrationStatus(v)),
                Err(e) => Err(e),
            },
            UrcKind::CoapConnected => match coap::Connected::decode(p) {
                Ok(v) => Ok(Urc::CoapConnected(v)),
                Err(e) => Err(e),
            },
        };
        Some(res)
    }
}

/// The length of the line ending that begins `buf`: 2 for `\r\n`, 1 for `\n`, else 0.
pub open spec fn line_ending_len(buf: Seq<u8>) -> int {
    if buf.len() >= 2 && buf[0] == 13u8 && buf[1] == 10u8 {
        2
    } else if buf.len() >= 1 && buf[0] == 10u8 {
        1
    } else {
        0
    }
}

/// The first position from `i` on where `\r\n` starts in `s`.
pub open spec fn crlf_from(s: Seq<u8>, i: int) -> Option<int>
    decreases s.len() - i,
{
    if i < 0 || i + 1 >= s.len() {
        None
    } else if s[i] == 13u8 && s[i + 1] == 10u8 {
        Some(i)
    } else {
        crlf_from(s, i + 1)
    }
}

/// Whether `rest` begins with the prefix of `k`, then `:` or `\r\n`.
pub open spec fn starts_record(rest: Seq<u8>, k: UrcKind) -> bool {
    let t = k.spec_tag();
    &&& t.len() < rest.len()
    &&& rest.subrange(0, t.len() as int) == t
    &&& (rest[t.len() as int] == 58u8 || (t.len() + 1 < rest.len() && rest[t.len() as int] == 13u8
        && rest[t.len() + 1int] == 10u8))
}

/// The first kind in the table whose record begins `rest`, searching from `i`.
pub open spec fn start_kind_from(rest: Seq<u8>, i: int) -> Option<UrcKind>
    decreases 11 - i,
{
    if i >= 11 || i < 0 {
        None
    } else if starts_record(rest, kinds()[i]) {
        Some(kinds()[i])
    } else {
        start_kind_from(rest, i + 1)
    }
}

/// The frame at the front of a buffer: a line ending, then a record of the
/// table up to and including its `\r\n`. It gives the record without its
/// line endings and the number of bytes the frame takes.
pub open spec fn frame(buf: Seq<u8>) -> Result<(Seq<u8>, int), ParseError> {
    let le = line_ending_len(buf);
    let rest = buf.subrange(le, buf.len() as int);
    if le == 0 {
        Err(ParseError::NoMatch)
    } else {
        match start_kind_from(rest, 0) {
            None => Err(ParseError::NoMatch),
            Some(k) => match crlf_from(rest, k.spec_tag().len() as int) {
                Some(j) => Ok((rest.subrange(0, j), le + j + 2)),
                None => Err(ParseError::Incomplete),
            },
        }
    }
}

proof fn lemma_crlf_from(s: Seq<u8>, i: int)
    requires
        crlf_from(s, i) is Some,
    ensures
        i <= crlf_from(s, i).unwrap(),
        crlf_from(s, i).unwrap() + 1 < s.len(),
    decreases s.len() - i,
{
    if !(s[i] == 13u8 && s[i + 1] == 10u8) {
        lemma_crlf_from(s, i + 1);
    }
}

fn crlf_search(s: &[u8], from: usize) -> (r: Option<usize>)
    ensures
        r matches Some(j) ==> crlf_from(s@, from as int) == Some(j as int),
        r is None ==> crlf_from(s@, from as int) is None,
{
    let mut i: usize = from;
    while i < s.len() && s.len() - i > 1
        invariant
            from <= i,
            crlf_from(s@, from as int) == crlf_from(s@, i as int),
        decreases s@.len() - i,
    {
        if s[i] == 13 && s[i + 1] == 10 {
            return Some(i);
        }
        i = i + 1;
    }
    None
}

impl Urc {
    /// Takes the frame at the front of a buffer: a line ending, a result code
    /// of the table, and the rest of its line. Gives the record, without line
    /// endings, and the number of bytes that the frame takes.
    pub fn parse(buf: &[u8]) -> (r: Result<(Vec<u8>, usize), ParseError>)
        ensures
            r matches Ok(p) ==> frame(buf@) == Ok::<(Seq<u8>, int), ParseError>((p.0@, p.1 as int)),
            r matches Err(e) ==> frame(buf@) == Err::<(Seq<u8>, int), ParseError>(e),
    {
        let le: usize = if buf.len() >= 2 && buf[0] == 13 && buf[1] == 10 {
            2
        } else if buf.len() >= 1 && buf[0] == 10 {
            1
        } else {
            0
        };
        if le == 0 {
            return Err(ParseError::NoMatch);
        }
        let rest = buf.split_at(le).1;
        assert(rest@ =~= buf@.subrange(le as int, buf@.len() as int));
        let mut i: usize = 0;
        while i < 11
            invariant
                i <= 11,
                rest@.len() + le == buf@.len(),
                rest@ == buf@.subrange(le as int, buf@.len() as int),
                le == line_ending_len(buf@),
                le > 0,
                start_kind_from(rest@, 0) == start_kind_from(rest@, i as int),
            decreases 11 - i,
        {
            let k = kind_at(i);
            let t = k.tag().as_bytes();
            let n = t.len();
            if n < rest.len() && starts_with(rest, t) && (rest[n] == 58 || (n + 1 < rest.len() && rest[n] == 13 && rest[n + 1] == 10)) {
                assert(t@ == k.spec_tag());
                assert(start_kind_from(rest@, i as int) == Some(k)) by {
                    assert(starts_record(rest@, kinds()[i as int]));
                }
                assert(frame(buf@) == match crlf_from(rest@, n as int) {
                    Some(j) => Ok((rest@.subrange(0, j), le + j + 2)),
                    None => Err(ParseError::Incomplete),
                });
                match crlf_search(rest, n) {
                    Some(j) => {
                        proof {
                            lemma_crlf_from(rest@, n as int);
                        }
                        let head = rest.split_at(j).0;
                        assert(head@ =~= rest@.subrange(0, j as int));
                        let rec = crate::codec::to_vec(head);
                        let consumed = buf.len() - (rest.len() - j - 2);
                        return Ok((rec, consumed));
                    },
                    None => {
                        return Err(ParseError::Incomplete);
                    },
                }
            }
            i = i + 1;
        }
        Err(ParseError::NoMatch)
    }
}

} // verus!
