use crate::codec::{
    arg_views, at_line, decode_int, decode_num_at, decode_str, decode_str_at, encode_at, fields, int_field, quote_bytes, quoted,
    num_at, split_fields, starts_with, str_at, to_vec, trim_crlf, unquote, views, without_crlf, Arg,
    ArgV,
};
use crate::types::{bool_bytes, Bool, CodecError, Reserved};
use vstd::prelude::*;
use vstd::string::StringSliceAdditionalSpecFns;

verus! {

/// Where the position is computed.
#[derive(Clone, Copy, Debug, PartialEq, Eq, Structural)]
pub enum LocationMode {
    /// On the device, with error estimates.
    OnDeviceLocation,
    Disabled,
}

impl LocationMode {
    /// The number that stands for the value on the wire.
    pub open spec fn spec_code(self) -> int {
        match self {
            LocationMode::OnDeviceLocation => 0,
            LocationMode::Disabled => 1,
        }
    }

    pub fn code(&self) -> (r: i64)
        ensures
            r == self.spec_code(),
    {
        match self {
            LocationMode::OnDeviceLocation => 0,
            LocationMode::Disabled => 1,
        }
    }

    /// The value that a wire number stands for, if any.
    pub fn from_code(c: i64) -> (r: Option<Self>)
        ensures
            r matches Some(v) ==> v.spec_code() == c,
            r is None ==> forall|v: Self| v.spec_code() != c,
    {
        if c == 0 {
            Some(LocationMode::OnDeviceLocation)
        } else if c == 1 {
            Some(LocationMode::Disabled)
        } else {
            None
        }
    }
}

/// Kind of GNSS assistance data.
#[derive(Clone, Copy, Debug, PartialEq, Eq, Structural)]
pub enum GnssAssitanceType {
    /// Almanac data; not needed where real-time ephemeris data is available.
    Almanac,
    /// Real-time ephemeris data; the fastest fix.
    RealTimeEphemeris,
    /// Predicted ephemeris data.
    PredictedEphemeris,
}

impl GnssAssitanceType {
    /// The number that stands for the value on the wire.
    pub open spec fn spec_code(self) -> int {
        match self {
            GnssAssitanceType::Almanac => 0,
            GnssAssitanceType::RealTimeEphemeris => 1,
            GnssAssitanceType::PredictedEphemeris => 2,
        }
    }

    pub fn code(&self) -> (r: i64)
        ensures
            r == self.spec_code(),
    {
        match self {
            GnssAssitanceType::Almanac => 0,
            GnssAssitanceType::RealTimeEphemeris => 1,
            GnssAssitanceType::PredictedEphemeris => 2,
        }
    }

    /// The value that a wire number stands for, if any.
    pub fn from_code(c: i64) -> (r: Option<Self>)
        ensures
            r matches Some(v) ==> v.spec_code() == c,
            r is None ==> forall|v: Self| v.spec_code() != c,
    {
        if c == 0 {
            Some(GnssAssitanceType::Almanac)
        } else if c == 1 {
            Some(GnssAssitanceType::RealTimeEphemeris)
        } else if c == 2 {
            Some(GnssAssitanceType::PredictedEphemeris)
        } else {
            None
        }
    }
}

/// How long the receiver is on; more sensitivity takes more power.
#[derive(Clone, Copy, Debug, PartialEq, Eq, Structural)]
pub enum FixSensitivity {
    Low,
    Medium,
    High,
}

impl FixSensitivity {
    /// The number that stands for the value on the wire.
    pub open spec fn spec_code(self) -> int {
        match self {
            FixSensitivity::Low => 1,
            FixSensitivity::Medium => 2,
            FixSensitivity::High => 3,
        }
    }

    pub fn code(&self) -> (r: i64)
        ensures
            r == self.spec_code(),
    {
        match self {
            FixSensitivity::Low => 1,
            FixSensitivity::Medium => 2,
            FixSensitivity::High => 3,
        }
    }

    /// The value that a wire number stands for, if any.
    pub fn from_code(c: i64) -> (r: Option<Self>)
        ensures
            r matches Some(v) ==> v.spec_code() == c,
            r is None ==> forall|v: Self| v.spec_code() != c,
    {
        if c == 1 {
            Some(FixSensitivity::Low)
        } else if c == 2 {
            Some(FixSensitivity::Medium)
        } else if c == 3 {
            Some(FixSensitivity::High)
        } else {
            None
        }
    }
}

/// How much a fix report holds.
#[derive(Clone, Copy, Debug, PartialEq, Eq, Structural)]
pub enum UrcNotificationSetting {
    Disabled,
    Short,
    Full,
}

impl UrcNotificationSetting {
    /// The number that stands for the value on the wire.
    pub open spec fn spec_code(self) -> int {
        match self {
            UrcNotificationSetting::Disabled => 0,
            UrcNotificationSetting::Short => 1,
            UrcNotificationSetting::Full => 2,
        }
    }

    pub fn code(&self) -> (r: i64)
        ensures
            r == self.spec_code(),
    {
        match self {
            UrcNotificationSetting::Disabled => 0,
            UrcNotificationSetting::Short => 1,
            UrcNotificationSetting::Full => 2,
        }
    }

    /// The value that a wire number stands for, if any.
    pub fn from_code(c: i64) -> (r: Option<Self>)
        ensures
            r matches Some(v) ==> v.spec_code() == c,
            r is None ==> forall|v: Self| v.spec_code() != c,
    {
        if c == 0 {
            Some(UrcNotificationSetting::Disabled)
        } else if c == 1 {
            Some(UrcNotificationSetting::Short)
        } else if c == 2 {
            Some(UrcNotificationSetting::Full)
        } else {
            None
        }
    }
}

/// Acquisition mode; a hot start needs a position known within 100 km.
#[derive(Clone, Copy, Debug, PartialEq, Eq, Structural)]
pub enum AcquisitionMode {
    ColdWarmStart,
    HotStart,
}

impl AcquisitionMode {
    /// The number that stands for the value on the wire.
    pub open spec fn spec_code(self) -> int {
        match self {
            AcquisitionMode::ColdWarmStart => 0,
            AcquisitionMode::HotStart => 1,
        }
    }

    pub fn code(&self) -> (r: i64)
        ensures
            r == self.spec_code(),
    {
        match self {
            AcquisitionMode::ColdWarmStart => 0,
            AcquisitionMode::HotStart => 1,
        }
    }

    /// The value that a wire number stands for, if any.
    pub fn from_code(c: i64) -> (r: Option<Self>)
        ensures
            r matches Some(v) ==> v.spec_code() == c,
            r is None ==> forall|v: Self| v.spec_code() != c,
    {
        if c == 0 {
            Some(AcquisitionMode::ColdWarmStart)
        } else if c == 1 {
            Some(AcquisitionMode::HotStart)
        } else {
            None
        }
    }
}

/// What an action to program the receiver is written as.
#[derive(Clone, Copy, Debug, PartialEq, Eq, Structural)]
pub enum ProgramGnssAction {
    /// Programs a fix.
    Single,
    /// Cancels a previously programmed fix.
    Stop,
}

impl ProgramGnssAction {
    pub open spec fn spec_literal(self) -> Seq<u8> {
        match self {
            ProgramGnssAction::Single => "single".spec_bytes(),
            ProgramGnssAction::Stop => "stop".spec_bytes(),
        }
    }

    pub fn literal(&self) -> (r: &'static str)
        ensures
            r.spec_bytes() == self.spec_literal(),
    {
        match self {
            ProgramGnssAction::Single => "single",
            ProgramGnssAction::Stop => "stop",
        }
    }

    /// The argument this action is written as: its literal between double quotes.
    pub fn to_arg(&self) -> (r: Arg)
        ensures
            r@ == ArgV::Raw(quoted(self.spec_literal())),
    {
        Arg::Raw(quote_bytes(self.literal().as_bytes()))
    }
}

/// The number a field holds, where it fits an `i32`.
pub open spec fn i32_field(f: Seq<u8>) -> Option<int> {
    match int_field(f) {
        Some(v) => if i32::MIN <= v <= i32::MAX {
            Some(v)
        } else {
            None
        },
        None => None,
    }
}

/// Reads a field that holds an `i32`.
pub fn decode_i32(f: &[u8], pos: usize) -> (r: Result<i32, CodecError>)
    ensures
        r matches Ok(v) ==> i32_field(f@) == Some(v as int),
        r is Err ==> i32_field(f@) is None && r == Err::<i32, CodecError>(CodecError::InvalidField(pos)),
{
    match decode_int(f) {
        Some(v) => if -2147483648 <= v && v <= 2147483647 {
            Ok(v as i32)
        } else {
            Err(CodecError::InvalidField(pos))
        },
        None => Err(CodecError::InvalidField(pos)),
    }
}

/// The details of one kind of assistance data.
#[derive(Clone, Copy, Debug, PartialEq, Eq, Structural)]
pub struct GnssAssistanceTypeDetails {
    /// Which kind of assistance data this is.
    pub typ: GnssAssitanceType,
    /// Whether the data is available.
    pub available: Bool,
    /// Seconds since the data was last downloaded.
    pub last_update: i32,
    /// Seconds before the data becomes stale.
    pub time_to_update: i32,
    /// Seconds before the data becomes unusable.
    pub time_to_expiration: i32,
}

/// The prefix of each assistance record.
pub open spec fn assistance_prefix() -> Seq<u8> {
    "+LPGNSSASSISTANCE: ".spec_bytes()
}

/// What one assistance record reads as: after its prefix, five fields
/// (kind, availability as a modem boolean, last update, time to update,
/// time to expiration), or the error of the first field that does not read.
pub open spec fn details_of(line: Seq<u8>) -> Result<GnssAssistanceTypeDetails, CodecError> {
    let p = assistance_prefix();
    if !(line.len() >= p.len() && line.subrange(0, p.len() as int) == p) {
        Err(CodecError::PrefixMismatch)
    } else {
        let fs = fields(line.subrange(p.len() as int, line.len() as int));
        if fs.len() < 5 {
            Err(CodecError::MissingField(fs.len() as usize))
        } else if int_field(fs[0]) is None {
            Err(CodecError::InvalidField(0))
        } else if fs[1] != bool_bytes(Bool::True) && fs[1] != bool_bytes(Bool::False) {
            Err(CodecError::InvalidField(1))
        } else if i32_field(fs[2]) is None {
            Err(CodecError::InvalidField(2))
        } else if i32_field(fs[3]) is None {
            Err(CodecError::InvalidField(3))
        } else if i32_field(fs[4]) is None {
            Err(CodecError::InvalidField(4))
        } else {
            let t = int_field(fs[0]).unwrap();
            if 0 <= t <= 2 {
                Ok(GnssAssistanceTypeDetails {
                    typ: if t == 0 {
                        GnssAssitanceType::Almanac
                    } else if t == 1 {
                        GnssAssitanceType::RealTimeEphemeris
                    } else {
                        GnssAssitanceType::PredictedEphemeris
                    },
                    available: if fs[1] == bool_bytes(Bool::True) {
                        Bool::True
                    } else {
                        Bool::False
                    },
                    last_update: i32_field(fs[2]).unwrap() as i32,
                    time_to_update: i32_field(fs[3]).unwrap() as i32,
                    time_to_expiration: i32_field(fs[4]).unwrap() as i32,
                })
            } else {
                Err(CodecError::UnknownEnum(0))
            }
        }
    }
}

impl GnssAssistanceTypeDetails {
    /// Reads one `+LPGNSSASSISTANCE: ` record.
    pub fn decode(line: &[u8]) -> (r: Result<GnssAssistanceTypeDetails, CodecError>)
        ensures
            r == details_of(line@),
    {
        let p = "+LPGNSSASSISTANCE: ".as_bytes();
        if !starts_with(line, p) {
            return Err(CodecError::PrefixMismatch);
        }
        let rest = line.split_at(p.len()).1;
        assert(rest@ =~= line@.subrange(p@.len() as int, line@.len() as int));
        let fs = split_fields(rest);
        proof {
            assert(fs@.len() == views(fs@).len());
        }
        if fs.len() < 5 {
            return Err(CodecError::MissingField(fs.len()));
        }
        proof {
            assert forall|k: int| 0 <= k < fs@.len() implies fs@[k]@ == fields(rest@)[k] by {
                assert(views(fs@)[k] == fs@[k]@);
            }
        }
        let t = match decode_int(fs[0].as_slice()) {
            Some(t) => t,
            None => {
                return Err(CodecError::InvalidField(0));
            },
        };
        let available = Bool::decode(fs[1].as_slice(), 1)?;
        let l = decode_i32(fs[2].as_slice(), 2)?;
        let u = decode_i32(fs[3].as_slice(), 3)?;
        let e = decode_i32(fs[4].as_slice(), 4)?;
        if t < 0 || t > 2 {
            return Err(CodecError::UnknownEnum(0));
        }
        let typ = if t == 0 {
            GnssAssitanceType::Almanac
        } else if t == 1 {
            GnssAssitanceType::RealTimeEphemeris
        } else {
            GnssAssitanceType::PredictedEphemeris
        };
        Ok(GnssAssistanceTypeDetails {
            typ,
            available,
            last_update: l,
            time_to_update: u,
            time_to_expiration: e,
        })
    }

    /// Whether this kind of data should be downloaded again: it is missing,
    /// or stale already.
    pub open spec fn spec_needs_update(self) -> bool {
        self.available == Bool::False || self.time_to_update <= 0
    }

    pub fn needs_update(&self) -> (r: bool)
        ensures
            r == self.spec_needs_update(),
    {
        match self.available {
            Bool::False => true,
            Bool::True => self.time_to_update <= 0,
        }
    }
}

/// Splits text into lines at `\n`, dropping a `\r` before it and empty lines;
/// `cur` holds the line so far, `acc` the lines before it.
pub open spec fn lines_from(s: Seq<u8>, i: int, cur: Seq<u8>, acc: Seq<Seq<u8>>) -> Seq<Seq<u8>>
    decreases s.len() - i,
{
    if i >= s.len() {
        if cur.len() > 0 {
            acc.push(cur)
        } else {
            acc
        }
    } else if s[i] == 10u8 {
        if cur.len() > 0 {
            lines_from(s, i + 1, Seq::empty(), acc.push(cur))
        } else {
            lines_from(s, i + 1, Seq::empty(), acc)
        }
    } else if s[i] == 13u8 && i + 1 < s.len() && s[i + 1] == 10u8 {
        lines_from(s, i + 1, cur, acc)
    } else {
        lines_from(s, i + 1, cur.push(s[i]), acc)
    }
}

/// The non-empty lines of a text, without their line endings.
pub open spec fn lines(s: Seq<u8>) -> Seq<Seq<u8>> {
    lines_from(s, 0, Seq::empty(), Seq::empty())
}

/// Splits a text into its non-empty lines.
pub fn split_lines(s: &[u8]) -> (r: Vec<Vec<u8>>)
    ensures
        views(r@) == lines(s@),
{
    let mut acc: Vec<Vec<u8>> = Vec::new();
    let mut cur: Vec<u8> = Vec::new();
    let mut i: usize = 0;
    assert(views(acc@) =~= Seq::<Seq<u8>>::empty());
    assert(cur@ =~= Seq::<u8>::empty());
    while i < s.len()
        invariant
            i <= s@.len(),
            lines(s@) == lines_from(s@, i as int, cur@, views(acc@)),
        decreases s@.len() - i,
    {
        let b = s[i];
        if b == 10 {
            if cur.len() > 0 {
                let ghost before = acc@;
                let done = cur;
                cur = Vec::new();
                acc.push(done);
                assert(views(acc@) =~= views(before).push(done@));
            } else {
                assert(cur@ =~= Seq::<u8>::empty());
            }
        } else if b == 13 && i + 1 < s.len() && s[i + 1] == 10 {
        } else {
            cur.push(b);
        }
        i = i + 1;
    }
    if cur.len() > 0 {
        let ghost before = acc@;
        let last = cur;
        acc.push(last);
        assert(views(acc@) =~= views(before).push(last@));
    }
    acc
}

/// What a multi-line assistance response reads as, record by record, or
/// the error of the first record that does not read.
pub open spec fn assistance_of(ls: Seq<Seq<u8>>) -> Result<Seq<GnssAssistanceTypeDetails>, CodecError>
    decreases ls.len(),
{
    if ls.len() == 0 {
        Ok(Seq::empty())
    } else {
        match assistance_of(ls.drop_last()) {
            Err(e) => Err(e),
            Ok(ds) => match details_of(ls.last()) {
                Ok(d) => Ok(ds.push(d)),
                Err(e) => Err(e),
            },
        }
    }
}

/// The `+LPGNSSASSISTANCE` response: one record per kind of assistance data,
/// in the order the modem sent them.
#[derive(Clone, Debug, PartialEq, Eq)]
pub struct GnssAsssitance(pub Vec<GnssAssistanceTypeDetails>);

impl GnssAsssitance {
    /// Reads a multi-line assistance response into its records, in order.
    pub fn decode(text: &[u8]) -> (r: Result<GnssAsssitance, CodecError>)
        ensures
            r matches Ok(a) ==> assistance_of(lines(text@)) == Ok::<Seq<GnssAssistanceTypeDetails>, CodecError>(a.0@),
            r matches Err(e) ==> assistance_of(lines(text@)) == Err::<Seq<GnssAssistanceTypeDetails>, CodecError>(e),
    {
        let ls = split_lines(text);
        let ghost lv = views(ls@);
        let mut out: Vec<GnssAssistanceTypeDetails> = Vec::new();
        let mut i: usize = 0;
        assert(lv.subrange(0, 0) =~= Seq::<Seq<u8>>::empty());
        assert(out@ =~= Seq::<GnssAssistanceTypeDetails>::empty());
        while i < ls.len()
            invariant
                i <= ls@.len(),
                lv == views(ls@),
                lv == lines(text@),
                assistance_of(lv.subrange(0, i as int)) == Ok::<Seq<GnssAssistanceTypeDetails>, CodecError>(out@),
            decreases ls@.len() - i,
        {
            assert(lv.subrange(0, i + 1).drop_last() =~= lv.subrange(0, i as int));
            assert(lv.subrange(0, i + 1).last() == ls@[i as int]@);
            match GnssAssistanceTypeDetails::decode(ls[i].as_slice()) {
                Ok(d) => {
                    out.push(d);
                },
                Err(e) => {
                    proof {
                        lemma_assistance_error_stays(lv, i + 1);
                    }
                    return Err(e);
                },
            }
            i = i + 1;
        }
        assert(lv.subrange(0, i as int) =~= lv);
        Ok(GnssAsssitance(out))
    }
}

proof fn lemma_assistance_error_stays(ls: Seq<Seq<u8>>, j: int)
    requires
        0 <= j <= ls.len(),
        assistance_of(ls.subrange(0, j)) is Err,
    ensures
        assistance_of(ls) == assistance_of(ls.subrange(0, j)),
    decreases ls.len(),
{
    if j == ls.len() {
        assert(ls.subrange(0, j) =~= ls);
    } else {
        assert(ls.drop_last().subrange(0, j) =~= ls.subrange(0, j));
        lemma_assistance_error_stays(ls.drop_last(), j);
    }
}

/// Whether the records call for new almanac data: the last almanac record
/// decides.
pub open spec fn almanac_update(ds: Seq<GnssAssistanceTypeDetails>) -> bool
    decreases ds.len(),
{
    if ds.len() == 0 {
        false
    } else if ds.last().typ == GnssAssitanceType::Almanac {
        ds.last().spec_needs_update()
    } else {
        almanac_update(ds.drop_last())
    }
}

/// Whether the records call for new real-time ephemeris data: the last
/// real-time ephemeris record decides.
pub open spec fn ephemeris_update(ds: Seq<GnssAssistanceTypeDetails>) -> bool
    decreases ds.len(),
{
    if ds.len() == 0 {
        false
    } else if ds.last().typ == GnssAssitanceType::RealTimeEphemeris {
        ds.last().spec_needs_update()
    } else {
        ephemeris_update(ds.drop_last())
    }
}

/// Which downloads the assistance records call for: almanac, real-time
/// ephemeris. Predicted ephemeris data is only reported.
pub fn check_assistance_data(ds: &Vec<GnssAssistanceTypeDetails>) -> (r: (bool, bool))
    ensures
        r.0 == almanac_update(ds@),
        r.1 == ephemeris_update(ds@),
{
    let mut almanac = false;
    let mut ephemeris = false;
    let mut i: usize = 0;
    assert(ds@.subrange(0, 0) =~= Seq::<GnssAssistanceTypeDetails>::empty());
    while i < ds.len()
        invariant
            i <= ds@.len(),
            almanac == almanac_update(ds@.subrange(0, i as int)),
            ephemeris == ephemeris_update(ds@.subrange(0, i as int)),
        decreases ds@.len() - i,
    {
        let d = ds[i];
        assert(ds@.subrange(0, i + 1).drop_last() =~= ds@.subrange(0, i as int));
        assert(ds@.subrange(0, i + 1).last() == d);
        match d.typ {
            GnssAssitanceType::Almanac => {
                almanac = d.needs_update();
            },
            GnssAssitanceType::RealTimeEphemeris => {
                ephemeris = d.needs_update();
            },
            GnssAssitanceType::PredictedEphemeris => {},
        }
        i = i + 1;
    }
    assert(ds@.subrange(0, i as int) =~= ds@);
    (almanac, ephemeris)
}

/// The receiver's settings, as `+LPGNSSCFG?` reports them.
#[derive(Clone, Copy, Debug, PartialEq, Eq, Structural)]
pub struct GnssConfig {
    pub loc_mode: LocationMode,
    pub fix_sensi: FixSensitivity,
    pub urc_settings: UrcNotificationSetting,
    pub reserved: Reserved,
    pub metrics: Bool,
}

impl GnssConfig {
    /// Reads the payload of a `+LPGNSSCFG` response.
    pub fn decode(payload: &[u8]) -> (r: Result<GnssConfig, CodecError>)
        ensures
            r matches Ok(c) ==> ({
                let fs = fields(payload@);
                &&& num_at(fs, 0, 0, 255) == Some(c.loc_mode.spec_code())
                &&& num_at(fs, 1, 0, 255) == Some(c.fix_sensi.spec_code())
                &&& num_at(fs, 2, 0, 255) == Some(c.urc_settings.spec_code())
                &&& fs.len() > 4 && fs[4] == crate::types::bool_bytes(c.metrics)
            }),
            r is Ok <==> ({
                let fs = fields(payload@);
                &&& (num_at(fs, 0, 0, 255) matches Some(c) && exists|v: LocationMode| v.spec_code() == c)
                &&& (num_at(fs, 1, 0, 255) matches Some(c) && exists|v: FixSensitivity| v.spec_code() == c)
                &&& (num_at(fs, 2, 0, 255) matches Some(c) && exists|v: UrcNotificationSetting| v.spec_code() == c)
                &&& fs.len() > 4
                &&& (fs[4] == bool_bytes(Bool::True) || fs[4] == bool_bytes(Bool::False))
            }),
    {
        let fs = split_fields(payload);
        let l = decode_num_at(&fs, 0, 0, 255)?;
        let f = decode_num_at(&fs, 1, 0, 255)?;
        let u = decode_num_at(&fs, 2, 0, 255)?;
        if fs.len() < 5 {
            return Err(CodecError::MissingField(fs.len()));
        }
        assert(views(fs@)[3] == fs@[3]@ && views(fs@)[4] == fs@[4]@);
        let reserved = Reserved::decode(fs[3].as_slice());
        let metrics = Bool::decode(fs[4].as_slice(), 4)?;
        let loc_mode = match LocationMode::from_code(l) {
            Some(v) => v,
            None => {
                return Err(CodecError::UnknownEnum(0));
            },
        };
        let fix_sensi = match FixSensitivity::from_code(f) {
            Some(v) => v,
            None => {
                return Err(CodecError::UnknownEnum(1));
            },
        };
        let urc_settings = match UrcNotificationSetting::from_code(u) {
            Some(v) => v,
            None => {
                return Err(CodecError::UnknownEnum(2));
            },
        };
        Ok(GnssConfig { loc_mode, fix_sensi, urc_settings, reserved, metrics })
    }
}

/// The receiver's time-out in seconds (0 to 999; 0 means none).
#[derive(Clone, Copy, Debug, PartialEq, Eq, Structural)]
pub struct GnssTimeout {
    pub timeout: u32,
}

impl GnssTimeout {
    /// Reads the payload of a `+LPGNSSTIMEOUT` response.
    pub fn decode(payload: &[u8]) -> (r: Result<GnssTimeout, CodecError>)
        ensures
            r is Ok <==> num_at(fields(payload@), 0, 0, u32::MAX as int) is Some,
            r matches Ok(t) ==> num_at(fields(payload@), 0, 0, u32::MAX as int) == Some(t.timeout as int),
    {
        let fs = split_fields(payload);
        let t = decode_num_at(&fs, 0, 0, 4294967295)?;
        Ok(GnssTimeout { timeout: t as u32 })
    }
}

/// The assistance server's host name and API version.
#[derive(Clone, Debug, PartialEq, Eq)]
pub struct GnssCloudServerName {
    /// At most 256 bytes.
    pub hostname: Vec<u8>,
    /// At most 16 bytes.
    pub api_version: Vec<u8>,
}

impl GnssCloudServerName {
    /// Reads the payload of a `+LPGNSSCLOUDSEL` response: two quoted strings.
    pub fn decode(payload: &[u8]) -> (r: Result<GnssCloudServerName, CodecError>)
        ensures
            r is Ok <==> ({
                let fs = fields(payload@);
                str_at(fs, 0) is Some && str_at(fs, 0).unwrap().len() <= 256 && str_at(fs, 1) is Some
                    && str_at(fs, 1).unwrap().len() <= 16
            }),
            r matches Ok(c) ==> str_at(fields(payload@), 0) == Some(c.hostname@) && str_at(
                fields(payload@),
                1,
            ) == Some(c.api_version@),
    {
        let fs = split_fields(payload);
        let hostname = decode_str_at(&fs, 0)?;
        let api_version = decode_str_at(&fs, 1)?;
        if hostname.len() > 256 {
            return Err(CodecError::TooLong(0));
        }
        if api_version.len() > 16 {
            return Err(CodecError::TooLong(1));
        }
        Ok(GnssCloudServerName { hostname, api_version })
    }
}

/// Asks for the receiver settings.
#[derive(Clone, Debug, PartialEq, Eq)]
pub struct GetGnssConfig;

impl GetGnssConfig {
    /// The command line: `AT+LPGNSSCFG?` and the arguments.
    pub fn encode(&self) -> (r: Vec<u8>)
        ensures
            r@ == at_line("+LPGNSSCFG?".spec_bytes(), Seq::empty()),
    {
        let args: Vec<Arg> = Vec::new();
        let r = encode_at("+LPGNSSCFG?", &args);
        assert(arg_views(args@) =~= Seq::<ArgV>::empty());
        r
    }
}

/// Sets the receiver settings.
#[derive(Clone, Debug, PartialEq, Eq)]
pub struct SetGnssConfig {
    pub location_mode: LocationMode,
    pub fix_sensitivity: FixSensitivity,
    pub urc_settings: UrcNotificationSetting,
    pub reserved: Reserved,
    pub metrics: Bool,
    pub acquisition_mode: AcquisitionMode,
    pub early_abort: Bool,
}

impl SetGnssConfig {
    /// The command line: `AT+LPGNSSCFG` and the arguments.
    pub fn encode(&self) -> (r: Vec<u8>)
        ensures
            r@ == at_line(
                "+LPGNSSCFG".spec_bytes(),
                seq![
                    ArgV::Int(self.location_mode.spec_code()),
                    ArgV::Int(self.fix_sensitivity.spec_code()),
                    ArgV::Int(self.urc_settings.spec_code()),
                    ArgV::Empty,
                    ArgV::Int(if self.metrics == Bool::True { 1 } else { 0 }),
                    ArgV::Int(self.acquisition_mode.spec_code()),
                    ArgV::Int(if self.early_abort == Bool::True { 1 } else { 0 }),
                ],
            ),
    {
        let args: Vec<Arg> = vec![
            Arg::Int(self.location_mode.code() as i128),
            Arg::Int(self.fix_sensitivity.code() as i128),
            Arg::Int(self.urc_settings.code() as i128),
            Arg::Empty,
            self.metrics.to_arg(),
            Arg::Int(self.acquisition_mode.code() as i128),
            self.early_abort.to_arg(),
        ];
        let r = encode_at("+LPGNSSCFG", &args);
        assert(arg_views(args@) =~= seq![
            ArgV::Int(self.location_mode.spec_code()),
            ArgV::Int(self.fix_sensitivity.spec_code()),
            ArgV::Int(self.urc_settings.spec_code()),
            ArgV::Empty,
            ArgV::Int(if self.metrics == Bool::True { 1 } else { 0 }),
            ArgV::Int(self.acquisition_mode.spec_code()),
            ArgV::Int(if self.early_abort == Bool::True { 1 } else { 0 }),
        ]);
        r
    }
}

/// Downloads one kind of assistance data.
#[derive(Clone, Debug, PartialEq, Eq)]
pub struct UpdateGnssAssitance {
    pub typ: GnssAssitanceType,
}

impl UpdateGnssAssitance {
    /// The command line: `AT+LPGNSSASSISTANCE` and the arguments.
    pub fn encode(&self) -> (r: Vec<u8>)
        ensures
            r@ == at_line(
                "+LPGNSSASSISTANCE".spec_bytes(),
                seq![
                    ArgV::Int(self.typ.spec_code()),
                ],
            ),
    {
        let args: Vec<Arg> = vec![
            Arg::Int(self.typ.code() as i128),
        ];
        let r = encode_at("+LPGNSSASSISTANCE", &args);
        assert(arg_views(args@) =~= seq![
            ArgV::Int(self.typ.spec_code()),
        ]);
        r
    }
}

/// Asks for the state of the assistance data; the answer has one record per kind.
#[derive(Clone, Debug, PartialEq, Eq)]
pub struct GetGnssAssitance;

impl GetGnssAssitance {
    /// The command line: `AT+LPGNSSASSISTANCE?` and the arguments.
    pub fn encode(&self) -> (r: Vec<u8>)
        ensures
            r@ == at_line("+LPGNSSASSISTANCE?".spec_bytes(), Seq::empty()),
    {
        let args: Vec<Arg> = Vec::new();
        let r = encode_at("+LPGNSSASSISTANCE?", &args);
        assert(arg_views(args@) =~= Seq::<ArgV>::empty());
        r
    }
}

/// Programs a fix, or cancels one.
#[derive(Clone, Debug, PartialEq, Eq)]
pub struct ProgramGnss {
    pub action: ProgramGnssAction,
}

impl ProgramGnss {
    /// The command line: `AT+LPGNSSFIXPROG` and the arguments.
    pub fn encode(&self) -> (r: Vec<u8>)
        ensures
            r@ == at_line(
                "+LPGNSSFIXPROG".spec_bytes(),
                seq![
                    ArgV::Raw(quoted(self.action.spec_literal())),
                ],
            ),
    {
        let args: Vec<Arg> = vec![
            self.action.to_arg(),
        ];
        let r = encode_at("+LPGNSSFIXPROG", &args);
        assert(arg_views(args@) =~= seq![
            ArgV::Raw(quoted(self.action.spec_literal())),
        ]);
        r
    }
}

/// Sets the assistance server.
#[derive(Clone, Debug, PartialEq, Eq)]
pub struct SetGnssCloudServerName {
    /// At most 256 bytes.
    pub hostname: Vec<u8>,
}

impl SetGnssCloudServerName {
    /// The command line: `AT+LPGNSSCLOUDSEL` and the arguments.
    pub fn encode(&self) -> (r: Vec<u8>)
        ensures
            r@ == at_line(
                "+LPGNSSCLOUDSEL".spec_bytes(),
                seq![
                    ArgV::Str(self.hostname@),
                ],
            ),
    {
        let args: Vec<Arg> = vec![
            Arg::Str(to_vec(self.hostname.as_slice())),
        ];
        let r = encode_at("+LPGNSSCLOUDSEL", &args);
        assert(arg_views(args@) =~= seq![
            ArgV::Str(self.hostname@),
        ]);
        r
    }
}

/// Asks for the assistance server.
#[derive(Clone, Debug, PartialEq, Eq)]
pub struct GetGnssCloudServerName;

impl GetGnssCloudServerName {
    /// The command line: `AT+LPGNSSCLOUDSEL?` and the arguments.
    pub fn encode(&self) -> (r: Vec<u8>)
        ensures
            r@ == at_line("+LPGNSSCLOUDSEL?".spec_bytes(), Seq::empty()),
    {
        let args: Vec<Arg> = Vec::new();
        let r = encode_at("+LPGNSSCLOUDSEL?", &args);
        assert(arg_views(args@) =~= Seq::<ArgV>::empty());
        r
    }
}

/// Sets the receiver time-out in seconds.
#[derive(Clone, Debug, PartialEq, Eq)]
pub struct SetGnssTimeout {
    pub timeout: u32,
}

impl SetGnssTimeout {
    /// The command line: `AT+LPGNSSTIMEOUT` and the arguments.
    pub fn encode(&self) -> (r: Vec<u8>)
        ensures
            r@ == at_line(
                "+LPGNSSTIMEOUT".spec_bytes(),
                seq![
                    ArgV::Int(self.timeout as int),
                ],
            ),
    {
        let args: Vec<Arg> = vec![
            Arg::Int(self.timeout as i128),
        ];
        let r = encode_at("+LPGNSSTIMEOUT", &args);
        assert(arg_views(args@) =~= seq![
            ArgV::Int(self.timeout as int),
        ]);
        r
    }
}

/// Asks for the receiver time-out.
#[derive(Clone, Debug, PartialEq, Eq)]
pub struct GetGnssTimeout;

impl GetGnssTimeout {
    /// The command line: `AT+LPGNSSTIMEOUT?` and the arguments.
    pub fn encode(&self) -> (r: Vec<u8>)
        ensures
            r@ == at_line("+LPGNSSTIMEOUT?".spec_bytes(), Seq::empty()),
    {
        let args: Vec<Arg> = Vec::new();
        let r = encode_at("+LPGNSSTIMEOUT?", &args);
        assert(arg_views(args@) =~= Seq::<ArgV>::empty());
        r
    }
}

/// The most satellites a fix report lists.
pub const GNSS_MAX_SATS: usize = 32;

/// A civil date and time, without a time zone.
#[derive(Clone, Copy, Debug, PartialEq, Eq, Structural)]
pub struct CivilDateTime {
    pub year: i16,
    pub month: i8,
    pub day: i8,
    pub hour: i8,
    pub minute: i8,
    pub second: i8,
    pub subsec_nanosecond: i32,
}

pub open spec fn pow10(n: nat) -> nat
    decreases n,
{
    if n == 0 {
        1
    } else {
        10 * pow10((n - 1) as nat)
    }
}

/// The digit positions of `YYYY-MM-DDTHH:MM:SS`.
pub open spec fn iso_digit_pos(k: int) -> bool {
    0 <= k < 19 && k != 4 && k != 7 && k != 10 && k != 13 && k != 16
}

/// What an ISO 8601 date and time `YYYY-MM-DDTHH:MM:SS`, with an optional
/// fraction of 1 to 9 digits after a `.`, reads as.
pub open spec fn civil_of(t: Seq<u8>) -> Option<CivilDateTime> {
    let d = |k: int| (t[k] - 48) as int;
    if {
        &&& t.len() == 19 || (21 <= t.len() <= 29 && t[19] == 46u8 && crate::codec::all_digits(
            t.subrange(20, t.len() as int),
        ))
        &&& forall|k: int| #![trigger t[k]] iso_digit_pos(k) ==> crate::codec::is_digit(t[k])
        &&& t[4] == 45u8 && t[7] == 45u8 && t[10] == 84u8 && t[13] == 58u8 && t[16] == 58u8
        &&& crate::device::valid_civil(
            d(0) * 1000 + d(1) * 100 + d(2) * 10 + d(3),
            d(5) * 10 + d(6),
            d(8) * 10 + d(9),
            d(11) * 10 + d(12),
            d(14) * 10 + d(15),
            d(17) * 10 + d(18),
        )
    } {
        Some(CivilDateTime {
            year: (d(0) * 1000 + d(1) * 100 + d(2) * 10 + d(3)) as i16,
            month: (d(5) * 10 + d(6)) as i8,
            day: (d(8) * 10 + d(9)) as i8,
            hour: (d(11) * 10 + d(12)) as i8,
            minute: (d(14) * 10 + d(15)) as i8,
            second: (d(17) * 10 + d(18)) as i8,
            subsec_nanosecond: if t.len() == 19 {
                0
            } else {
                (crate::codec::digits_value(t.subrange(20, t.len() as int)) * pow10(
                    (29 - t.len()) as nat,
                )) as i32
            },
        })
    } else {
        None
    }
}

proof fn lemma_pow10_bound(n: nat)
    requires
        n <= 9,
    ensures
        1 <= pow10(n) <= 1_000_000_000,
        pow10(9) == 1_000_000_000,
{
    assert(pow10(0) == 1);
    assert(pow10(1) == 10);
    assert(pow10(2) == 100);
    assert(pow10(3) == 1000);
    assert(pow10(4) == 10000);
    assert(pow10(5) == 100000);
    assert(pow10(6) == 1000000);
    assert(pow10(7) == 10000000);
    assert(pow10(8) == 100000000);
    assert(pow10(9) == 1000000000);
}

proof fn lemma_digits_value_bound(s: Seq<u8>)
    requires
        crate::codec::all_digits(s),
    ensures
        crate::codec::digits_value(s) < pow10(s.len()),
    decreases s.len(),
{
    if s.len() > 0 {
        let p = s.drop_last();
        assert(crate::codec::all_digits(p)) by {
            assert forall|i: int| 0 <= i < p.len() implies crate::codec::is_digit(#[trigger] p[i]) by {
                assert(p[i] == s[i]);
            }
        }
        lemma_digits_value_bound(p);
        assert(crate::codec::is_digit(s[s.len() - 1]));
    }
}

impl CivilDateTime {
    /// Reads an ISO 8601 date and time; the calendar check is jiff's, which
    /// decides alone on the year 9999.
    pub fn decode(t: &[u8]) -> (r: Option<CivilDateTime>)
        ensures
            r is Some ==> r == civil_of(t@),
            civil_of(t@) matches Some(c) && c.year <= 9998 ==> r == civil_of(t@),
    {
        let n = t.len();
        if !(n == 19 || (21 <= n && n <= 29 && t[19] == 46)) {
            return None;
        }
        let mut k: usize = 0;
        while k < 19
            invariant
                k <= 19 <= n,
                n == t@.len(),
                forall|j: int| #![trigger t@[j]] 0 <= j < k && iso_digit_pos(j) ==> crate::codec::is_digit(t@[j]),
            decreases 19 - k,
        {
            if k != 4 && k != 7 && k != 10 && k != 13 && k != 16 && !(48 <= t[k] && t[k] <= 57) {
                return None;
            }
            k = k + 1;
        }
        if !(t[4] == 45 && t[7] == 45 && t[10] == 84 && t[13] == 58 && t[16] == 58) {
            return None;
        }
        let mut nanos: i32 = 0;
        if n > 19 {
            let mut j: usize = 20;
            while j < n
                invariant
                    20 <= j <= n <= 29,
                    n == t@.len(),
                    crate::codec::all_digits(t@.subrange(20, j as int)),
                decreases n - j,
            {
                if !(48 <= t[j] && t[j] <= 57) {
                    assert(t@.subrange(20, n as int)[j - 20] == t@[j as int]);
                    return None;
                }
                assert(t@.subrange(20, j + 1) =~= t@.subrange(20, j as int).push(t@[j as int]));
                j = j + 1;
            }
            proof {
                lemma_digits_value_bound(t@.subrange(20, n as int));
                lemma_pow10_bound((n - 20) as nat);
            }
            let v = match crate::codec::digits_value_upto(t, 20, n, 1_000_000_000) {
                Some(v) => v,
                None => {
                    return None;
                },
            };
            proof {
                lemma_digits_value_bound(t@.subrange(20, n as int));
                lemma_pow10_bound((29 - n) as nat);
            }
            let mut scale: u128 = 1;
            let mut m: usize = n;
            while m < 29
                invariant
                    n <= m <= 29,
                    21 <= n,
                    scale as nat == pow10((m - n) as nat),
                decreases 29 - m,
            {
                proof {
                    lemma_pow10_bound((m - n) as nat);
                }
                scale = scale * 10;
                m = m + 1;
            }
            proof {
                assert(pow10((29 - n) as nat) * pow10((n - 20) as nat) == pow10(9)) by {
                    lemma_pow10_add((29 - n) as nat, (n - 20) as nat);
                }
                lemma_pow10_bound(9);
                assert((v as nat) * pow10((29 - n) as nat) < 1_000_000_000) by (nonlinear_arith)
                    requires
                        (v as nat) < pow10((n - 20) as nat),
                        pow10((29 - n) as nat) * pow10((n - 20) as nat) == 1_000_000_000,
                        pow10((29 - n) as nat) >= 1,
                ;
            }
            nanos = (v * scale) as i32;
        }
        let y = ((t[0] - 48) as i16) * 1000 + ((t[1] - 48) as i16) * 100 + ((t[2] - 48) as i16) * 10 + (t[3] - 48) as i16;
        let mo = ((t[5] - 48) * 10 + (t[6] - 48)) as i8;
        let d = ((t[8] - 48) * 10 + (t[9] - 48)) as i8;
        let h = ((t[11] - 48) * 10 + (t[12] - 48)) as i8;
        let mi = ((t[14] - 48) * 10 + (t[15] - 48)) as i8;
        let s = ((t[17] - 48) * 10 + (t[18] - 48)) as i8;
        proof {
            assert(iso_digit_pos(0) && iso_digit_pos(1) && iso_digit_pos(2) && iso_digit_pos(3));
            assert(crate::codec::is_digit(t@[0]) && crate::codec::is_digit(t@[1]));
            assert(crate::codec::is_digit(t@[2]) && crate::codec::is_digit(t@[3]));
            assert(iso_digit_pos(5) && iso_digit_pos(6) && iso_digit_pos(8) && iso_digit_pos(9));
            assert(crate::codec::is_digit(t@[5]) && crate::codec::is_digit(t@[6]));
            assert(crate::codec::is_digit(t@[8]) && crate::codec::is_digit(t@[9]));
            assert(iso_digit_pos(11) && iso_digit_pos(12) && iso_digit_pos(14) && iso_digit_pos(15));
            assert(crate::codec::is_digit(t@[11]) && crate::codec::is_digit(t@[12]));
            assert(crate::codec::is_digit(t@[14]) && crate::codec::is_digit(t@[15]));
            assert(iso_digit_pos(17) && iso_digit_pos(18));
            assert(crate::codec::is_digit(t@[17]) && crate::codec::is_digit(t@[18]));
        }
        match crate::device::civil_timestamp(y, mo, d, h, mi, s, 0) {
            Some(_) => Some(CivilDateTime {
                year: y,
                month: mo,
                day: d,
                hour: h,
                minute: mi,
                second: s,
                subsec_nanosecond: nanos,
            }),
            None => None,
        }
    }
}

proof fn lemma_pow10_add(a: nat, b: nat)
    ensures
        pow10(a) * pow10(b) == pow10(a + b),
    decreases a,
{
    if a == 0 {
        assert(pow10(0) == 1);
    } else {
        lemma_pow10_add((a - 1) as nat, b);
        assert(pow10(a + b) == 10 * pow10((a + b - 1) as nat));
        assert(pow10(a) * pow10(b) == 10 * (pow10((a - 1) as nat) * pow10(b))) by (nonlinear_arith)
            requires
                pow10(a) == 10 * pow10((a - 1) as nat),
        ;
    }
}

/// One satellite of a fix report.
#[derive(Clone, Debug, PartialEq, Eq)]
pub struct SateliteInfo {
    /// Satellite number, at most 2 bytes.
    pub sat_no: Vec<u8>,
    /// CN0 of the satellite in dB/Hz; a fix needs at least 30.
    pub signal_strength: u32,
}

/// The satellites of a fix report, at most `GNSS_MAX_SATS`.
#[derive(Clone, Debug, PartialEq, Eq)]
pub struct SateliteInfos(pub Vec<SateliteInfo>);

/// What the pair of fields `("XX"` and `21)` reads as: a satellite number
/// of at most 2 bytes and its signal strength.
pub open spec fn sat_of(a: Seq<u8>, b: Seq<u8>) -> Option<(Seq<u8>, int)> {
    if a.len() >= 1 && a[0] == 40u8 && b.len() >= 1 && b.last() == 41u8 {
        match (unquote(a.drop_first()), int_field(b.drop_last())) {
            (Some(n), Some(v)) => if n.len() <= 2 && 0 <= v <= u32::MAX {
                Some((n, v))
            } else {
                None
            },
            _ => None,
        }
    } else {
        None
    }
}

/// What the fields from `start` on read as: pairs of satellite fields.
pub open spec fn sats_of(fs: Seq<Seq<u8>>, start: int) -> Option<Seq<(Seq<u8>, int)>>
    decreases fs.len() - start,
{
    if start >= fs.len() {
        Some(Seq::empty())
    } else if start + 1 >= fs.len() {
        None
    } else {
        match (sat_of(fs[start], fs[start + 1]), sats_of(fs, start + 2)) {
            (Some(s), Some(rest)) => Some(seq![s] + rest),
            _ => None,
        }
    }
}

pub open spec fn sat_views(v: Seq<SateliteInfo>) -> Seq<(Seq<u8>, int)> {
    v.map_values(|s: SateliteInfo| (s.sat_no@, s.signal_strength as int))
}

impl SateliteInfo {
    /// Reads one satellite from its two fields.
    pub fn decode(a: &[u8], b: &[u8]) -> (r: Option<SateliteInfo>)
        ensures
            r matches Some(s) ==> sat_of(a@, b@) == Some((s.sat_no@, s.signal_strength as int)),
            r is None ==> sat_of(a@, b@) is None,
    {
        if !(a.len() >= 1 && a[0] == 40 && b.len() >= 1 && b[b.len() - 1] == 41) {
            return None;
        }
        let a1 = a.split_at(1).1;
        assert(a1@ =~= a@.drop_first());
        let b1 = b.split_at(b.len() - 1).0;
        assert(b1@ =~= b@.drop_last());
        let n = match decode_str(a1) {
            Some(n) => n,
            None => {
                return None;
            },
        };
        let v = match decode_int(b1) {
            Some(v) => v,
            None => {
                return None;
            },
        };
        if n.len() <= 2 && 0 <= v && v <= 4294967295 {
            Some(SateliteInfo { sat_no: n, signal_strength: v as u32 })
        } else {
            None
        }
    }
}

impl SateliteInfos {
    /// Reads the satellite fields from `start` on, two per satellite.
    pub fn decode(fs: &Vec<Vec<u8>>, start: usize) -> (r: Option<SateliteInfos>)
        requires
            start <= fs@.len(),
        ensures
            r matches Some(s) ==> sats_of(views(fs@), start as int) == Some(sat_views(s.0@))
                && s.0@.len() <= GNSS_MAX_SATS,
            r is None ==> sats_of(views(fs@), start as int) is None
                || sats_of(views(fs@), start as int).unwrap().len() > GNSS_MAX_SATS,
    {
        let ghost vs = views(fs@);
        let mut out: Vec<SateliteInfo> = Vec::new();
        let mut i: usize = start;
        while i < fs.len() && fs.len() - i > 1
            invariant
                start <= i <= fs@.len(),
                vs == views(fs@),
                (i - start) % 2 == 0,
                out@.len() == (i - start) / 2,
                sats_of(vs, start as int) matches Some(all) ==> (sats_of(vs, i as int) matches Some(rest)
                    && all == sat_views(out@) + rest),
                sats_of(vs, start as int) is None ==> sats_of(vs, i as int) is None,
            decreases fs@.len() - i,
        {
            assert(vs[i as int] == fs@[i as int]@ && vs[i + 1] == fs@[i + 1]@);
            match SateliteInfo::decode(fs[i].as_slice(), fs[i + 1].as_slice()) {
                Some(s) => {
                    let ghost before = out@;
                    out.push(s);
                    proof {
                        assert(sat_views(out@) =~= sat_views(before).push((s.sat_no@, s.signal_strength as int)));
                        if let Some(all) = sats_of(vs, start as int) {
                            let rest = sats_of(vs, i as int).unwrap();
                            let rest2 = sats_of(vs, i + 2).unwrap();
                            assert(rest == seq![(s.sat_no@, s.signal_strength as int)] + rest2);
                            assert(all =~= sat_views(out@) + rest2);
                        }
                    }
                    i = i + 2;
                },
                None => {
                    return None;
                },
            }
        }
        if i < fs.len() {
            return None;
        }
        proof {
            if let Some(all) = sats_of(vs, start as int) {
                assert(all =~= sat_views(out@));
            }
        }
        if out.len() > GNSS_MAX_SATS {
            return None;
        }
        Some(SateliteInfos(out))
    }
}

/// A fix report (`+LPGNSSFIXREADY`). The quoted decimal figures are kept as
/// the text between their quotes.
#[derive(Clone, Debug, PartialEq, Eq)]
pub struct GnssFixReady {
    /// Fix identifier; ten fixes are kept, the oldest overwritten.
    pub fix_id: u8,
    /// UTC time of the fix.
    pub timestamp: CivilDateTime,
    /// Duration of the fix in milliseconds.
    pub ttf: u32,
    /// Estimated error of the fix in metres.
    pub confidence: Vec<u8>,
    /// Latitude in degrees.
    pub lat: Vec<u8>,
    /// Longitude in degrees.
    pub long: Vec<u8>,
    /// Elevation in metres.
    pub elev: Vec<u8>,
    /// Northing speed in m/s.
    pub north_speed: Vec<u8>,
    /// Easting speed in m/s.
    pub east_speed: Vec<u8>,
    /// Down speed in m/s.
    pub down_speed: Vec<u8>,
    /// Base64 raw data, at most 1024 bytes.
    pub raw_data: Vec<u8>,
    /// The satellites, where the report lists them.
    pub sats: Option<SateliteInfos>,
}

/// Whether the quoted text fields 3 to 10 of a fix report read as the
/// report's figures and raw data.
pub open spec fn fix_texts(fs: Seq<Seq<u8>>, r: GnssFixReady) -> bool {
    &&& unquote(fs[3]) == Some(r.confidence@)
    &&& unquote(fs[4]) == Some(r.lat@)
    &&& unquote(fs[5]) == Some(r.long@)
    &&& unquote(fs[6]) == Some(r.elev@)
    &&& unquote(fs[7]) == Some(r.north_speed@)
    &&& unquote(fs[8]) == Some(r.east_speed@)
    &&& unquote(fs[9]) == Some(r.down_speed@)
    &&& unquote(fs[10]) == Some(r.raw_data@)
}

/// Whether the fields of a fix report read as `r`.
pub open spec fn fix_matches(fs: Seq<Seq<u8>>, r: GnssFixReady) -> bool {
    &&& fs.len() >= 11
    &&& int_field(fs[0]) == Some(r.fix_id as int)
    &&& (unquote(fs[1]) matches Some(t) && civil_of(t) == Some(r.timestamp))
    &&& int_field(fs[2]) == Some(r.ttf as int)
    &&& fix_texts(fs, r)
    &&& r.raw_data@.len() <= 1024
    &&& match r.sats {
        None => fs.len() == 11,
        Some(s) => fs.len() > 11 && sats_of(fs, 11) == Some(sat_views(s.0@)),
    }
}

/// Whether the fields of a fix report can be read: the numbers in range, the
/// date one of the calendar (up to the year 9998), the figures quoted, the
/// raw data at most 1024 bytes, and the satellites in pairs, at most
/// `GNSS_MAX_SATS`.
pub open spec fn fix_decodable(fs: Seq<Seq<u8>>) -> bool {
    &&& fs.len() >= 11
    &&& num_at(fs, 0, 0, 255) is Some
    &&& (str_at(fs, 1) matches Some(t) && civil_of(t) matches Some(c) && c.year <= 9998)
    &&& num_at(fs, 2, 0, u32::MAX as int) is Some
    &&& forall|k: int| 3 <= k <= 10 ==> (#[trigger] str_at(fs, k)) is Some
    &&& str_at(fs, 10).unwrap().len() <= 1024
    &&& (fs.len() == 11 || (sats_of(fs, 11) is Some && sats_of(fs, 11).unwrap().len() <= GNSS_MAX_SATS))
}

fn quoted_field(fs: &Vec<Vec<u8>>, k: usize) -> (r: Result<Vec<u8>, CodecError>)
    requires
        k < fs@.len(),
    ensures
        r matches Ok(v) ==> unquote(fs@[k as int]@) == Some(v@),
        r is Err ==> unquote(fs@[k as int]@) is None,
{
    match decode_str(fs[k].as_slice()) {
        Some(v) => Ok(v),
        None => Err(CodecError::InvalidField(k)),
    }
}

impl GnssFixReady {
    /// Reads the payload of a fix report; a `\r\n` at its end is dropped.
    pub fn decode(payload: &[u8]) -> (r: Result<GnssFixReady, CodecError>)
        ensures
            r matches Ok(x) ==> fix_matches(fields(without_crlf(payload@)), x),
            fix_decodable(fields(without_crlf(payload@))) ==> r is Ok,
    {
        let fs = split_fields(trim_crlf(payload));
        let ghost vs = views(fs@);
        assert(vs.len() == fs@.len());
        if fs.len() < 11 {
            return Err(CodecError::MissingField(fs.len()));
        }
        assert forall|k: int| 0 <= k < fs@.len() implies vs[k] == #[trigger] fs@[k]@ by {}
        let id = match decode_int(fs[0].as_slice()) {
            Some(v) => v,
            None => {
                return Err(CodecError::InvalidField(0));
            },
        };
        if id < 0 || id > 255 {
            return Err(CodecError::InvalidField(0));
        }
        let ts_text = quoted_field(&fs, 1)?;
        let timestamp = match CivilDateTime::decode(ts_text.as_slice()) {
            Some(t) => t,
            None => {
                return Err(CodecError::InvalidField(1));
            },
        };
        let ttf = match decode_int(fs[2].as_slice()) {
            Some(v) => v,
            None => {
                return Err(CodecError::InvalidField(2));
            },
        };
        if ttf < 0 || ttf > 4294967295 {
            return Err(CodecError::InvalidField(2));
        }
        proof {
            if fix_decodable(vs) {
                assert(str_at(vs, 3) is Some && str_at(vs, 4) is Some && str_at(vs, 5) is Some);
                assert(str_at(vs, 6) is Some && str_at(vs, 7) is Some && str_at(vs, 8) is Some);
                assert(str_at(vs, 9) is Some && str_at(vs, 10) is Some);
            }
        }
        let confidence = quoted_field(&fs, 3)?;
        let lat = quoted_field(&fs, 4)?;
        let long = quoted_field(&fs, 5)?;
        let elev = quoted_field(&fs, 6)?;
        let north_speed = quoted_field(&fs, 7)?;
        let east_speed = quoted_field(&fs, 8)?;
        let down_speed = quoted_field(&fs, 9)?;
        let raw_data = quoted_field(&fs, 10)?;
        if raw_data.len() > 1024 {
            return Err(CodecError::TooLong(10));
        }
        let sats = if fs.len() == 11 {
            None
        } else {
            match SateliteInfos::decode(&fs, 11) {
                Some(s) => Some(s),
                None => {
                    return Err(CodecError::InvalidField(11));
                },
            }
        };
        let r = GnssFixReady {
            fix_id: id as u8,
            timestamp,
            ttf: ttf as u32,
            confidence,
            lat,
            long,
            elev,
            north_speed,
            east_speed,
            down_speed,
            raw_data,
            sats,
        };
        assert(fix_texts(vs, r));
        Ok(r)
    }
}

} // verus!
