use crate::codec::{arg_views, at_line, encode_at, int_field, unquote, Arg, ArgV};
use crate::types::CodecError;
use vstd::prelude::*;
use vstd::string::StringSliceAdditionalSpecFns;

verus! {

/// Radio access technology.
#[derive(Clone, Copy, Debug, PartialEq, Eq, Structural)]
pub enum RAT {
    /// LTE-M
    LteM,
    /// NB-IoT
    NBIoT,
    /// Reserved for future use
    Reserved,
}

impl RAT {
    /// The number that stands for the value on the wire.
    pub open spec fn spec_code(self) -> int {
        match self {
            RAT::LteM => 1,
            RAT::NBIoT => 2,
            RAT::Reserved => 3,
        }
    }

    pub fn code(&self) -> (r: i64)
        ensures
            r == self.spec_code(),
    {
        match self {
            RAT::LteM => 1,
            RAT::NBIoT => 2,
            RAT::Reserved => 3,
        }
    }

    /// The value that a wire number stands for, if any.
    pub fn from_code(c: i64) -> (r: Option<Self>)
        ensures
            r matches Some(v) ==> v.spec_code() == c,
            r is None ==> forall|v: Self| v.spec_code() != c,
    {
        if c == 1 {
            Some(RAT::LteM)
        } else if c == 2 {
            Some(RAT::NBIoT)
        } else if c == 3 {
            Some(RAT::Reserved)
        } else {
            None
        }
    }
}

/// Reverts the modem to its last saved restoration point; a reboot commits it.
#[derive(Clone, Debug, PartialEq, Eq)]
pub struct FactoryReset;

impl FactoryReset {
    /// The command line: `AT+SQNSFACTORYRESET` and the arguments.
    pub fn encode(&self) -> (r: Vec<u8>)
        ensures
            r@ == at_line("+SQNSFACTORYRESET".spec_bytes(), Seq::empty()),
    {
        let args: Vec<Arg> = Vec::new();
        let r = encode_at("+SQNSFACTORYRESET", &args);
        assert(arg_views(args@) =~= Seq::<ArgV>::empty());
        r
    }
}

/// Detaches from the network and shuts the modem down.
#[derive(Clone, Debug, PartialEq, Eq)]
pub struct Shutdown;

impl Shutdown {
    /// The command line: `AT+SQNSSHDN` and the arguments.
    pub fn encode(&self) -> (r: Vec<u8>)
        ensures
            r@ == at_line("+SQNSSHDN".spec_bytes(), Seq::empty()),
    {
        let args: Vec<Arg> = Vec::new();
        let r = encode_at("+SQNSSHDN", &args);
        assert(arg_views(args@) =~= Seq::<ArgV>::empty());
        r
    }
}

/// Reverts the modem to its last saved restoration point, with a long timeout.
#[derive(Clone, Debug, PartialEq, Eq)]
pub struct ResetToFactoryState;

impl ResetToFactoryState {
    /// The command line: `AT+SQNSFACTORYRESET` and the arguments.
    pub fn encode(&self) -> (r: Vec<u8>)
        ensures
            r@ == at_line("+SQNSFACTORYRESET".spec_bytes(), Seq::empty()),
    {
        let args: Vec<Arg> = Vec::new();
        let r = encode_at("+SQNSFACTORYRESET", &args);
        assert(arg_views(args@) =~= Seq::<ArgV>::empty());
        r
    }
}

/// Asks for the modem's clock.
#[derive(Clone, Debug, PartialEq, Eq)]
pub struct GetClock;

impl GetClock {
    /// The command line: `AT+CCLK?` and the arguments.
    pub fn encode(&self) -> (r: Vec<u8>)
        ensures
            r@ == at_line("+CCLK?".spec_bytes(), Seq::empty()),
    {
        let args: Vec<Arg> = Vec::new();
        let r = encode_at("+CCLK?", &args);
        assert(arg_views(args@) =~= Seq::<ArgV>::empty());
        r
    }
}

/// Asks which radio access technology is active.
#[derive(Clone, Debug, PartialEq, Eq)]
pub struct GetOperatingMode;

impl GetOperatingMode {
    /// The command line: `AT+SQNMODEACTIVE?` and the arguments.
    pub fn encode(&self) -> (r: Vec<u8>)
        ensures
            r@ == at_line("+SQNMODEACTIVE?".spec_bytes(), Seq::empty()),
    {
        let args: Vec<Arg> = Vec::new();
        let r = encode_at("+SQNMODEACTIVE?", &args);
        assert(arg_views(args@) =~= Seq::<ArgV>::empty());
        r
    }
}

/// Chooses between LTE-M and NB-IoT; only at functionality level 0.
#[derive(Clone, Debug, PartialEq, Eq)]
pub struct SetOperatingMode {
    pub mode: RAT,
}

impl SetOperatingMode {
    /// The command line: `AT+SQNMODEACTIVE` and the arguments.
    pub fn encode(&self) -> (r: Vec<u8>)
        ensures
            r@ == at_line(
                "+SQNMODEACTIVE".spec_bytes(),
                seq![
                    ArgV::Int(self.mode.spec_code()),
                ],
            ),
    {
        let args: Vec<Arg> = vec![
            Arg::Int(self.mode.code() as i128),
        ];
        let r = encode_at("+SQNMODEACTIVE", &args);
        assert(arg_views(args@) =~= seq![
            ArgV::Int(self.mode.spec_code()),
        ]);
        r
    }
}

/// The active radio access technology.
#[derive(Clone, Copy, Debug, PartialEq, Eq, Structural)]
pub struct ActiveRAT {
    pub rat: RAT,
}

impl ActiveRAT {
    /// Reads the payload of a `+SQNMODEACTIVE` response: the number of a technology.
    pub fn decode(f: &[u8]) -> (r: Result<ActiveRAT, CodecError>)
        ensures
            r matches Ok(a) ==> int_field(f@) == Some(a.rat.spec_code()),
            r is Err ==> (int_field(f@) matches Some(c) ==> forall|v: RAT| v.spec_code() != c),
    {
        match crate::codec::decode_int(f) {
            None => Err(CodecError::InvalidField(0)),
            Some(c) => match RAT::from_code(c) {
                Some(rat) => Ok(ActiveRAT { rat }),
                None => Err(CodecError::UnknownEnum(0)),
            },
        }
    }
}

/// Any modem time before 1 January 2023 00:00:00 UTC is taken as unset.
pub const MODEM_MIN_VALID_TIMESTAMP: i64 = 1_672_531_200;

/// Days from 1 January 1970 to a date of the proleptic Gregorian calendar
/// (negative before it), counted in 400-year eras from 1 March of year 0.
pub open spec fn days_from_civil(year: int, month: int, day: int) -> int {
    let y = if month <= 2 {
        year - 1
    } else {
        year
    };
    let era = y / 400;
    let yoe = y - era * 400;
    let mp = (month + 9) % 12;
    let doy = (153 * mp + 2) / 5 + day - 1;
    let doe = yoe * 365 + yoe / 4 - yoe / 100 + doy;
    era * 146097 + doe - 719468
}

/// The instant, in seconds since the Unix epoch, of a civil date and time
/// read at the given offset from UTC (in seconds): civil time less the offset.
pub open spec fn civil_instant(
    year: int,
    month: int,
    day: int,
    hour: int,
    minute: int,
    second: int,
    offset: int,
) -> int {
    days_from_civil(year, month, day) * 86400 + hour * 3600 + minute * 60 + second - offset
}

pub open spec fn is_leap_year(y: int) -> bool {
    (y % 4 == 0 && y % 100 != 0) || y % 400 == 0
}

pub open spec fn days_in_month(y: int, m: int) -> int {
    if m == 2 {
        if is_leap_year(y) {
            29
        } else {
            28
        }
    } else if m == 4 || m == 6 || m == 9 || m == 11 {
        30
    } else {
        31
    }
}

/// Whether the components name a date and time of the calendar.
pub open spec fn valid_civil(year: int, month: int, day: int, hour: int, minute: int, second: int) -> bool {
    &&& -9999 <= year <= 9999
    &&& 1 <= month <= 12
    &&& 1 <= day <= days_in_month(year, month)
    &&& 0 <= hour <= 23
    &&& 0 <= minute <= 59
    &&& 0 <= second <= 59
}

/// Relies on jiff's `civil::DateTime::new` (which refuses components that
/// name no calendar date and time), `tz::Offset::from_seconds` and
/// `tz::Offset::to_timestamp` (the instant of a civil time at an offset, in
/// the proleptic Gregorian calendar without leap seconds;
/// jiff's instants span the years -9999 to 9999 less a day and a few hours
/// at each end, so every year from -9998 to 9998 has one).
#[verifier::external_body]
pub(crate) fn civil_timestamp(
    year: i16,
    month: i8,
    day: i8,
    hour: i8,
    minute: i8,
    second: i8,
    offset: i32,
) -> (r: Option<i64>)
    requires
        -93599 <= offset <= 93599,
    ensures
        r is Some ==> valid_civil(year as int, month as int, day as int, hour as int, minute as int, second as int),
        valid_civil(year as int, month as int, day as int, hour as int, minute as int, second as int)
            && -9998 <= year <= 9998 ==> r is Some,
        r matches Some(t) ==> t == civil_instant(
            year as int,
            month as int,
            day as int,
            hour as int,
            minute as int,
            second as int,
            offset as int,
        ),
{
    let dt = jiff::civil::DateTime::new(year, month, day, hour, minute, second, 0).ok()?;
    let tz = jiff::tz::Offset::from_seconds(offset).ok()?;
    tz.to_timestamp(dt).ok().map(|t| t.as_second())
}

/// Why a clock string could not be read.
#[derive(Clone, Copy, Debug, PartialEq, Eq, Structural)]
pub enum TimeParseError {
    InvalidFormat,
}

impl TimeParseError {
    /// The error's name.
    pub fn to_string(&self) -> (r: String) {
        match self {
            TimeParseError::InvalidFormat => "InvalidFormat".to_string(),
        }
    }
}

/// An instant read from the modem clock: seconds since the Unix epoch, and
/// the offset from UTC (in seconds) that the modem reported. A clock that is
/// unset reads as the epoch at UTC.
#[derive(Clone, Copy, Debug, PartialEq, Eq, Structural)]
pub struct Time {
    pub timestamp: i64,
    pub offset_seconds: i32,
}

/// The two-digit number at `s[i]`, `s[i + 1]`.
pub open spec fn two_digits(s: Seq<u8>, i: int) -> int {
    (s[i] - 48) * 10 + (s[i + 1] - 48)
}

/// Whether `s` has the shape `yy/MM/dd,HH:mm:ss±zz`: digits and separators
/// in the first 17 bytes, a sign byte, then a number of quarter hours
/// whose offset stays within a day.
pub open spec fn clock_shape(s: Seq<u8>) -> bool {
    &&& s.len() >= 20
    &&& forall|k: int|
        #![trigger s[k]]
        0 <= k < 17 && k % 3 != 2 ==> crate::codec::is_digit(s[k])
    &&& s[2] == 47u8 && s[5] == 47u8 && s[8] == 44u8 && s[11] == 58u8 && s[14] == 58u8
    &&& int_field(s.subrange(18, s.len() as int)) matches Some(q) && -103 <= q <= 103
}

/// The offset, in seconds, that a well-shaped clock string gives: `-` makes
/// it west of UTC, any other sign byte east.
pub open spec fn clock_offset(s: Seq<u8>) -> int {
    let q = int_field(s.subrange(18, s.len() as int)).unwrap();
    if s[17] == 45u8 {
        -q * 900
    } else {
        q * 900
    }
}

/// The year of a two-digit year: 69 to 99 are 1969 to 1999, 00 to 68 are 2000 to 2068.
pub open spec fn full_year(yy: int) -> int {
    if yy <= 68 {
        2000 + yy
    } else {
        1900 + yy
    }
}

/// Whether a well-shaped clock string names a date and time of the calendar.
pub open spec fn clock_valid(s: Seq<u8>) -> bool {
    valid_civil(
        full_year(two_digits(s, 0)),
        two_digits(s, 3),
        two_digits(s, 6),
        two_digits(s, 9),
        two_digits(s, 12),
        two_digits(s, 15),
    )
}

/// The instant that a well-shaped, valid clock string names.
pub open spec fn clock_instant(s: Seq<u8>) -> int {
    civil_instant(
        full_year(two_digits(s, 0)),
        two_digits(s, 3),
        two_digits(s, 6),
        two_digits(s, 9),
        two_digits(s, 12),
        two_digits(s, 15),
        clock_offset(s),
    )
}

impl Time {
    /// The unset clock: the Unix epoch at UTC.
    pub open spec fn is_unset(self) -> bool {
        self.timestamp == 0 && self.offset_seconds == 0
    }

    /// Either unset, or not before 1 January 2023.
    pub open spec fn wf(self) -> bool {
        self.is_unset() || self.timestamp >= MODEM_MIN_VALID_TIMESTAMP
    }

    pub fn is_zero(&self) -> (r: bool)
        ensures
            r == (self.timestamp == 0),
    {
        self.timestamp == 0
    }

    /// Reads the modem clock format `yy/MM/dd,HH:mm:ss±zz`, where `zz`
    /// counts quarter hours. An instant before 1 January 2023 reads as the
    /// unset clock.
    pub fn from_str(s: &str) -> (r: Result<Time, TimeParseError>)
        ensures
            r is Ok <==> clock_shape(s.spec_bytes()) && clock_valid(s.spec_bytes()),
            r matches Ok(t) ==> t.wf(),
            r matches Ok(t) ==> (t.is_unset() <==> clock_instant(s.spec_bytes())
                < MODEM_MIN_VALID_TIMESTAMP),
            r matches Ok(t) ==> !t.is_unset() ==> t.timestamp == clock_instant(s.spec_bytes())
                && t.offset_seconds == clock_offset(s.spec_bytes()),
    {
        Time::from_bytes(s.as_bytes())
    }

    /// `from_str` on the bytes of the clock string.
    pub fn from_bytes(b: &[u8]) -> (r: Result<Time, TimeParseError>)
        ensures
            r is Ok <==> clock_shape(b@) && clock_valid(b@),
            r matches Ok(t) ==> t.wf(),
            r matches Ok(t) ==> (t.is_unset() <==> clock_instant(b@) < MODEM_MIN_VALID_TIMESTAMP),
            r matches Ok(t) ==> !t.is_unset() ==> t.timestamp == clock_instant(b@)
                && t.offset_seconds == clock_offset(b@),
    {
        let ghost sb = b@;
        if b.len() < 20 {
            return Err(TimeParseError::InvalidFormat);
        }
        let mut k: usize = 0;
        while k < 17
            invariant
                k <= 17,
                b@ == sb,
                sb.len() >= 20,
                forall|j: int| #![trigger sb[j]] 0 <= j < k && j % 3 != 2 ==> crate::codec::is_digit(sb[j]),
            decreases 17 - k,
        {
            if k % 3 != 2 && !(48 <= b[k] && b[k] <= 57) {
                return Err(TimeParseError::InvalidFormat);
            }
            k = k + 1;
        }
        if !(b[2] == 47 && b[5] == 47 && b[8] == 44 && b[11] == 58 && b[14] == 58) {
            return Err(TimeParseError::InvalidFormat);
        }
        let tail = b.split_at(18).1;
        assert(tail@ =~= sb.subrange(18, sb.len() as int));
        let q = match crate::codec::decode_int(tail) {
            Some(q) => q,
            None => {
                return Err(TimeParseError::InvalidFormat);
            },
        };
        if q < -103 || q > 103 {
            return Err(TimeParseError::InvalidFormat);
        }
        assert(clock_shape(sb));
        let offset: i32 = if b[17] == 45 {
            -(q as i32) * 900
        } else {
            (q as i32) * 900
        };
        let yy = ((b[0] - 48) * 10 + (b[1] - 48)) as i16;
        let year: i16 = if yy <= 68 {
            2000 + yy
        } else {
            1900 + yy
        };
        let month = ((b[3] - 48) * 10 + (b[4] - 48)) as i8;
        let day = ((b[6] - 48) * 10 + (b[7] - 48)) as i8;
        let hour = ((b[9] - 48) * 10 + (b[10] - 48)) as i8;
        let minute = ((b[12] - 48) * 10 + (b[13] - 48)) as i8;
        let second = ((b[15] - 48) * 10 + (b[16] - 48)) as i8;
        assert(sb[0] == b[0] && sb[1] == b[1] && crate::codec::is_digit(sb[0]) && crate::codec::is_digit(sb[1]));
        assert(crate::codec::is_digit(sb[3]) && crate::codec::is_digit(sb[4]));
        assert(crate::codec::is_digit(sb[6]) && crate::codec::is_digit(sb[7]));
        assert(crate::codec::is_digit(sb[9]) && crate::codec::is_digit(sb[10]));
        assert(crate::codec::is_digit(sb[12]) && crate::codec::is_digit(sb[13]));
        assert(crate::codec::is_digit(sb[15]) && crate::codec::is_digit(sb[16]));
        match civil_timestamp(year, month, day, hour, minute, second, offset) {
            None => Err(TimeParseError::InvalidFormat),
            Some(t) => {
                if t < MODEM_MIN_VALID_TIMESTAMP {
                    Ok(Time { timestamp: 0, offset_seconds: 0 })
                } else {
                    Ok(Time { timestamp: t, offset_seconds: offset })
                }
            },
        }
    }
}

/// The modem clock, as read by `GetClock`.
#[derive(Clone, Copy, Debug, PartialEq, Eq, Structural)]
pub struct Clock {
    /// The current time.
    pub time: Time,
}

impl Clock {
    /// Reads the payload of a `+CCLK` response: the clock string between
    /// double quotes.
    pub fn decode(f: &[u8]) -> (r: Result<Clock, CodecError>)
        ensures
            r is Ok <==> (unquote(f@) matches Some(c) && clock_shape(c) && clock_valid(c)),
            r matches Ok(c) ==> c.time.wf(),
    {
        let inner = match crate::codec::decode_str(f) {
            Some(v) => v,
            None => {
                return Err(CodecError::InvalidField(0));
            },
        };
        match Time::from_bytes(inner.as_slice()) {
            Ok(time) => Ok(Clock { time }),
            Err(_) => Err(CodecError::InvalidField(0)),
        }
    }
}

} // verus!
