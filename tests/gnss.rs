use monarch2::codec::encode_request;
use monarch2::gnss::{
    check_assistance_data, CivilDateTime, GnssAssistanceTypeDetails, GnssAssitanceType,
    GnssAsssitance, GnssFixReady, ProgramGnss, ProgramGnssAction,
};
use monarch2::types::{Bool, CodecError};

#[test]
fn program_gnss_action_serialization() {
    let written = encode_request("", "", &vec![ProgramGnssAction::Single.to_arg()], "", false);
    assert_eq!(String::from_utf8(written).unwrap(), "\"single\"");
}

#[test]
fn program_gnss_command_line() {
    let line = ProgramGnss { action: ProgramGnssAction::Stop }.encode();
    assert_eq!(line, b"AT+LPGNSSFIXPROG=\"stop\"\r\n".to_vec());
}

#[test]
fn test_gnss_fix_ready_parsing() {
    let input = b"0,\"2025-06-24T15:55:20.000000\",66563,\"20000000.000000\",\"0.000000\",\"0.000000\",\"0.000000\",\"0.000000\",\"0.000000\",\"0.000000\",\"+oyFVQ4AAADeYQAAAAAAAIADTG5IQAAAALCAxgJAAAAAAAAALkDoAwAAAwQBAAAAAAAAAAAAAAAAAAAAAAAAAAAAAAAAAAAAAAAAAAAAAAAAAAAAAAAAAAAAAAAAAAAAAAAAAAAAAAAAAAAAAAAAAAAAAAAAAAAAAAAAAAAAAAAAAAAAAAAAAAAAAAAAAAAAAAAAAAAAAAAAAAAAAAAAAAAAAAAAAAAAAAAAAAAAAAAAAAAAAAAAAAAAAAAAAAAAAAAAAAAAAAAAAAAAAAAAAAAAAAAAAAAAAAAAAAAAAAAAAAAAAAAAAAAAAAAAAAAAAAAAAAAAAAAAAAAAAAAAAAAAAAAAAAAAAAAAAAAAAAAAAAAAAAAAAAAAAAAAAAAAAAAAAAAAAAAAAAAAAAAAAAAAAAAAAAAAAAAAAAAAAAAAAAAAAAAAAAAAAAAAAAAAAAAAAAAAAAAAAAAAAAAAAAAAAAAAAAAAAADQEnNBAAAAAAAAAAAAAAAAAAAAAAAAAAAAAAAAAAAAAAAAAAAAAAAAAAAAAAAAAAAAAAAAaMpaaAAAAAA=\",(\"XX\",21)\r\n";
    let got = GnssFixReady::decode(input).ok();
    let expected = Some(GnssFixReady {
        fix_id: 0,
        timestamp: CivilDateTime {
            year: 2025,
            month: 6,
            day: 24,
            hour: 15,
            minute: 55,
            second: 20,
            subsec_nanosecond: 0,
        },
        ttf: 66563,
        confidence: b"20000000.000000".to_vec(),
        lat: b"0.000000".to_vec(),
        long: b"0.000000".to_vec(),
        elev: b"0.000000".to_vec(),
        north_speed: b"0.000000".to_vec(),
        east_speed: b"0.000000".to_vec(),
        down_speed: b"0.000000".to_vec(),
        raw_data: b"+oyFVQ4AAADeYQAAAAAAAIADTG5IQAAAALCAxgJAAAAAAAAALkDoAwAAAwQBAAAAAAAAAAAAAAAAAAAAAAAAAAAAAAAAAAAAAAAAAAAAAAAAAAAAAAAAAAAAAAAAAAAAAAAAAAAAAAAAAAAAAAAAAAAAAAAAAAAAAAAAAAAAAAAAAAAAAAAAAAAAAAAAAAAAAAAAAAAAAAAAAAAAAAAAAAAAAAAAAAAAAAAAAAAAAAAAAAAAAAAAAAAAAAAAAAAAAAAAAAAAAAAAAAAAAAAAAAAAAAAAAAAAAAAAAAAAAAAAAAAAAAAAAAAAAAAAAAAAAAAAAAAAAAAAAAAAAAAAAAAAAAAAAAAAAAAAAAAAAAAAAAAAAAAAAAAAAAAAAAAAAAAAAAAAAAAAAAAAAAAAAAAAAAAAAAAAAAAAAAAAAAAAAAAAAAAAAAAAAAAAAAAAAAAAAAAAAAAAAAAAAAAAAAAAAAAAAAAAAADQEnNBAAAAAAAAAAAAAAAAAAAAAAAAAAAAAAAAAAAAAAAAAAAAAAAAAAAAAAAAAAAAAAAAaMpaaAAAAAA=".to_vec(),
        sats: Some(monarch2::gnss::SateliteInfos(vec![monarch2::gnss::SateliteInfo {
            sat_no: b"XX".to_vec(),
            signal_strength: 21,
        }])),
    });
    assert_eq!(got, expected);
    let conf: f32 = String::from_utf8(got.unwrap().confidence).unwrap().parse().unwrap();
    assert_eq!(conf, 20000000.0);
}

#[test]
fn fix_with_several_satellites() {
    let got = GnssFixReady::decode(b"1,\"2025-01-02T03:04:05.5\",7,\"1\",\"2\",\"3\",\"4\",\"5\",\"6\",\"7\",\"r\",(\"XX\",21),(\"YY\",22)").unwrap();
    assert_eq!(got.timestamp.subsec_nanosecond, 500_000_000);
    let sats = got.sats.unwrap().0;
    assert_eq!(sats.len(), 2);
    assert_eq!(sats[1].sat_no, b"YY".to_vec());
    assert_eq!(sats[1].signal_strength, 22);
}

#[test]
fn fix_with_bad_date_is_refused() {
    assert!(GnssFixReady::decode(b"1,\"2025-02-30T03:04:05\",7,\"1\",\"2\",\"3\",\"4\",\"5\",\"6\",\"7\",\"r\"").is_err());
    assert!(CivilDateTime::decode(b"2024-02-29T23:59:59").is_some());
    assert!(CivilDateTime::decode(b"2023-02-29T23:59:59").is_none());
}

#[test]
fn gnss_assistance_multi_line() {
    let input = b"+LPGNSSASSISTANCE: 0,1,81390742,0,0\r\n+LPGNSSASSISTANCE: 1,0,0,0,0\r\n+LPGNSSASSISTANCE: 2,0,0,0,0";
    let ds = GnssAsssitance::decode(input).unwrap().0;
    assert_eq!(ds.len(), 3);
    assert_eq!(
        ds[0],
        GnssAssistanceTypeDetails {
            typ: GnssAssitanceType::Almanac,
            available: Bool::True,
            last_update: 81390742,
            time_to_update: 0,
            time_to_expiration: 0,
        }
    );
    assert_eq!(ds[1].typ, GnssAssitanceType::RealTimeEphemeris);
    assert_eq!(ds[2].typ, GnssAssitanceType::PredictedEphemeris);
    assert_eq!(check_assistance_data(&ds), (true, true));
}

#[test]
fn assistance_flags_follow_the_last_record() {
    let input = b"+LPGNSSASSISTANCE: 0,1,5,100,200\r\n+LPGNSSASSISTANCE: 1,1,5,-1,0\r\n";
    let ds = GnssAsssitance::decode(input).unwrap().0;
    assert_eq!(check_assistance_data(&ds), (false, true));
    assert!(GnssAsssitance::decode(b"+LPGNSSASSISTANCE: 3,1,5,100,200").is_err());
    assert!(GnssAsssitance::decode(b"+OTHER: 0,1,5,100,200").is_err());
}

#[test]
fn assistance_errors_name_the_field() {
    assert_eq!(GnssAsssitance::decode(b"+LPGNSSASSISTANCE: 0,2,0,0,0"), Err(CodecError::InvalidField(1)));
    assert_eq!(GnssAsssitance::decode(b"+LPGNSSASSISTANCE: 0,1,0"), Err(CodecError::MissingField(3)));
    assert_eq!(GnssAsssitance::decode(b"+LPGNSSASSISTANCE: x,1,0,0,0"), Err(CodecError::InvalidField(0)));
    assert_eq!(GnssAsssitance::decode(b"+LPGNSSASSISTANCE: 0,1,0,z,0"), Err(CodecError::InvalidField(3)));
    assert_eq!(GnssAsssitance::decode(b"+LPGNSSASSISTANCE: 5,1,0,0,0"), Err(CodecError::UnknownEnum(0)));
    assert_eq!(
        GnssAsssitance::decode(b"+LPGNSSASSISTANCE: 0,1,0,0,0\r\nLPGNSSASSISTANCE: 1,0,0,0,0"),
        Err(CodecError::PrefixMismatch)
    );
}
