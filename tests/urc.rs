use monarch2::codec::split_fields;
use monarch2::modem::ModemState;
use monarch2::mqtt::MQTTStatusCode;
use monarch2::network::NetworkRegistrationState;
use monarch2::urc::{ParseError, Urc, UrcKind};

#[test]
fn test_urc_parse() {
    let input = b"\r\n+LPGNSSFIXREADY: 0,\"2025-06-24T15:55:20.000000\",66563,\"20000000.000000\",\"0.000000\",\"0.000000\",\"0.000000\",\"0.000000\",\"0.000000\",\"0.000000\",\"+oyFVQ4AAADeYQAAAAAAAIADTG5IQAAAALCAxgJAAAAAAAAALkDoAwAAAwQBAAAAAAAAAAAAAAAAAAAAAAAAAAAAAAAAAAAAAAAAAAAAAAAAAAAAAAAAAAAAAAAAAAAAAAAAAAAAAAAAAAAAAAAAAAAAAAAAAAAAAAAAAAAAAAAAAAAAAAAAAAAAAAAAAAAAAAAAAAAAAAAAAAAAAAAAAAAAAAAAAAAAAAAAAAAAAAAAAAAAAAAAAAAAAAAAAAAAAAAAAAAAAAAAAAAAAAAAAAAAAAAAAAAAAAAAAAAAAAAAAAAAAAAAAAAAAAAAAAAAAAAAAAAAAAAAAAAAAAAAAAAAAAAAAAAAAAAAAAAAAAAAAAAAAAAAAAAAAAAAAAAAAAAAAAAAAAAAAAAAAAAAAAAAAAAAAAAAAAAAAAAAAAAAAAAAAAAAAAAAAAAAAAAAAAAAAAAAAAAAAAAAAAAAAAAAAAAAAAAAAADQEnNBAAAAAAAAAAAAAAAAAAAAAAAAAAAAAAAAAAAAAAAAAAAAAAAAAAAAAAAAAAAAAAAAaMpaaAAAAAA=\"\r\n";
    let x = Urc::parse(input);
    assert_eq!(708, x.unwrap().1);
}

#[test]
fn urc_parse_gives_the_record_without_line_endings() {
    let (rec, n) = Urc::parse(b"\r\n+CEREG: 5\r\n+CEREG: 1\r\n").unwrap();
    assert_eq!(rec, b"+CEREG: 5".to_vec());
    assert_eq!(n, 13);
}

#[test]
fn urc_parse_without_payload() {
    let (rec, n) = Urc::parse(b"\r\n+SYSSTART\r\n").unwrap();
    assert_eq!(rec, b"+SYSSTART".to_vec());
    assert_eq!(n, 13);
}

#[test]
fn urc_parse_incomplete_and_unknown() {
    assert_eq!(Urc::parse(b"\r\n+CEREG: 5"), Err(ParseError::Incomplete));
    assert_eq!(Urc::parse(b"\r\n+FOO: 5\r\n"), Err(ParseError::NoMatch));
    assert_eq!(Urc::parse(b"+CEREG: 5\r\n"), Err(ParseError::NoMatch));
}

#[test]
fn dispatch_gives_one_value_of_the_prefix_kind() {
    let u = Urc::from_record(b"+CEREG: 5").unwrap().unwrap();
    assert_eq!(Urc::kind_of(b"+CEREG: 5"), Some(UrcKind::NetworkRegistrationStatus));
    match u {
        Urc::NetworkRegistrationStatus(s) => assert_eq!(s.stat, NetworkRegistrationState::RegisteredRoaming),
        _ => panic!("wrong variant"),
    }
    match Urc::from_record(b"+SQNSMQTTONCONNECT:0,-5").unwrap().unwrap() {
        Urc::MqttConnected(c) => {
            assert_eq!(c.id, 0);
            assert_eq!(c.rc, MQTTStatusCode::ConnRefused);
        }
        _ => panic!("wrong variant"),
    }
    assert_eq!(Urc::from_record(b"+SHUTDOWN").unwrap().unwrap(), Urc::Shutdown);
    assert_eq!(Urc::from_record(b"+SQNSMQTTPUBLISH: 7").unwrap().unwrap(), Urc::MqttPromptToPublish(monarch2::mqtt::PromptToPublish { pmid: 7 }));
}

#[test]
fn dispatch_unknown_prefix_gives_nothing() {
    assert!(Urc::from_record(b"+CEREGX: 5").is_none());
    assert!(Urc::from_record(b"+UNKNOWN: 1").is_none());
    assert!(Urc::from_record(b"OK").is_none());
}

#[test]
fn dispatch_bad_payload_is_an_error() {
    assert!(Urc::from_record(b"+CEREG: 42").unwrap().is_err());
    assert!(Urc::from_record(b"+SQNSMQTTONCONNECT: 0,x").unwrap().is_err());
}

#[test]
fn handler_keeps_last_registration() {
    let mut st = ModemState::new();
    let urcs = vec![
        Urc::from_record(b"+CEREG: 2").unwrap().unwrap(),
        Urc::from_record(b"+CEREG: 1").unwrap().unwrap(),
        Urc::Start,
        Urc::from_record(b"+SQNSMQTTONCONNECT: 0,0").unwrap().unwrap(),
        Urc::from_record(b"+CEREG: 5").unwrap().unwrap(),
        Urc::Shutdown,
    ];
    st.handle_all(urcs);
    assert_eq!(st.get_network_registration_state(), NetworkRegistrationState::RegisteredRoaming);
    let c = st.take_mqtt_connected().unwrap();
    assert_eq!(c.rc, MQTTStatusCode::Success);
    assert!(st.take_mqtt_connected().is_none());
}

#[test]
fn handler_ignores_unknown_records() {
    let mut st = ModemState::new();
    st.handle_record(b"+CEREG: 1");
    assert_eq!(st.reg_state, NetworkRegistrationState::RegisteredHome);
    st.handle_record(b"+NOPE: 0");
    st.handle_record(b"garbage");
    assert_eq!(st.reg_state, NetworkRegistrationState::RegisteredHome);
    assert!(st.mqtt_connected.is_none());
    assert!(st.fix.is_none());
}

#[test]
fn fix_report_is_latched() {
    let mut st = ModemState::new();
    st.handle_record(b"+LPGNSSFIXREADY: 3,\"2025-06-24T15:55:20.000000\",100,\"1.5\",\"0\",\"0\",\"0\",\"0\",\"0\",\"0\",\"\"");
    let f = st.take_fix().unwrap();
    assert_eq!(f.fix_id, 3);
    assert!(f.sats.is_none());
    assert!(st.take_fix().is_none());
}

#[test]
fn split_keeps_quoted_commas() {
    let fs = split_fields(b"1,\"a,b\",,3");
    assert_eq!(fs, vec![b"1".to_vec(), b"\"a,b\"".to_vec(), Vec::new(), b"3".to_vec()]);
}
