use monarch2::codec::strip_response_prefix;
use monarch2::coap;
use monarch2::device::{ActiveRAT, RAT};
use monarch2::error::Error;
use monarch2::gnss::{FixSensitivity, GnssCloudServerName, GnssConfig, GnssTimeout, LocationMode};
use monarch2::mobile_equipment::SignalQuality;
use monarch2::mqtt::{MQTTStatusCode, PublishResponse, Qos, Received, Subscribed};
use monarch2::types::{Bool, CodecError, Nullable, AT};

#[test]
fn response_prefix_is_stripped() {
    assert_eq!(strip_response_prefix(b"+CCLK: \"24/05/30,13:22:45+08\"\r\n", "+CCLK"), Some(b"\"24/05/30,13:22:45+08\"".to_vec()));
    assert_eq!(strip_response_prefix(b"+CSQ:17,99", "+CSQ"), Some(b"17,99".to_vec()));
    assert_eq!(strip_response_prefix(b"+CSQ 17,99", "+CSQ"), None);
    assert_eq!(strip_response_prefix(b"+CCLK: 1", "+CSQ"), None);
}

#[test]
fn small_responses() {
    assert_eq!(SignalQuality::decode(b"-71,99"), Ok(SignalQuality { rssi: -71, ber: 99 }));
    assert!(SignalQuality::decode(b"17").is_err());
    assert_eq!(GnssTimeout::decode(b"120").unwrap().timeout, 120);
    assert_eq!(ActiveRAT::decode(b"2").unwrap().rat, RAT::NBIoT);
    assert_eq!(ActiveRAT::decode(b"9"), Err(CodecError::UnknownEnum(0)));
    let c = GnssCloudServerName::decode(b"\"example.net\",\"v1\"").unwrap();
    assert_eq!(c.hostname, b"example.net".to_vec());
    assert_eq!(c.api_version, b"v1".to_vec());
    let g = GnssConfig::decode(b"0,3,2,,1").unwrap();
    assert_eq!(g.loc_mode, LocationMode::OnDeviceLocation);
    assert_eq!(g.fix_sensi, FixSensitivity::High);
    assert_eq!(g.metrics, Bool::True);
    assert!(GnssConfig::decode(b"0,3,2,,7").is_err());
}

#[test]
fn mqtt_reports() {
    let p = PublishResponse::decode(b"0,12,-8").unwrap();
    assert_eq!((p.id, p.pmid, p.rc), (0, 12, MQTTStatusCode::Tls));
    assert!(PublishResponse::decode(b"0,12,-99").is_err());
    let r = Received::decode(b"0,\"a/b\",5,1,42").unwrap();
    assert_eq!(r.topic, b"a/b".to_vec());
    assert_eq!(r.qos, Qos::AtLeastOnce);
    assert_eq!(r.mid, Some(42));
    assert_eq!(Received::decode(b"0,\"a/b\",5,0").unwrap().mid, None);
    let s = Subscribed::decode(b"0,\"t\",0").unwrap();
    assert_eq!(s.rc, MQTTStatusCode::Success);
}

#[test]
fn coap_report() {
    let c = coap::Connected::decode(b"1,\"10.0.0.1\",5684,4000,1").unwrap();
    assert_eq!(c.server_address, b"10.0.0.1".to_vec());
    assert_eq!(c.port, 5684);
    assert_eq!(c.dtls_enabled, Bool::True);
    assert!(coap::Connected::decode(b"1,\"10.0.0.1\",5684,4000,2").is_err());
}

#[test]
fn bare_at_and_conversions() {
    assert_eq!(AT.encode(), b"AT\r\n".to_vec());
    let mut n = Nullable::Value(3u8);
    if let Some(v) = n.as_option_mut() {
        *v = 9;
    }
    assert_eq!(n, Nullable::Value(9));
    let o: Option<u8> = Nullable::Value(1u8).into();
    assert_eq!(o, Some(1));
    let back: Nullable<u8> = None.into();
    assert_eq!(back, Nullable::Empty);
    let e: Error<u8> = Error::from(7u8);
    assert_eq!(e, Error::AT(7));
}
