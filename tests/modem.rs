use monarch2::device::{Clock, Time};
use monarch2::error::Error;
use monarch2::mqtt::{Connected, MQTTStatusCode, Qos};
use monarch2::modem::{
    assistance_commands, assistance_step, begin_commands, get_time_step, lte_detached, lte_registered,
    mqtt_configure_command, mqtt_connect_outcome, mqtt_send_commands, nvm_index_allowed,
    nvm_write_commands, tls_profile_command, AssistanceStep, ModemState, MqttAuth, TimeSyncStep,
    UsernamePassword,
};
use monarch2::network::NetworkRegistrationState;
use monarch2::nvm::DataType;

type E = Error<()>;

#[test]
fn mqtt_publish_handshake() {
    let (prep, publish) = mqtt_send_commands(b"t/x", Qos::AtLeastOnce, b"hi");
    assert_eq!(prep.encode(), b"AT+SQNSMQTTPUBLISH=0,\"t/x\",1,2\r".to_vec());
    assert_eq!(publish.encode(), b"hi".to_vec());
}

#[test]
fn reserved_nvm_index() {
    assert!(!nvm_index_allowed(3));
    for i in 0..=4u8 {
        assert!(!nvm_index_allowed(i));
    }
    for i in 7..=10u8 {
        assert!(!nvm_index_allowed(i));
    }
    assert!(nvm_index_allowed(5));
    assert!(nvm_index_allowed(6));
    assert!(nvm_index_allowed(11));
    assert!(nvm_index_allowed(255));
}

#[test]
fn nvm_write_lines() {
    let (prep, write) = nvm_write_commands(DataType::Certificate, 5, b"abc");
    assert_eq!(prep.encode(), b"AT+SQNSNVW=\"certificate\",5,3\r\n".to_vec());
    assert_eq!(write.encode(), b"abc".to_vec());
}

#[test]
fn mqtt_connect_outcomes() {
    let ok = Connected { id: 0, rc: MQTTStatusCode::Success };
    assert_eq!(mqtt_connect_outcome::<()>(Some(ok)), Ok(()));
    let bad = Connected { id: 0, rc: MQTTStatusCode::Auth };
    assert_eq!(mqtt_connect_outcome::<()>(Some(bad)), Err(E::MQTT(MQTTStatusCode::Auth)));
    assert_eq!(mqtt_connect_outcome::<()>(None), Err(E::Timeout));
}

#[test]
fn get_time_steps() {
    let unset = Clock { time: Time { timestamp: 0, offset_seconds: 0 } };
    let good = Clock { time: Time::from_str("24/05/30,13:22:45+08").unwrap() };
    assert_eq!(get_time_step(None, good), TimeSyncStep::Done(good));
    assert_eq!(get_time_step(None, unset), TimeSyncStep::Connect);
    assert_eq!(get_time_step(Some(0), unset), TimeSyncStep::Retry(1));
    assert_eq!(get_time_step(Some(3), unset), TimeSyncStep::Retry(4));
    assert_eq!(get_time_step(Some(4), unset), TimeSyncStep::Disconnect(None));
    assert_eq!(get_time_step(Some(2), good), TimeSyncStep::Disconnect(Some(good)));
}

#[test]
fn registration_waits() {
    assert!(lte_registered(NetworkRegistrationState::RegisteredHome));
    assert!(lte_registered(NetworkRegistrationState::RegisteredRoaming));
    assert!(!lte_registered(NetworkRegistrationState::RegisteredSmsOnlyHome));
    assert!(!lte_registered(NetworkRegistrationState::Searching));
    assert!(lte_detached(NetworkRegistrationState::NotSearching));
    assert!(!lte_detached(NetworkRegistrationState::Denied));
}

#[test]
fn begin_is_sent_once() {
    let (cmee, cereg) = begin_commands(false).unwrap();
    assert_eq!(cmee.encode(), b"AT+CMEE=1\r\n".to_vec());
    assert_eq!(cereg.encode(), b"AT+CEREG=1\r\n".to_vec());
    assert!(begin_commands(true).is_none());
}

#[test]
fn tls_profile_line() {
    let c = tls_profile_command(1, Some(5), None, Some(6));
    assert_eq!(c.encode(), b"AT+SQNSPCFG=1,3,\"\",7,5,,6,\"\",,0,0,0\r\n".to_vec());
}

#[test]
fn mqtt_configure_lines() {
    let c = mqtt_configure_command(b"dev", None);
    assert_eq!(c.encode(), b"AT+SQNSMQTTCFG=0,\"dev\",\"\",\"\"\r\n".to_vec());
    let c = mqtt_configure_command(b"dev", Some(MqttAuth::SecurityProfile(2)));
    assert_eq!(c.encode(), b"AT+SQNSMQTTCFG=0,\"dev\",\"\",\"\",2\r\n".to_vec());
    let up = UsernamePassword { username: b"u".to_vec(), password: b"p".to_vec() };
    let c = mqtt_configure_command(b"dev", Some(MqttAuth::UsernamePassword(up)));
    assert_eq!(c.encode(), b"AT+SQNSMQTTCFG=0,\"dev\",\"u\",\"p\"\r\n".to_vec());
}

#[test]
fn assistance_downloads() {
    let r = assistance_commands(true, true);
    assert_eq!(r.len(), 2);
    assert_eq!(r[0].encode(), b"AT+LPGNSSASSISTANCE=0\r\n".to_vec());
    assert_eq!(r[1].encode(), b"AT+LPGNSSASSISTANCE=1\r\n".to_vec());
    assert!(assistance_commands(false, false).is_empty());
}

#[test]
fn assistance_steps() {
    assert_eq!(assistance_step(None, false, false), AssistanceStep::Done);
    assert_eq!(assistance_step(None, true, false), AssistanceStep::Download);
    assert_eq!(assistance_step(Some(0), false, true), AssistanceStep::Poll(1));
    assert_eq!(assistance_step(Some(8), true, true), AssistanceStep::Poll(9));
    assert_eq!(assistance_step(Some(9), true, true), AssistanceStep::Disconnect);
    assert_eq!(assistance_step(Some(3), false, false), AssistanceStep::Disconnect);
}

#[test]
fn registration_record_sets_the_state() {
    let mut st = ModemState::new();
    st.handle_record(b"+CEREG: 1");
    assert_eq!(st.reg_state, NetworkRegistrationState::RegisteredHome);
    st.handle_record(b"+CEREG: 77");
    assert_eq!(st.reg_state, NetworkRegistrationState::RegisteredHome);
}
