use crate::device::{Clock, MODEM_MIN_VALID_TIMESTAMP};
use crate::error::Error;
use crate::gnss::{
    AcquisitionMode, FixSensitivity, GnssAssitanceType, GnssFixReady, LocationMode, ProgramGnss,
    ProgramGnssAction, SetGnssConfig, UpdateGnssAssitance, UrcNotificationSetting,
};
use crate::mobile_equipment::{FunctionalMode, SetFunctionality};
use crate::mqtt::{self, MQTTStatusCode, Qos};
use crate::network::{NetworkRegistrationState, NetworkSelectionMode, PLMNSelection};
use crate::nvm::{DataType, PrepareWrite, Write};
use crate::pdp::{
    DefinePDPContext, PDPDComp, PDPHComp, PDPIPv4Alloc, PDPRequestType, PDPType, PDPPCSCF,
};
use crate::ssl_tls::{self, Resume, SslTlsVersion, StorageId};
use crate::system_features::{
    CEREGReports, CMEErrorReports, ConfigureCEREGReports, ConfigureCMEErrorReports,
};
use crate::types::{Bool, Nullable, Reserved};
use crate::urc::{payload, payload_decodes, record_kind, Urc};
use vstd::prelude::*;

verus! {

/// What the modem has reported: the registration state, and the latest
/// MQTT connection report and GNSS fix that nobody has taken yet.
#[derive(Debug)]
pub struct ModemState {
    pub reg_state: NetworkRegistrationState,
    pub mqtt_connected: Option<mqtt::Connected>,
    pub fix: Option<GnssFixReady>,
}

/// The state after one result code: a registration report sets the state,
/// a connection report or a fix is latched (the last one wins), the others
/// change nothing.
pub open spec fn step(s: ModemState, u: Urc) -> ModemState {
    match u {
        Urc::NetworkRegistrationStatus(st) => ModemState { reg_state: st.stat, ..s },
        Urc::MqttConnected(c) => ModemState { mqtt_connected: Some(c), ..s },
        Urc::GnssFixReady(f) => ModemState { fix: Some(f), ..s },
        _ => s,
    }
}

/// The state after a sequence of result codes, in order.
pub open spec fn run(s: ModemState, us: Seq<Urc>) -> ModemState
    decreases us.len(),
{
    if us.len() == 0 {
        s
    } else {
        step(run(s, us.drop_last()), us.last())
    }
}

/// The state of the last registration report of a sequence, if any.
pub open spec fn last_registration(us: Seq<Urc>) -> Option<NetworkRegistrationState>
    decreases us.len(),
{
    if us.len() == 0 {
        None
    } else {
        match us.last() {
            Urc::NetworkRegistrationStatus(st) => Some(st.stat),
            _ => last_registration(us.drop_last()),
        }
    }
}

/// After any sequence of result codes the registration state is that of the
/// last registration report, or unchanged where there is none.
pub proof fn law_reg_state_is_last_report(s: ModemState, us: Seq<Urc>)
    ensures
        run(s, us).reg_state == match last_registration(us) {
            Some(st) => st,
            None => s.reg_state,
        },
    decreases us.len(),
{
    if us.len() > 0 {
        law_reg_state_is_last_report(s, us.drop_last());
    }
}

impl ModemState {
    /// Not searching, nothing latched.
    pub fn new() -> (r: ModemState)
        ensures
            r.reg_state == NetworkRegistrationState::NotSearching,
            r.mqtt_connected is None,
            r.fix is None,
    {
        ModemState {
            reg_state: NetworkRegistrationState::NotSearching,
            mqtt_connected: None,
            fix: None,
        }
    }

    /// Takes in one result code.
    pub fn handle_urc(&mut self, u: Urc)
        ensures
            *final(self) == step(*old(self), u),
    {
        match u {
            Urc::NetworkRegistrationStatus(st) => {
                self.reg_state = st.stat;
            },
            Urc::MqttConnected(c) => {
                self.mqtt_connected = Some(c);
            },
            Urc::GnssFixReady(f) => {
                self.fix = Some(f);
            },
            _ => {},
        }
    }

    /// Takes in result codes in order.
    pub fn handle_all(&mut self, us: Vec<Urc>)
        ensures
            *final(self) == run(*old(self), us@),
    {
        let ghost all = us@;
        let mut us = us;
        let mut rest: Vec<Urc> = Vec::new();
        while us.len() > 0
            invariant
                all == us@ + rest@.reverse(),
            decreases us@.len(),
        {
            let u = us.pop().unwrap();
            rest.push(u);
            assert(us@ + rest@.reverse() =~= all);
        }
        assert(rest@.reverse() =~= all);
        let ghost start = *self;
        let ghost mut j: int = 0;
        assert(all.subrange(0, 0) =~= Seq::<Urc>::empty());
        assert(all.subrange(0, all.len() as int) =~= all);
        while rest.len() > 0
            invariant
                0 <= j <= all.len(),
                rest@.reverse() == all.subrange(j, all.len() as int),
                *self == run(start, all.subrange(0, j)),
            decreases rest@.len(),
        {
            let ghost before = rest@;
            let u = rest.pop().unwrap();
            proof {
                assert(before == rest@.push(u));
                assert(before.reverse().len() == before.len());
                assert(j < all.len());
                assert(before.reverse()[0] == u);
                assert(all.subrange(j, all.len() as int)[0] == all[j]);
                assert(all.subrange(0, j + 1).drop_last() =~= all.subrange(0, j));
                assert(rest@.reverse() =~= all.subrange(j + 1, all.len() as int)) by {
                    assert forall|m: int| 0 <= m < rest@.len() implies rest@.reverse()[m] == all.subrange(j + 1, all.len() as int)[m] by {
                        assert(before.reverse()[m + 1] == before[before.len() - 2 - m]);
                        assert(before[before.len() - 2 - m] == rest@[rest@.len() - 1 - m]);
                        assert(before.reverse()[m + 1] == rest@.reverse()[m]);
                        assert(all.subrange(j, all.len() as int)[m + 1] == all[j + 1 + m]);
                    }
                }
            }
            self.handle_urc(u);
            proof {
                j = j + 1;
            }
        }
        assert(all.subrange(0, all.len() as int) =~= all);
    }

    /// Takes in one record of the modem: a result code of the table whose
    /// payload reads is decoded and taken in; any other record changes nothing.
    pub fn handle_record(&mut self, rec: &[u8])
        ensures
            record_kind(rec@) is None ==> *final(self) == *old(self),
            record_kind(rec@) matches Some(k) ==> (payload_decodes(k, payload(rec@, k)) ==> exists|u: Urc|
                u.kind() == k && u.reads_from(payload(rec@, k)) && #[trigger] step(*old(self), u)
                    == *final(self)),
            record_kind(rec@) matches Some(k) ==> (*final(self) == *old(self) || exists|u: Urc|
                u.kind() == k && u.reads_from(payload(rec@, k)) && #[trigger] step(*old(self), u)
                    == *final(self)),
    {
        match Urc::from_record(rec) {
            Some(Ok(u)) => self.handle_urc(u),
            _ => {},
        }
    }

    pub fn get_network_registration_state(&self) -> (r: NetworkRegistrationState)
        ensures
            r == self.reg_state,
    {
        self.reg_state
    }

    /// Takes the latched connection report, leaving none.
    pub fn take_mqtt_connected(&mut self) -> (r: Option<mqtt::Connected>)
        ensures
            r == old(self).mqtt_connected,
            final(self).mqtt_connected is None,
            final(self).reg_state == old(self).reg_state,
            final(self).fix == old(self).fix,
    {
        let r = self.mqtt_connected;
        self.mqtt_connected = None;
        r
    }

    /// Takes the latched fix, leaving none.
    pub fn take_fix(&mut self) -> (r: Option<GnssFixReady>)
        ensures
            r == old(self).fix,
            final(self).fix is None,
            final(self).reg_state == old(self).reg_state,
            final(self).mqtt_connected == old(self).mqtt_connected,
    {
        let r = self.fix.take();
        r
    }
}

/// Whether `lte_connect` stops waiting: registered at home or roaming.
pub fn lte_registered(state: NetworkRegistrationState) -> (r: bool)
    ensures
        r == (state == NetworkRegistrationState::RegisteredHome || state
            == NetworkRegistrationState::RegisteredRoaming),
{
    match state {
        NetworkRegistrationState::RegisteredHome => true,
        NetworkRegistrationState::RegisteredRoaming => true,
        _ => false,
    }
}

/// Whether `lte_disconnect` stops waiting: no longer searching.
pub fn lte_detached(state: NetworkRegistrationState) -> (r: bool)
    ensures
        r == (state == NetworkRegistrationState::NotSearching),
{
    state == NetworkRegistrationState::NotSearching
}

/// Milliseconds between two looks at the registration state while attaching.
pub const LTE_CONNECT_POLL_MS: u64 = 1000;

/// Milliseconds between two looks at the registration state while detaching.
pub const LTE_DISCONNECT_POLL_MS: u64 = 100;

/// What attaching sends: full functionality, then automatic operator selection.
pub fn lte_connect_commands() -> (r: (SetFunctionality, PLMNSelection))
    ensures
        r.0.fun == FunctionalMode::Full,
        r.0.rst is None,
        r.1.mode == NetworkSelectionMode::Automatic,
        r.1.format is None,
        r.1.oper is None,
{
    (
        SetFunctionality { fun: FunctionalMode::Full, rst: None },
        PLMNSelection { mode: NetworkSelectionMode::Automatic, format: None, oper: None },
    )
}

/// What detaching sends: minimum functionality.
pub fn lte_disconnect_command() -> (r: SetFunctionality)
    ensures
        r.fun == FunctionalMode::Minimum,
        r.rst is None,
{
    SetFunctionality { fun: FunctionalMode::Minimum, rst: None }
}

/// What `begin` sends: numeric error reports and registration reports,
/// once; nothing where the modem is initialised already.
pub fn begin_commands(initialized: bool) -> (r: Option<(ConfigureCMEErrorReports, ConfigureCEREGReports)>)
    ensures
        initialized ==> r is None,
        !initialized ==> r == Some(
            (
                ConfigureCMEErrorReports { typ: CMEErrorReports::Numeric },
                ConfigureCEREGReports { typ: CEREGReports::Enabled },
            ),
        ),
{
    if initialized {
        None
    } else {
        Some(
            (
                ConfigureCMEErrorReports { typ: CMEErrorReports::Numeric },
                ConfigureCEREGReports { typ: CEREGReports::Enabled },
            ),
        )
    }
}

/// How often the clock is read again after attaching.
pub const CLOCK_SYNC_RETRIES: u8 = 5;

/// Milliseconds before each new reading of the clock.
pub const CLOCK_SYNC_DELAY_MS: u64 = 500;

/// What `get_time` does after a reading of the clock.
#[derive(Clone, Copy, Debug, PartialEq, Eq, Structural)]
pub enum TimeSyncStep {
    /// Return this clock.
    Done(Clock),
    /// Attach to the network, then read again as retry 0.
    Connect,
    /// Wait, then read again as this retry.
    Retry(u8),
    /// Detach, then return this clock, or fail to synchronise where there is none.
    Disconnect(Option<Clock>),
}

/// `get_time`'s next step after a reading: `retry` is `None` for the first
/// reading and the retry's number after attaching. An unset clock is read
/// again up to `CLOCK_SYNC_RETRIES` times.
pub open spec fn time_sync_step(retry: Option<u8>, reading: Clock) -> TimeSyncStep {
    match retry {
        None => if reading.time.timestamp != 0 {
            TimeSyncStep::Done(reading)
        } else {
            TimeSyncStep::Connect
        },
        Some(n) => if reading.time.timestamp != 0 {
            TimeSyncStep::Disconnect(Some(reading))
        } else if n + 1 < CLOCK_SYNC_RETRIES {
            TimeSyncStep::Retry((n + 1) as u8)
        } else {
            TimeSyncStep::Disconnect(None)
        },
    }
}

/// `get_time` succeeds only with a synchronised clock: for any counter, a
/// clock that a step of a valid reading hands back, and so what
/// `get_time_result` returns, is not before 1 January 2023.
pub proof fn law_get_time_synchronised(retry: Option<u8>, reading: Clock)
    requires
        reading.time.wf(),
    ensures
        time_sync_step(retry, reading) matches TimeSyncStep::Done(c) ==> c.time.timestamp
            >= MODEM_MIN_VALID_TIMESTAMP,
        time_sync_step(retry, reading) matches TimeSyncStep::Disconnect(Some(c)) ==> c.time.timestamp
            >= MODEM_MIN_VALID_TIMESTAMP,
{
}

/// Decides `get_time`'s next step after a reading. Whatever the counter, a
/// clock handed back is not before 1 January 2023.
pub fn get_time_step(retry: Option<u8>, reading: Clock) -> (r: TimeSyncStep)
    requires
        reading.time.wf(),
    ensures
        r == time_sync_step(retry, reading),
        r matches TimeSyncStep::Done(c) ==> c.time.timestamp >= MODEM_MIN_VALID_TIMESTAMP,
        r matches TimeSyncStep::Disconnect(Some(c)) ==> c.time.timestamp >= MODEM_MIN_VALID_TIMESTAMP,
{
    match retry {
        None => if !reading.time.is_zero() {
            TimeSyncStep::Done(reading)
        } else {
            TimeSyncStep::Connect
        },
        Some(n) => if !reading.time.is_zero() {
            TimeSyncStep::Disconnect(Some(reading))
        } else if n < CLOCK_SYNC_RETRIES - 1 {
            TimeSyncStep::Retry(n + 1)
        } else {
            TimeSyncStep::Disconnect(None)
        },
    }
}

/// What `get_time` returns after detaching: the synchronised clock, or the
/// failure to synchronise.
pub fn get_time_result<E>(clock: Option<Clock>) -> (r: Result<Clock, Error<E>>)
    ensures
        clock matches Some(c) ==> r == Ok::<Clock, Error<E>>(c),
        clock is None ==> r == Err::<Clock, Error<E>>(Error::ClockSynchronization),
{
    match clock {
        Some(c) => Ok(c),
        None => Err(Error::ClockSynchronization),
    }
}

/// Seconds that `mqtt_connect` waits for the connection report.
pub const MQTT_CONNECT_TIMEOUT_S: u64 = 30;

/// What `mqtt_connect` sends after attaching: connect client 0 to `host`.
pub fn mqtt_connect_command(host: &[u8], port: Option<u32>) -> (r: mqtt::Connect)
    ensures
        r.id == 0,
        r.host@ == host@,
        r.port == port,
        r.keepalive is None,
{
    mqtt::Connect { id: 0, host: crate::codec::to_vec(host), port, keepalive: None }
}

/// What `mqtt_connect` returns, given the first connection report within the
/// time-out (`None` where none came).
pub fn mqtt_connect_outcome<E>(report: Option<mqtt::Connected>) -> (r: Result<(), Error<E>>)
    ensures
        r is Ok <==> (report matches Some(c) && c.rc == MQTTStatusCode::Success),
        report is None ==> r == Err::<(), Error<E>>(Error::Timeout),
        report matches Some(c) ==> c.rc != MQTTStatusCode::Success ==> r == Err::<(), Error<E>>(
            Error::MQTT(c.rc),
        ),
{
    match report {
        None => Err(Error::Timeout),
        Some(c) => match c.rc {
            MQTTStatusCode::Success => Ok(()),
            rc => Err(Error::MQTT(rc)),
        },
    }
}

/// Credentials for the broker.
#[derive(Clone, Debug, PartialEq, Eq)]
pub struct UsernamePassword {
    /// At most 256 bytes.
    pub username: Vec<u8>,
    /// At most 256 bytes.
    pub password: Vec<u8>,
}

/// How the client authenticates to the broker.
#[derive(Clone, Debug, PartialEq, Eq)]
pub enum MqttAuth {
    UsernamePassword(UsernamePassword),
    /// A security profile set before with the TLS profile configuration.
    SecurityProfile(u8),
}

/// What `mqtt_configure` sends: client 0, with credentials, a security
/// profile, or neither (empty user name and password).
pub fn mqtt_configure_command(client_id: &[u8], auth: Option<MqttAuth>) -> (r: mqtt::Configure)
    ensures
        r.id == 0,
        r.client_id@ == client_id@,
        match auth {
            Some(MqttAuth::UsernamePassword(up)) => r.username == up.username && r.password
                == up.password && r.sp_id is None,
            Some(MqttAuth::SecurityProfile(id)) => r.username@.len() == 0 && r.password@.len() == 0
                && r.sp_id == Some(id),
            None => r.username@.len() == 0 && r.password@.len() == 0 && r.sp_id is None,
        },
{
    let client_id = crate::codec::to_vec(client_id);
    match auth {
        Some(MqttAuth::UsernamePassword(up)) => mqtt::Configure {
            id: 0,
            client_id,
            username: up.username,
            password: up.password,
            sp_id: None,
        },
        Some(MqttAuth::SecurityProfile(id)) => mqtt::Configure {
            id: 0,
            client_id,
            username: Vec::new(),
            password: Vec::new(),
            sp_id: Some(id),
        },
        None => mqtt::Configure {
            id: 0,
            client_id,
            username: Vec::new(),
            password: Vec::new(),
            sp_id: None,
        },
    }
}

/// What `mqtt_send` sends: the publication's preparation on client 0, then
/// the payload as it is.
pub fn mqtt_send_commands(topic: &[u8], qos: Qos, data: &[u8]) -> (r: (mqtt::PreparePublish, mqtt::Publish))
    ensures
        r.0.id == 0,
        r.0.topic@ == topic@,
        r.0.qos == Some(qos),
        r.0.length == data@.len(),
        r.1.payload@ == data@,
{
    (
        mqtt::PreparePublish { id: 0, topic: crate::codec::to_vec(topic), qos: Some(qos), length: data.len() },
        mqtt::Publish { payload: crate::codec::to_vec(data) },
    )
}

/// What `mqtt_disconnect` sends before detaching.
pub fn mqtt_disconnect_command() -> (r: mqtt::Disconnect)
    ensures
        r.id == 0,
{
    mqtt::Disconnect { id: 0 }
}

/// Whether the application may write at an NVM index: 0 to 4 and 7 to 10
/// are the modem's own.
pub open spec fn nvm_index_free(index: u8) -> bool {
    index == 5 || index == 6 || index >= 11
}

pub fn nvm_index_allowed(index: u8) -> (r: bool)
    ensures
        r == nvm_index_free(index),
{
    index == 5 || index == 6 || index >= 11
}

/// What `nvm_write` sends: the preparation with the data's size, then the data.
pub fn nvm_write_commands(data_type: DataType, index: u8, data: &[u8]) -> (r: (PrepareWrite, Write))
    requires
        nvm_index_free(index),
    ensures
        r.0.data_type == data_type,
        r.0.index == index,
        r.0.size == data@.len(),
        r.1.data@ == data@,
{
    (
        PrepareWrite { data_type, index, size: data.len() },
        Write { data: crate::codec::to_vec(data) },
    )
}

/// What `configure_tls_profile` sends: TLS 1.3, certificate validity, root
/// and common name checks, keys in NVM, no session resumption, no lifetime.
pub fn tls_profile_command(
    sp_id: u8,
    ca_cert_id: Option<u8>,
    client_cert_id: Option<u8>,
    client_private_key_id: Option<u8>,
) -> (r: ssl_tls::Configure)
    requires
        1 <= sp_id <= 6,
    ensures
        r.sp_id == sp_id,
        r.version == SslTlsVersion::Tls13,
        r.cipher_specs@.len() == 0,
        r.cert_valid_level == 7,
        r.ca_cert_id.spec_option() == ca_cert_id,
        r.client_cert_id.spec_option() == client_cert_id,
        r.client_private_key_id.spec_option() == client_private_key_id,
        r.psk@.len() == 0,
        r.psk_identity is None,
        r.storage_id == StorageId::NVM,
        r.resume == Resume::Disabled,
        r.lifetime == 0,
{
    ssl_tls::Configure {
        sp_id,
        version: SslTlsVersion::Tls13,
        cipher_specs: Vec::new(),
        cert_valid_level: 7,
        ca_cert_id: Nullable::from_option(ca_cert_id),
        client_cert_id: Nullable::from_option(client_cert_id),
        client_private_key_id: Nullable::from_option(client_private_key_id),
        psk: Vec::new(),
        psk_identity: None,
        storage_id: StorageId::NVM,
        resume: Resume::Disabled,
        lifetime: 0,
    }
}

/// What `set_gnss_config` sends: on-device location with full reports, at
/// the given sensitivity, cold or warm start.
pub fn gnss_config_command(sensitivity: FixSensitivity) -> (r: SetGnssConfig)
    ensures
        r.location_mode == LocationMode::OnDeviceLocation,
        r.fix_sensitivity == sensitivity,
        r.urc_settings == UrcNotificationSetting::Full,
        r.metrics == Bool::False,
        r.acquisition_mode == AcquisitionMode::ColdWarmStart,
        r.early_abort == Bool::False,
{
    SetGnssConfig {
        location_mode: LocationMode::OnDeviceLocation,
        fix_sensitivity: sensitivity,
        urc_settings: UrcNotificationSetting::Full,
        reserved: Reserved,
        metrics: Bool::from(false),
        acquisition_mode: AcquisitionMode::ColdWarmStart,
        early_abort: Bool::from(false),
    }
}

/// How often `update_gnss_asistance` looks again at the assistance data.
pub const ASSISTANCE_POLLS: u8 = 10;

/// Seconds between two looks at the assistance data.
pub const ASSISTANCE_POLL_DELAY_S: u64 = 10;

/// The downloads that the update flags call for: almanac first, then
/// real-time ephemeris.
pub fn assistance_commands(almanac: bool, ephemeris: bool) -> (r: Vec<UpdateGnssAssitance>)
    ensures
        r@ == (if almanac {
            seq![UpdateGnssAssitance { typ: GnssAssitanceType::Almanac }]
        } else {
            Seq::empty()
        }) + (if ephemeris {
            seq![UpdateGnssAssitance { typ: GnssAssitanceType::RealTimeEphemeris }]
        } else {
            Seq::empty()
        }),
{
    let mut r: Vec<UpdateGnssAssitance> = Vec::new();
    if almanac {
        r.push(UpdateGnssAssitance { typ: GnssAssitanceType::Almanac });
    }
    if ephemeris {
        r.push(UpdateGnssAssitance { typ: GnssAssitanceType::RealTimeEphemeris });
    }
    assert(r@ =~= (if almanac {
        seq![UpdateGnssAssitance { typ: GnssAssitanceType::Almanac }]
    } else {
        Seq::empty()
    }) + (if ephemeris {
        seq![UpdateGnssAssitance { typ: GnssAssitanceType::RealTimeEphemeris }]
    } else {
        Seq::empty()
    }));
    r
}

/// What `update_gnss_asistance` does after a look at the assistance data.
#[derive(Clone, Copy, Debug, PartialEq, Eq, Structural)]
pub enum AssistanceStep {
    /// Nothing to download: return.
    Done,
    /// Attach, send the downloads, then look again as poll 0.
    Download,
    /// Wait, then look again as this poll.
    Poll(u8),
    /// Detach, then return.
    Disconnect,
}

/// Decides `update_gnss_asistance`'s next step from the update flags of a
/// look: `poll` is `None` for the first look and the poll's number after
/// the downloads were sent. Polling stops once nothing is stale, or after
/// `ASSISTANCE_POLLS` polls.
pub fn assistance_step(poll: Option<u8>, almanac: bool, ephemeris: bool) -> (r: AssistanceStep)
    ensures
        r == match poll {
            None => if !almanac && !ephemeris {
                AssistanceStep::Done
            } else {
                AssistanceStep::Download
            },
            Some(n) => if !almanac && !ephemeris {
                AssistanceStep::Disconnect
            } else if n + 1 < ASSISTANCE_POLLS {
                AssistanceStep::Poll((n + 1) as u8)
            } else {
                AssistanceStep::Disconnect
            },
        },
{
    match poll {
        None => if !almanac && !ephemeris {
            AssistanceStep::Done
        } else {
            AssistanceStep::Download
        },
        Some(n) => if !almanac && !ephemeris {
            AssistanceStep::Disconnect
        } else if n < ASSISTANCE_POLLS - 1 {
            AssistanceStep::Poll(n + 1)
        } else {
            AssistanceStep::Disconnect
        },
    }
}

/// Seconds that `get_gnss_fix` waits for a fix.
pub const GNSS_FIX_TIMEOUT_S: u64 = 180;

/// What `get_gnss_fix` programs first, and what it sends after a time-out.
pub fn gnss_fix_commands() -> (r: (ProgramGnss, ProgramGnss))
    ensures
        r.0.action == ProgramGnssAction::Single,
        r.1.action == ProgramGnssAction::Stop,
{
    (ProgramGnss { action: ProgramGnssAction::Single }, ProgramGnss { action: ProgramGnssAction::Stop })
}

/// What `get_gnss_fix` returns, given the fix that came within the time-out
/// (`None` where none came; the fix is then stopped).
pub fn gnss_fix_outcome<E>(fix: Option<GnssFixReady>) -> (r: Result<GnssFixReady, Error<E>>)
    ensures
        fix matches Some(f) ==> r == Ok::<GnssFixReady, Error<E>>(f),
        fix is None ==> r == Err::<GnssFixReady, Error<E>>(Error::Timeout),
{
    match fix {
        Some(f) => Ok(f),
        None => Err(Error::Timeout),
    }
}

/// The PDP context that `define_pdp_context` sends: context 1, IP, no APN.
pub fn pdp_context_command() -> (r: DefinePDPContext)
    ensures
        r.cid == 1,
        r.pdp_type == PDPType::IP,
        r.apn@.len() == 0,
        r.pdp_addr@.len() == 0,
        r.d_comp == PDPDComp::Off,
        r.h_comp == PDPHComp::Off,
        r.ipv4_alloc == PDPIPv4Alloc::NAS,
        r.request_type == PDPRequestType::NewOrHandover,
        r.pdp_pcscf_discovery_method == PDPPCSCF::Auto,
        r.for_imcn == Bool::False && r.nslpi == Bool::False && r.secure_pco == Bool::False,
        r.ipv4_mtu_discovery == Bool::False && r.local_addr_ind == Bool::False
            && r.non_ip_mtu_discovery == Bool::False,
{
    DefinePDPContext {
        cid: 1,
        pdp_type: PDPType::IP,
        apn: Vec::new(),
        pdp_addr: Vec::new(),
        d_comp: PDPDComp::Off,
        h_comp: PDPHComp::Off,
        ipv4_alloc: PDPIPv4Alloc::NAS,
        request_type: PDPRequestType::NewOrHandover,
        pdp_pcscf_discovery_method: PDPPCSCF::Auto,
        for_imcn: Bool::False,
        nslpi: Bool::False,
        secure_pco: Bool::False,
        ipv4_mtu_discovery: Bool::False,
        local_addr_ind: Bool::False,
        non_ip_mtu_discovery: Bool::False,
    }
}

} // verus!
