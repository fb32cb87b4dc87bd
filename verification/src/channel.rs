//! Transport configuration and the decisions of the MQTT, IPC and
//! multi-channel transports: default subscriptions, broker endpoint parsing,
//! IPC service names, payload limits and which transport a message takes.

use vstd::prelude::*;
use vstd::utf8::{decode_utf8, encode_utf8, valid_utf8};
use crate::enums::{uses_ipc, uses_mqtt, CommunicationChannel, QoS};
use crate::sdk_error::SdkError;
use crate::table::KeyedTable;
use crate::text::{
    concat2, dec_nat, owned, parse_u16, parse_u16_spec, push_str, replace_all, replace_str,
    split_char, split_spec, u64_to_dec, views,
};

verus! {

// ---------------------------------------------------------------------------
// Topics of a device
// ---------------------------------------------------------------------------

/// `sys/{pk}/{did}` followed by `tail`.
pub open spec fn device_topic(pk: Seq<char>, did: Seq<char>, tail: Seq<char>) -> Seq<char> {
    "sys/"@ + pk + "/"@ + did + tail
}

/// Builds `sys/{pk}/{did}{tail}`.
pub fn make_device_topic(pk: &str, did: &str, tail: &str) -> (t: String)
    ensures
        t@ == device_topic(pk@, did@, tail@),
{
    let mut t = concat2("sys/", pk);
    push_str(&mut t, "/");
    push_str(&mut t, did);
    push_str(&mut t, tail);
    t
}

/// The topics a device subscribes to over MQTT from the start.
pub open spec fn default_topics_spec(pk: Seq<char>, did: Seq<char>) -> Seq<Seq<char>> {
    seq![
        device_topic(pk, did, "/thing/properties/set"@),
        device_topic(pk, did, "/thing/service/+/post"@),
        device_topic(pk, did, "/thing/service/property/set"@),
        device_topic(pk, did, "/platform/service/+/post_reply"@),
        device_topic(pk, did, "/thing/event/+/info_reply"@),
        device_topic(pk, did, "/thing/event/+/warning_reply"@),
        device_topic(pk, did, "/thing/event/+/error_reply"@),
    ]
}

/// The default subscription topics of a device.
pub fn default_topics(product_key: &str, device_id: &str) -> (v: Vec<String>)
    ensures
        views(v@) == default_topics_spec(product_key@, device_id@),
{
    let mut v: Vec<String> = Vec::new();
    v.push(make_device_topic(product_key, device_id, "/thing/properties/set"));
    v.push(make_device_topic(product_key, device_id, "/thing/service/+/post"));
    v.push(make_device_topic(product_key, device_id, "/thing/service/property/set"));
    v.push(make_device_topic(product_key, device_id, "/platform/service/+/post_reply"));
    v.push(make_device_topic(product_key, device_id, "/thing/event/+/info_reply"));
    v.push(make_device_topic(product_key, device_id, "/thing/event/+/warning_reply"));
    v.push(make_device_topic(product_key, device_id, "/thing/event/+/error_reply"));
    assert(views(v@) =~= default_topics_spec(product_key@, device_id@));
    v
}

// ---------------------------------------------------------------------------
// MQTT
// ---------------------------------------------------------------------------

/// MQTT channel configuration.
#[derive(Debug, Clone)]
pub struct MqttConfig {
    /// MQTT broker endpoint (e.g., "mqtt://broker:1883")
    pub endpoint: String,
    /// Product key
    pub product_key: String,
    /// Device ID
    pub device_id: String,
    /// Username for authentication
    pub username: String,
    /// Password for authentication
    pub password: String,
    /// Keep alive interval in seconds
    pub keep_alive_secs: u64,
    /// Connection timeout in seconds
    pub connection_timeout_secs: u64,
    /// Max inflight messages
    pub max_inflight: u16,
    /// QoS level for publishing
    pub publish_qos: QoS,
    /// QoS level for subscribing
    pub subscribe_qos: QoS,
}

impl Default for MqttConfig {
    fn default() -> (c: Self)
        ensures
            c.endpoint@.len() == 0 && c.product_key@.len() == 0 && c.device_id@.len() == 0,
            c.username@.len() == 0 && c.password@.len() == 0,
            c.keep_alive_secs == 20,
            c.connection_timeout_secs == 10,
            c.max_inflight == 1000,
            c.publish_qos == QoS::AtMostOnce,
            c.subscribe_qos == QoS::AtMostOnce,
    {
        MqttConfig {
            endpoint: String::new(),
            product_key: String::new(),
            device_id: String::new(),
            username: String::new(),
            password: String::new(),
            keep_alive_secs: 20,
            connection_timeout_secs: 10,
            max_inflight: 1000,
            publish_qos: QoS::AtMostOnce,
            subscribe_qos: QoS::AtMostOnce,
        }
    }
}

/// The pieces of a broker endpoint: the text with every `mqtt://` removed,
/// split at `:`.
pub open spec fn endpoint_parts(endpoint: Seq<char>) -> Seq<Seq<char>> {
    split_spec(replace_all(endpoint, "mqtt://"@, Seq::<char>::empty()), ':')
}

/// The broker host of an endpoint: its first piece.
pub open spec fn endpoint_host(endpoint: Seq<char>) -> Seq<char> {
    endpoint_parts(endpoint)[0]
}

/// The broker port of an endpoint: its second piece read as a port number,
/// or 1883 where there is none or it is no number below 65536.
pub open spec fn endpoint_port(endpoint: Seq<char>) -> u16 {
    let parts = endpoint_parts(endpoint);
    if parts.len() >= 2 {
        match parse_u16_spec(parts[1]) {
            Some(p) => p,
            None => 1883,
        }
    } else {
        1883
    }
}

/// The MQTT client id of a device: `DEVICE:{did}`.
pub open spec fn client_id_spec(did: Seq<char>) -> Seq<char> {
    "DEVICE:"@ + did
}

/// Splits a broker endpoint such as `mqtt://broker:1883` into host and port.
pub fn parse_endpoint(endpoint: &str) -> (r: (String, u16))
    ensures
        r.0@ == endpoint_host(endpoint@),
        r.1 == endpoint_port(endpoint@),
{
    proof {
        reveal_strlit("mqtt://");
        reveal_strlit("");
        assert(""@ =~= Seq::<char>::empty());
    }
    let stripped = replace_str(endpoint, "mqtt://", "");
    assert(stripped@ == replace_all(endpoint@, "mqtt://"@, Seq::<char>::empty()));
    let parts = split_char(stripped.as_str(), ':');
    proof {
        assert(views(parts@)[0] == parts@[0]@);
    }
    let host = parts[0].clone();
    let port: u16 = if parts.len() >= 2 {
        proof {
            assert(views(parts@)[1] == parts@[1]@);
        }
        match parse_u16(parts[1].as_str()) {
            Some(p) => p,
            None => 1883,
        }
    } else {
        1883
    };
    (host, port)
}

/// The MQTT client id of a device.
pub fn mqtt_client_id(device_id: &str) -> (id: String)
    ensures
        id@ == client_id_spec(device_id@),
{
    concat2("DEVICE:", device_id)
}

/// The options `MqttOptions::new` makes for a client id, host and port.
pub uninterp spec fn mqtt_options_new(client_id: Seq<char>, host: Seq<char>, port: u16) -> rumqttc::MqttOptions;

/// The options after `set_credentials`.
pub uninterp spec fn mqtt_with_credentials(o: rumqttc::MqttOptions, username: Seq<char>, password: Seq<char>) -> rumqttc::MqttOptions;

/// The options after `set_keep_alive` with a whole number of seconds.
pub uninterp spec fn mqtt_with_keep_alive(o: rumqttc::MqttOptions, secs: u64) -> rumqttc::MqttOptions;

/// The options after `set_inflight`.
pub uninterp spec fn mqtt_with_inflight(o: rumqttc::MqttOptions, inflight: u16) -> rumqttc::MqttOptions;

/// The options after `set_clean_session`.
pub uninterp spec fn mqtt_with_clean_session(o: rumqttc::MqttOptions, clean: bool) -> rumqttc::MqttOptions;

/// The MQTT options built from these settings: `MqttOptions::new` with client
/// id, host and port, then credentials, keep-alive in seconds, in-flight limit
/// and a clean session.
pub open spec fn mqtt_options_of(
    client_id: Seq<char>,
    host: Seq<char>,
    port: u16,
    username: Seq<char>,
    password: Seq<char>,
    keep_alive_secs: u64,
    inflight: u16,
) -> rumqttc::MqttOptions {
    mqtt_with_clean_session(
        mqtt_with_inflight(
            mqtt_with_keep_alive(mqtt_with_credentials(mqtt_options_new(client_id, host, port), username, password), keep_alive_secs),
            inflight,
        ),
        true,
    )
}

/// `MqttOptions::new`.
#[verifier::external_body]
fn new_mqtt_options(client_id: String, host: String, port: u16) -> (o: rumqttc::MqttOptions)
    ensures
        o == mqtt_options_new(client_id@, host@, port),
{
    rumqttc::MqttOptions::new(client_id, host, port)
}

/// `MqttOptions::set_credentials`.
#[verifier::external_body]
fn set_credentials(o: &mut rumqttc::MqttOptions, username: &str, password: &str)
    ensures
        *final(o) == mqtt_with_credentials(*old(o), username@, password@),
{
    o.set_credentials(username, password);
}

/// `MqttOptions::set_keep_alive` with a whole number of seconds (it panics
/// only on durations between zero and one second, which whole seconds never
/// are).
#[verifier::external_body]
fn set_keep_alive(o: &mut rumqttc::MqttOptions, secs: u64)
    ensures
        *final(o) == mqtt_with_keep_alive(*old(o), secs),
{
    o.set_keep_alive(std::time::Duration::from_secs(secs));
}

/// `MqttOptions::set_inflight`, which panics on zero.
#[verifier::external_body]
fn set_inflight(o: &mut rumqttc::MqttOptions, inflight: u16)
    requires
        inflight != 0,
    ensures
        *final(o) == mqtt_with_inflight(*old(o), inflight),
{
    o.set_inflight(inflight);
}

/// `MqttOptions::set_clean_session`; it panics when asked to keep sessions
/// for an empty client id, so only setting a clean session is admitted.
#[verifier::external_body]
fn set_clean_session(o: &mut rumqttc::MqttOptions, clean: bool)
    requires
        clean,
    ensures
        *final(o) == mqtt_with_clean_session(*old(o), clean),
{
    o.set_clean_session(clean);
}

/// The MQTT options of a configuration: client id `DEVICE:{did}`, the host
/// and port of the endpoint, the credentials, keep-alive and in-flight limit.
pub fn create_mqtt_options(config: &MqttConfig) -> (o: rumqttc::MqttOptions)
    requires
        config.max_inflight != 0,
    ensures
        o == mqtt_options_of(
            client_id_spec(config.device_id@),
            endpoint_host(config.endpoint@),
            endpoint_port(config.endpoint@),
            config.username@,
            config.password@,
            config.keep_alive_secs,
            config.max_inflight,
        ),
{
    let client_id = mqtt_client_id(config.device_id.as_str());
    let (host, port) = parse_endpoint(config.endpoint.as_str());
    let mut options = new_mqtt_options(client_id, host, port);
    set_credentials(&mut options, config.username.as_str(), config.password.as_str());
    set_keep_alive(&mut options, config.keep_alive_secs);
    set_inflight(&mut options, config.max_inflight);
    set_clean_session(&mut options, true);
    options
}

/// What an MQTT channel has decided so far: its subscription topics, the
/// delivery guarantees it publishes and subscribes with, whether it has been
/// started (holds a client) and whether the broker acknowledged the
/// connection.
#[derive(Debug)]
pub struct MqttChannelState {
    /// Topics subscribed on start, in order
    pub topics: Vec<String>,
    /// QoS messages are published with
    pub publish_qos: QoS,
    /// QoS topics are subscribed with
    pub subscribe_qos: QoS,
    /// Whether the channel holds a client
    pub started: bool,
    /// Whether the broker connection is up
    pub connected: bool,
}

impl MqttChannelState {
    /// A stopped channel subscribed to the device's default topics, with the
    /// configured delivery guarantees.
    pub fn new(config: &MqttConfig) -> (s: Self)
        ensures
            views(s.topics@) == default_topics_spec(config.product_key@, config.device_id@),
            s.publish_qos == config.publish_qos,
            s.subscribe_qos == config.subscribe_qos,
            !s.started,
            !s.connected,
    {
        MqttChannelState {
            topics: default_topics(config.product_key.as_str(), config.device_id.as_str()),
            publish_qos: config.publish_qos,
            subscribe_qos: config.subscribe_qos,
            started: false,
            connected: false,
        }
    }

    /// Starting: refused when already started; else the channel counts as
    /// started and the topics to subscribe are handed back.
    pub fn start(&mut self) -> (r: Result<Vec<String>, SdkError>)
        ensures
            old(self).started ==> r is Err && r->Err_0 is AlreadyStarted && *final(self) == *old(self),
            !old(self).started ==> r is Ok && views(r->Ok_0@) == views(old(self).topics@)
                && final(self).started && final(self).topics == old(self).topics
                && final(self).connected == old(self).connected
                && final(self).publish_qos == old(self).publish_qos
                && final(self).subscribe_qos == old(self).subscribe_qos,
    {
        if self.started {
            return Err(SdkError::AlreadyStarted);
        }
        self.started = true;
        let mut out: Vec<String> = Vec::new();
        let mut i: usize = 0;
        while i < self.topics.len()
            invariant
                i <= self.topics.len(),
                out.len() == i,
                forall|j: int| 0 <= j < i ==> (#[trigger] out@[j])@ == self.topics@[j]@,
            decreases self.topics.len() - i,
        {
            out.push(self.topics[i].clone());
            i = i + 1;
        }
        assert(views(out@) =~= views(self.topics@));
        Ok(out)
    }

    /// Stopping: the client is dropped and the connection counts as down.
    pub fn stop(&mut self)
        ensures
            !final(self).started,
            !final(self).connected,
            final(self).topics == old(self).topics,
            final(self).publish_qos == old(self).publish_qos,
            final(self).subscribe_qos == old(self).subscribe_qos,
    {
        self.started = false;
        self.connected = false;
    }

    /// Adds a subscription topic; the result says whether to subscribe to it
    /// at once (the channel is started).
    pub fn add_topic(&mut self, topic: &str) -> (now: bool)
        ensures
            views(final(self).topics@) == views(old(self).topics@).push(topic@),
            now == old(self).started,
            final(self).started == old(self).started,
            final(self).connected == old(self).connected,
            final(self).publish_qos == old(self).publish_qos,
            final(self).subscribe_qos == old(self).subscribe_qos,
    {
        let ghost prev = self.topics@;
        self.topics.push(owned(topic));
        assert(views(self.topics@) =~= views(prev).push(topic@));
        self.started
    }

    /// Sending needs a started channel; a message is then published with the
    /// configured QoS.
    pub fn check_send(&self) -> (r: Result<QoS, SdkError>)
        ensures
            self.started <==> r is Ok,
            r matches Ok(q) ==> q == self.publish_qos,
            r matches Err(e) ==> e is NotStarted,
    {
        if self.started { Ok(self.publish_qos) } else { Err(SdkError::NotStarted) }
    }

    /// The broker acknowledged the connection.
    pub fn on_connected(&mut self)
        ensures
            final(self).connected,
            final(self).started == old(self).started,
            final(self).topics == old(self).topics,
            final(self).publish_qos == old(self).publish_qos,
            final(self).subscribe_qos == old(self).subscribe_qos,
    {
        self.connected = true;
    }

    /// The broker disconnected, or the connection failed.
    pub fn on_disconnected(&mut self)
        ensures
            !final(self).connected,
            final(self).started == old(self).started,
            final(self).topics == old(self).topics,
            final(self).publish_qos == old(self).publish_qos,
            final(self).subscribe_qos == old(self).subscribe_qos,
    {
        self.connected = false;
    }

    /// Whether the broker connection is up.
    pub fn is_connected(&self) -> (b: bool)
        ensures
            b == self.connected,
    {
        self.connected
    }
}

// ---------------------------------------------------------------------------
// Several transports
// ---------------------------------------------------------------------------

/// Which transports a message or subscription goes out on.
#[derive(Debug, Clone, Copy, PartialEq, Eq, Structural)]
pub struct TransportPlan {
    /// Over MQTT
    pub via_mqtt: bool,
    /// Over IPC
    pub via_ipc: bool,
}

/// What sending a message over several transports does next: send over MQTT,
/// send over IPC, or finish with a result.
#[derive(Debug)]
pub enum SendStep {
    /// Send the message over MQTT and report the outcome
    Mqtt,
    /// Send the message over IPC and report the outcome
    Ipc,
    /// Sending is over, with this result
    Finished(Result<(), SdkError>),
}

impl TransportPlan {
    /// The first step of sending by this plan: MQTT first when it is
    /// planned, else IPC when it is planned; with neither, sending is over
    /// and succeeds though nothing was sent.
    pub fn first_send_step(&self) -> (s: SendStep)
        ensures
            self.via_mqtt ==> s is Mqtt,
            !self.via_mqtt && self.via_ipc ==> s is Ipc,
            !self.via_mqtt && !self.via_ipc ==> s == SendStep::Finished(Ok(())),
    {
        if self.via_mqtt {
            SendStep::Mqtt
        } else if self.via_ipc {
            SendStep::Ipc
        } else {
            SendStep::Finished(Ok(()))
        }
    }

    /// The step after the MQTT send: its error ends sending with that error
    /// and IPC is not tried; after a success IPC follows when planned, else
    /// sending succeeds.
    pub fn step_after_mqtt(&self, outcome: Result<(), SdkError>) -> (s: SendStep)
        ensures
            outcome matches Err(e) ==> s == SendStep::Finished(Err(e)),
            outcome is Ok && self.via_ipc ==> s is Ipc,
            outcome is Ok && !self.via_ipc ==> s == SendStep::Finished(Ok(())),
    {
        match outcome {
            Err(e) => SendStep::Finished(Err(e)),
            Ok(()) => if self.via_ipc { SendStep::Ipc } else { SendStep::Finished(Ok(())) },
        }
    }

    /// The step after the IPC send: sending is over with its outcome.
    pub fn step_after_ipc(&self, outcome: Result<(), SdkError>) -> (s: SendStep)
        ensures
            s == SendStep::Finished(outcome),
    {
        SendStep::Finished(outcome)
    }
}

/// Routes messages to the MQTT and/or IPC transport by communication channel.
#[derive(Debug, Clone, Copy)]
pub struct MultiChannel {
    /// Whether an MQTT transport is attached
    pub has_mqtt: bool,
    /// Whether an IPC transport is attached
    pub has_ipc: bool,
    /// The channel used when none is named
    pub default_channel: CommunicationChannel,
}

impl MultiChannel {
    /// A router over the attached transports with a default channel.
    pub fn new(has_mqtt: bool, has_ipc: bool, default_channel: CommunicationChannel) -> (m: Self)
        ensures
            m.has_mqtt == has_mqtt,
            m.has_ipc == has_ipc,
            m.default_channel == default_channel,
    {
        MultiChannel { has_mqtt, has_ipc, default_channel }
    }

    /// The channel used when none is named.
    pub fn default_channel(&self) -> (c: CommunicationChannel)
        ensures
            c == self.default_channel,
    {
        self.default_channel
    }

    /// Whether MQTT is attached and connected.
    pub fn mqtt_available(&self, mqtt_connected: bool) -> (b: bool)
        ensures
            b == (self.has_mqtt && mqtt_connected),
    {
        self.has_mqtt && mqtt_connected
    }

    /// Whether IPC is attached and connected.
    pub fn ipc_available(&self, ipc_connected: bool) -> (b: bool)
        ensures
            b == (self.has_ipc && ipc_connected),
    {
        self.has_ipc && ipc_connected
    }

    /// Sending on `channel`: each transport the channel includes that is
    /// attached and connected; one that is not connected is skipped.
    pub fn send_plan(&self, channel: CommunicationChannel, mqtt_connected: bool, ipc_connected: bool) -> (p: TransportPlan)
        ensures
            p.via_mqtt == (uses_mqtt(channel) && self.has_mqtt && mqtt_connected),
            p.via_ipc == (uses_ipc(channel) && self.has_ipc && ipc_connected),
    {
        TransportPlan {
            via_mqtt: channel.includes_mqtt() && self.has_mqtt && mqtt_connected,
            via_ipc: channel.includes_ipc() && self.has_ipc && ipc_connected,
        }
    }

    /// Subscribing on `channel`: each transport the channel includes that is
    /// attached, connected or not.
    pub fn subscribe_plan(&self, channel: CommunicationChannel) -> (p: TransportPlan)
        ensures
            p.via_mqtt == (uses_mqtt(channel) && self.has_mqtt),
            p.via_ipc == (uses_ipc(channel) && self.has_ipc),
    {
        TransportPlan {
            via_mqtt: channel.includes_mqtt() && self.has_mqtt,
            via_ipc: channel.includes_ipc() && self.has_ipc,
        }
    }

    /// Connected when any attached transport is connected.
    pub fn is_connected(&self, mqtt_connected: bool, ipc_connected: bool) -> (b: bool)
        ensures
            b == ((self.has_mqtt && mqtt_connected) || (self.has_ipc && ipc_connected)),
    {
        (self.has_mqtt && mqtt_connected) || (self.has_ipc && ipc_connected)
    }
}

// ---------------------------------------------------------------------------
// IPC
// ---------------------------------------------------------------------------

/// Topic on which devices announce themselves over IPC.
pub const DEVICE_DISCOVERY_TOPIC: &'static str = "sys/device/discovery";

/// Default maximum payload size for IPC messages (12 MiB).
pub const DEFAULT_MAX_PAYLOAD_SIZE: usize = 12582912;

/// Default number of samples an IPC subscriber buffers.
pub const DEFAULT_SUBSCRIBER_BUFFER_SIZE: usize = 256;

/// IPC channel configuration.
#[derive(Debug, Clone)]
pub struct IpcConfig {
    /// Product key
    pub product_key: String,
    /// Device ID
    pub device_id: String,
    /// Device discovery broadcast interval in seconds
    pub discovery_interval_secs: u64,
    /// Device cache expiration time in seconds
    pub device_cache_expire_secs: u64,
    /// Service name prefix
    pub service_prefix: String,
    /// Maximum payload size in bytes
    pub max_payload_size: usize,
}

impl Default for IpcConfig {
    fn default() -> (c: Self)
        ensures
            c.product_key@.len() == 0,
            c.device_id@.len() == 0,
            c.discovery_interval_secs == 5,
            c.device_cache_expire_secs == 30,
            c.service_prefix@ == "tslink"@,
            c.max_payload_size == DEFAULT_MAX_PAYLOAD_SIZE,
    {
        IpcConfig {
            product_key: String::new(),
            device_id: String::new(),
            discovery_interval_secs: 5,
            device_cache_expire_secs: 30,
            service_prefix: owned("tslink"),
            max_payload_size: DEFAULT_MAX_PAYLOAD_SIZE,
        }
    }
}

impl IpcConfig {
    /// A configuration for a device, with every other setting at its default.
    pub fn new(product_key: &str, device_id: &str) -> (c: Self)
        ensures
            c.product_key@ == product_key@,
            c.device_id@ == device_id@,
            c.discovery_interval_secs == 5,
            c.device_cache_expire_secs == 30,
            c.service_prefix@ == "tslink"@,
            c.max_payload_size == DEFAULT_MAX_PAYLOAD_SIZE,
    {
        IpcConfig { product_key: owned(product_key), device_id: owned(device_id), ..IpcConfig::default() }
    }

    /// Sets the discovery interval.
    pub fn with_discovery_interval(self, secs: u64) -> (c: Self)
        ensures
            c == (IpcConfig { discovery_interval_secs: secs, ..self }),
    {
        IpcConfig { discovery_interval_secs: secs, ..self }
    }

    /// Sets the device cache expiration time.
    pub fn with_cache_expire(self, secs: u64) -> (c: Self)
        ensures
            c == (IpcConfig { device_cache_expire_secs: secs, ..self }),
    {
        IpcConfig { device_cache_expire_secs: secs, ..self }
    }

    /// Sets the service prefix.
    pub fn with_service_prefix(self, prefix: &str) -> (c: Self)
        ensures
            c.service_prefix@ == prefix@,
            c.product_key == self.product_key && c.device_id == self.device_id,
            c.discovery_interval_secs == self.discovery_interval_secs,
            c.device_cache_expire_secs == self.device_cache_expire_secs,
            c.max_payload_size == self.max_payload_size,
    {
        IpcConfig { service_prefix: owned(prefix), ..self }
    }

    /// Sets the maximum payload size in bytes.
    pub fn with_max_payload_size(self, size: usize) -> (c: Self)
        ensures
            c == (IpcConfig { max_payload_size: size, ..self }),
    {
        IpcConfig { max_payload_size: size, ..self }
    }
}

/// A message payload for IPC transfer: the UTF-8 bytes of the message.
#[derive(Debug, Clone)]
pub struct IpcPayload {
    /// Message data buffer
    pub data: Vec<u8>,
}

/// The text of `std::string::FromUtf8Error` for these bytes.
pub uninterp spec fn utf8_error_text(bytes: Seq<u8>) -> Seq<char>;

/// Decodes bytes with `String::from_utf8`: the decoded text for valid UTF-8,
/// else the error's text.
#[verifier::external_body]
fn decode_utf8_bytes(bytes: Vec<u8>) -> (r: Result<String, String>)
    ensures
        match r {
            Ok(s) => valid_utf8(bytes@) && s@ == decode_utf8(bytes@),
            Err(t) => !valid_utf8(bytes@) && t@ == utf8_error_text(bytes@),
        },
{
    String::from_utf8(bytes).map_err(|e| e.to_string())
}

impl IpcPayload {
    /// The payload of a message: its UTF-8 bytes. Never fails.
    pub fn from_str(message: &str) -> (r: Result<Self, SdkError>)
        ensures
            r matches Ok(p) && p.data@ == encode_utf8(message@),
    {
        Ok(IpcPayload { data: message.as_bytes_vec() })
    }

    /// The message of a payload; an `Internal` error `Invalid UTF-8: …`
    /// exactly when the bytes are not valid UTF-8.
    pub fn to_string(&self) -> (r: Result<String, SdkError>)
        ensures
            valid_utf8(self.data@) <==> r is Ok,
            r matches Ok(s) ==> s@ == decode_utf8(self.data@),
            r matches Err(e) ==> e matches SdkError::Internal(t)
                && t@ == "Invalid UTF-8: "@ + utf8_error_text(self.data@),
    {
        match decode_utf8_bytes(self.data.clone()) {
            Ok(s) => Ok(s),
            Err(t) => Err(SdkError::Internal(concat2("Invalid UTF-8: ", t.as_str()))),
        }
    }
}

/// The IPC service name of a topic: `{prefix}/{topic}`.
pub open spec fn ipc_service_name_spec(prefix: Seq<char>, topic: Seq<char>) -> Seq<char> {
    prefix + "/"@ + topic
}

/// The IPC service name of a topic.
pub fn ipc_service_name(prefix: &str, topic: &str) -> (s: String)
    ensures
        s@ == ipc_service_name_spec(prefix@, topic@),
{
    let mut s = concat2(prefix, "/");
    push_str(&mut s, topic);
    s
}

/// The IPC node name of a device: `{pk}/{did}`.
pub fn ipc_node_name(config: &IpcConfig) -> (s: String)
    ensures
        s@ == config.product_key@ + "/"@ + config.device_id@,
{
    let mut s = concat2(config.product_key.as_str(), "/");
    push_str(&mut s, config.device_id.as_str());
    s
}

/// The text of the error for an oversized IPC message.
pub open spec fn too_large_text(len: nat, max: nat) -> Seq<char> {
    "Message too large: "@ + dec_nat(len) + " bytes (max: "@ + dec_nat(max) + ")"@
}

/// A message of `len` bytes may go out over IPC when it is at most `max`
/// bytes; otherwise a `Configuration` error says how large it was.
pub fn check_payload_size(len: usize, max: usize) -> (r: Result<(), SdkError>)
    ensures
        r is Ok <==> len <= max,
        r matches Err(e) ==> e matches SdkError::Configuration(t) && t@ == too_large_text(len as nat, max as nat),
{
    if len > max {
        let mut t = owned("Message too large: ");
        let a = u64_to_dec(len as u64);
        push_str(&mut t, a.as_str());
        push_str(&mut t, " bytes (max: ");
        let b = u64_to_dec(max as u64);
        push_str(&mut t, b.as_str());
        push_str(&mut t, ")");
        Err(SdkError::Configuration(t))
    } else {
        Ok(())
    }
}

/// The IPC channel's running flag and the decisions that hang on it.
#[derive(Debug)]
pub struct IpcChannelState {
    /// Whether the channel runs
    pub running: bool,
}

/// The text of the error for an IPC channel that does not run.
pub open spec fn ipc_not_started_text() -> Seq<char> {
    "IPC channel not started"@
}

impl IpcChannelState {
    /// A channel that does not run yet.
    pub fn new() -> (s: Self)
        ensures
            !s.running,
    {
        IpcChannelState { running: false }
    }

    /// Sending and subscribing need a running channel.
    pub fn check_running(&self) -> (r: Result<(), SdkError>)
        ensures
            r is Ok <==> self.running,
            r matches Err(e) ==> e matches SdkError::Channel(t) && t@ == ipc_not_started_text(),
    {
        if self.running {
            Ok(())
        } else {
            Err(SdkError::Channel(owned("IPC channel not started")))
        }
    }

    /// Starting: the result says whether there is work to do (the channel was
    /// not running; it then subscribes to the discovery topic).
    pub fn start(&mut self) -> (fresh: bool)
        ensures
            fresh == !old(self).running,
            final(self).running,
    {
        let fresh = !self.running;
        self.running = true;
        fresh
    }

    /// Stopping: the result says whether there is work to do (the channel was
    /// running; its thread is then told to stop).
    pub fn stop(&mut self) -> (was: bool)
        ensures
            was == old(self).running,
            !final(self).running,
    {
        let was = self.running;
        self.running = false;
        was
    }

    /// Whether the channel runs.
    pub fn is_connected(&self) -> (b: bool)
        ensures
            b == self.running,
    {
        self.running
    }
}

/// What the IPC worker thread has decided so far: whether it reads any
/// subscriber, and the services it holds a publisher for.
#[derive(Debug)]
pub struct IpcLoopState {
    /// Whether at least one subscriber was created
    pub has_subscribers: bool,
    /// The services with a cached publisher
    pub publishers: KeyedTable<()>,
}

/// What happened in the IPC worker thread.
#[derive(Debug)]
pub enum IpcLoopEvent {
    /// The thread is at the top of its loop
    Ready,
    /// A publish command for this service arrived
    Publish(String),
    /// A publisher for this service was created (and kept) to publish with
    PublisherCreated(String),
    /// A publish command was answered without a new publisher
    Published,
    /// A subscribe command arrived
    Subscribe,
    /// A subscribe command was answered; whether a subscriber was created
    Subscribed(bool),
    /// A stop command arrived
    Stop,
    /// The command channel was closed
    Closed,
    /// A poll found no command waiting
    NoCommand,
    /// The subscribers were read: whether any message came, and whether the
    /// channel still runs
    Received { got_any: bool, connected: bool },
}

/// What the IPC worker thread does next.
#[derive(Debug, Clone, Copy, PartialEq, Eq, Structural)]
pub enum IpcLoopAction {
    /// Block until a command arrives
    WaitCommand,
    /// Take a command if one waits, without blocking
    PollCommand,
    /// Publish with the cached publisher of the service
    PublishCached,
    /// Create a publisher for the service, publish with it and keep it
    CreatePublisher,
    /// Create a subscriber for the topic
    CreateSubscriber,
    /// Read every subscriber and hand on what came
    ReceiveAll,
    /// Pause briefly before polling again
    Sleep,
    /// Answer the commands still waiting, then end the thread
    DrainAndExit,
    /// End the thread
    Exit,
}

/// How the thread takes its next command: blocking while there is no
/// subscriber to read, polling otherwise.
pub open spec fn next_command_action(has_subscribers: bool) -> IpcLoopAction {
    if has_subscribers { IpcLoopAction::PollCommand } else { IpcLoopAction::WaitCommand }
}

impl IpcLoopState {
    /// A thread with no subscriber and no publisher.
    pub fn new() -> (s: Self)
        ensures
            !s.has_subscribers,
            s.publishers@.dom() == Set::<Seq<char>>::empty(),
    {
        IpcLoopState { has_subscribers: false, publishers: KeyedTable::new() }
    }

    /// The next action of the IPC worker thread after an event:
    /// - at the top of the loop and after each answered command it takes the
    ///   next command, blocking while no subscriber exists and polling once one
    ///   does;
    /// - a publish uses the cached publisher of its service, else creates one,
    ///   which is then kept;
    /// - a subscribe creates a subscriber; one created counts from then on;
    /// - a stop command or a closed command channel ends the thread;
    /// - a poll that finds nothing reads the subscribers; after reading, a
    ///   channel that no longer runs answers the waiting commands and ends,
    ///   a read that brought nothing pauses, and otherwise the next command is
    ///   taken.
    pub fn step(&mut self, event: IpcLoopEvent) -> (a: IpcLoopAction)
        ensures
            match event {
                IpcLoopEvent::Ready => a == next_command_action(old(self).has_subscribers)
                    && final(self).has_subscribers == old(self).has_subscribers
                    && final(self).publishers@ == old(self).publishers@,
                IpcLoopEvent::Publish(name) => (if old(self).publishers@.dom().contains(name@) {
                        a == IpcLoopAction::PublishCached
                    } else {
                        a == IpcLoopAction::CreatePublisher
                    })
                    && final(self).has_subscribers == old(self).has_subscribers
                    && final(self).publishers@ == old(self).publishers@,
                IpcLoopEvent::PublisherCreated(name) => a == next_command_action(old(self).has_subscribers)
                    && final(self).has_subscribers == old(self).has_subscribers
                    && final(self).publishers@ == old(self).publishers@.insert(name@, ()),
                IpcLoopEvent::Published => a == next_command_action(old(self).has_subscribers)
                    && final(self).has_subscribers == old(self).has_subscribers
                    && final(self).publishers@ == old(self).publishers@,
                IpcLoopEvent::Subscribe => a == IpcLoopAction::CreateSubscriber
                    && final(self).has_subscribers == old(self).has_subscribers
                    && final(self).publishers@ == old(self).publishers@,
                IpcLoopEvent::Subscribed(ok) => final(self).has_subscribers == (old(self).has_subscribers || ok)
                    && a == next_command_action(final(self).has_subscribers)
                    && final(self).publishers@ == old(self).publishers@,
                IpcLoopEvent::Stop => a == IpcLoopAction::Exit
                    && final(self).has_subscribers == old(self).has_subscribers
                    && final(self).publishers@ == old(self).publishers@,
                IpcLoopEvent::Closed => a == IpcLoopAction::Exit
                    && final(self).has_subscribers == old(self).has_subscribers
                    && final(self).publishers@ == old(self).publishers@,
                IpcLoopEvent::NoCommand => a == IpcLoopAction::ReceiveAll
                    && final(self).has_subscribers == old(self).has_subscribers
                    && final(self).publishers@ == old(self).publishers@,
                IpcLoopEvent::Received { got_any, connected } => (if !connected {
                        a == IpcLoopAction::DrainAndExit
                    } else if !got_any {
                        a == IpcLoopAction::Sleep
                    } else {
                        a == next_command_action(old(self).has_subscribers)
                    })
                    && final(self).has_subscribers == old(self).has_subscribers
                    && final(self).publishers@ == old(self).publishers@,
            },
    {
        match event {
            IpcLoopEvent::Ready => self.next_command(),
            IpcLoopEvent::Publish(name) => {
                if self.publishers.contains_key(name.as_str()) {
                    IpcLoopAction::PublishCached
                } else {
                    IpcLoopAction::CreatePublisher
                }
            },
            IpcLoopEvent::PublisherCreated(name) => {
                self.publishers.insert(name, ());
                self.next_command()
            },
            IpcLoopEvent::Published => self.next_command(),
            IpcLoopEvent::Subscribe => IpcLoopAction::CreateSubscriber,
            IpcLoopEvent::Subscribed(ok) => {
                self.has_subscribers = self.has_subscribers || ok;
                self.next_command()
            },
            IpcLoopEvent::Stop => IpcLoopAction::Exit,
            IpcLoopEvent::Closed => IpcLoopAction::Exit,
            IpcLoopEvent::NoCommand => IpcLoopAction::ReceiveAll,
            IpcLoopEvent::Received { got_any, connected } => {
                if !connected {
                    IpcLoopAction::DrainAndExit
                } else if !got_any {
                    IpcLoopAction::Sleep
                } else {
                    self.next_command()
                }
            },
        }
    }

    fn next_command(&self) -> (a: IpcLoopAction)
        ensures
            a == next_command_action(self.has_subscribers),
    {
        if self.has_subscribers { IpcLoopAction::PollCommand } else { IpcLoopAction::WaitCommand }
    }
}

// ---------------------------------------------------------------------------
// Laws
// ---------------------------------------------------------------------------

/// A message turned into an IPC payload reads back as the same message.
pub proof fn law_payload_round_trip(message: Seq<char>)
    ensures
        valid_utf8(encode_utf8(message)),
        decode_utf8(encode_utf8(message)) == message,
{
    vstd::utf8::encode_utf8_valid_utf8(message);
    vstd::utf8::encode_utf8_decode_utf8(message);
}

} // verus!
