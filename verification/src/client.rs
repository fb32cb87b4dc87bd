//! The device client: its builder, the topics and method names it uses, and
//! the messages it prepares for properties, events and service calls.
//!
//! Sending, waiting for replies and the connection itself are left to the
//! caller; everything that decides what goes where is here.

use vstd::prelude::*;
use crate::adapter::{
    has_char, lemma_split_append, lemma_split_single, method_from_topic, service_identifier_of,
    service_key,
};
use crate::channel::{device_topic, make_device_topic, MqttConfig};
use crate::clock::{is_clock_millis, is_uuid_text};
use crate::enums::{event_type_text, CommunicationChannel, EventType, QoS};
use crate::outside::{json_from_bytes, json_parse_or_null};
use crate::sdk_error::SdkError;
use crate::sdk_message::{protocol_version, CommonMessage};
use crate::service::{DeviceServiceRequest, PlatformServiceRequest};
use crate::text::{concat2, concat3, dec_int, i64_to_dec, owned, push_str, split_spec};

verus! {

// ---------------------------------------------------------------------------
// Builder
// ---------------------------------------------------------------------------

/// Builder for device clients; endpoint, product key and device id are
/// required, and so are a username and a password unless a device secret
/// stands in for them.
#[derive(Debug)]
pub struct TslinkClientBuilder {
    /// MQTT broker endpoint
    pub endpoint: Option<String>,
    /// Product key
    pub product_key: Option<String>,
    /// Device ID
    pub device_id: Option<String>,
    /// Device secret (optional; makes up for a missing username and password)
    pub device_secret: Option<String>,
    /// Username for MQTT authentication
    pub username: Option<String>,
    /// Password for MQTT authentication
    pub password: Option<String>,
    /// QoS level for publishing
    pub publish_qos: QoS,
    /// QoS level for subscribing
    pub subscribe_qos: QoS,
}

/// The error text for a missing required setting.
pub open spec fn required_text(name: Seq<char>) -> Seq<char> {
    name + " is required"@
}

/// The MQTT username a builder's client uses: the one set, else, where a
/// device secret is set, the device id.
pub open spec fn credential_username(b: TslinkClientBuilder) -> Option<String> {
    match b.username {
        Some(u) => Some(u),
        None => if b.device_secret is Some { b.device_id } else { None },
    }
}

/// The MQTT password a builder's client uses: the one set, else the device
/// secret where one is set.
pub open spec fn credential_password(b: TslinkClientBuilder) -> Option<String> {
    match b.password {
        Some(p) => Some(p),
        None => b.device_secret,
    }
}

/// The outcome of building: the first missing required setting, in the order
/// endpoint, product key, device id, username, password, is reported; a
/// device secret makes up for a missing username and password.
pub open spec fn build_missing(b: TslinkClientBuilder) -> Option<Seq<char>> {
    if b.endpoint is None {
        Some("endpoint"@)
    } else if b.product_key is None {
        Some("product_key"@)
    } else if b.device_id is None {
        Some("device_id"@)
    } else if credential_username(b) is None {
        Some("username"@)
    } else if credential_password(b) is None {
        Some("password"@)
    } else {
        None
    }
}

/// Credentials set on the builder are the ones a built client uses, whether
/// or not a device secret is set; the secret only fills in what was left
/// unset: the username by the device id, the password by the secret itself.
pub proof fn law_set_credentials_win(b: TslinkClientBuilder)
    ensures
        b.username matches Some(u) ==> credential_username(b) == Some(u),
        b.password matches Some(p) ==> credential_password(b) == Some(p),
        b.username is None && b.device_secret is Some ==> credential_username(b) == b.device_id,
        b.password is None ==> credential_password(b) == b.device_secret,
        b.username is None && b.device_secret is None ==> credential_username(b) is None,
        (b.endpoint is Some && b.product_key is Some && b.device_id is Some
            && (b.username is Some || b.device_secret is Some)
            && (b.password is Some || b.device_secret is Some)) <==> build_missing(b) is None,
{
}

impl TslinkClientBuilder {
    /// A builder with nothing set and both QoS levels at most-once.
    pub fn new() -> (b: Self)
        ensures
            b.endpoint is None && b.product_key is None && b.device_id is None,
            b.device_secret is None && b.username is None && b.password is None,
            b.publish_qos == QoS::AtMostOnce,
            b.subscribe_qos == QoS::AtMostOnce,
    {
        TslinkClientBuilder {
            endpoint: None,
            product_key: None,
            device_id: None,
            device_secret: None,
            username: None,
            password: None,
            publish_qos: QoS::AtMostOnce,
            subscribe_qos: QoS::AtMostOnce,
        }
    }

    /// Sets the MQTT endpoint (e.g., `mqtt://broker:1883`).
    pub fn endpoint(self, endpoint: &str) -> (b: Self)
        ensures
            b.endpoint matches Some(v) && v@ == endpoint@,
            b == (TslinkClientBuilder { endpoint: b.endpoint, ..self }),
    {
        TslinkClientBuilder { endpoint: Some(owned(endpoint)), ..self }
    }

    /// Sets the product key.
    pub fn product_key(self, product_key: &str) -> (b: Self)
        ensures
            b.product_key matches Some(v) && v@ == product_key@,
            b == (TslinkClientBuilder { product_key: b.product_key, ..self }),
    {
        TslinkClientBuilder { product_key: Some(owned(product_key)), ..self }
    }

    /// Sets the device ID.
    pub fn device_id(self, device_id: &str) -> (b: Self)
        ensures
            b.device_id matches Some(v) && v@ == device_id@,
            b == (TslinkClientBuilder { device_id: b.device_id, ..self }),
    {
        TslinkClientBuilder { device_id: Some(owned(device_id)), ..self }
    }

    /// Sets the device secret, from which the MQTT credentials are made when
    /// none are set: the username defaults to the device id and the password
    /// to the secret.
    pub fn device_secret(self, device_secret: &str) -> (b: Self)
        ensures
            b.device_secret matches Some(v) && v@ == device_secret@,
            b == (TslinkClientBuilder { device_secret: b.device_secret, ..self }),
    {
        TslinkClientBuilder { device_secret: Some(owned(device_secret)), ..self }
    }

    /// Sets the username for MQTT authentication.
    pub fn username(self, username: &str) -> (b: Self)
        ensures
            b.username matches Some(v) && v@ == username@,
            b == (TslinkClientBuilder { username: b.username, ..self }),
    {
        TslinkClientBuilder { username: Some(owned(username)), ..self }
    }

    /// Sets the password for MQTT authentication.
    pub fn password(self, password: &str) -> (b: Self)
        ensures
            b.password matches Some(v) && v@ == password@,
            b == (TslinkClientBuilder { password: b.password, ..self }),
    {
        TslinkClientBuilder { password: Some(owned(password)), ..self }
    }

    /// Sets the QoS level for publishing.
    pub fn publish_qos(self, qos: QoS) -> (b: Self)
        ensures
            b == (TslinkClientBuilder { publish_qos: qos, ..self }),
    {
        TslinkClientBuilder { publish_qos: qos, ..self }
    }

    /// Sets the QoS level for subscribing.
    pub fn subscribe_qos(self, qos: QoS) -> (b: Self)
        ensures
            b == (TslinkClientBuilder { subscribe_qos: qos, ..self }),
    {
        TslinkClientBuilder { subscribe_qos: qos, ..self }
    }

    /// Builds the client; a `Configuration` error `{setting} is required`
    /// names the first required setting that is missing. Where a device
    /// secret is set, a missing username is the device id and a missing
    /// password is the secret.
    pub fn build(self) -> (r: Result<DefaultTslinkClient, SdkError>)
        ensures
            match build_missing(self) {
                Some(name) => r matches Err(SdkError::Configuration(t)) && t@ == required_text(name),
                None => r matches Ok(c) && c.product_key == self.product_key.unwrap()
                    && c.device_id == self.device_id.unwrap()
                    && c.config.endpoint == self.endpoint.unwrap()
                    && c.config.product_key == self.product_key.unwrap()
                    && c.config.device_id == self.device_id.unwrap()
                    && c.config.username == credential_username(self).unwrap()
                    && c.config.password == credential_password(self).unwrap()
                    && c.config.publish_qos == self.publish_qos
                    && c.config.subscribe_qos == self.subscribe_qos
                    && c.config.keep_alive_secs == 20
                    && c.config.connection_timeout_secs == 10
                    && c.config.max_inflight == 1000,
            },
    {
        proof {
            reveal_strlit("endpoint");
            reveal_strlit("product_key");
            reveal_strlit("device_id");
            reveal_strlit("username");
            reveal_strlit("password");
            reveal_strlit(" is required");
            reveal_strlit("endpoint is required");
            reveal_strlit("product_key is required");
            reveal_strlit("device_id is required");
            reveal_strlit("username is required");
            reveal_strlit("password is required");
            assert(required_text("endpoint"@) =~= "endpoint is required"@);
            assert(required_text("product_key"@) =~= "product_key is required"@);
            assert(required_text("device_id"@) =~= "device_id is required"@);
            assert(required_text("username"@) =~= "username is required"@);
            assert(required_text("password"@) =~= "password is required"@);
        }
        let endpoint = match self.endpoint {
            Some(v) => v,
            None => { return Err(SdkError::Configuration(owned("endpoint is required"))); },
        };
        let product_key = match self.product_key {
            Some(v) => v,
            None => { return Err(SdkError::Configuration(owned("product_key is required"))); },
        };
        let device_id = match self.device_id {
            Some(v) => v,
            None => { return Err(SdkError::Configuration(owned("device_id is required"))); },
        };
        let username = match self.username {
            Some(v) => v,
            None => match &self.device_secret {
                Some(_) => device_id.clone(),
                None => { return Err(SdkError::Configuration(owned("username is required"))); },
            },
        };
        let password = match self.password {
            Some(v) => v,
            None => match self.device_secret {
                Some(secret) => secret,
                None => { return Err(SdkError::Configuration(owned("password is required"))); },
            },
        };
        Ok(DefaultTslinkClient::new(
            endpoint,
            product_key,
            device_id,
            username,
            password,
            self.publish_qos,
            self.subscribe_qos,
        ))
    }
}

// ---------------------------------------------------------------------------
// Topics and methods
// ---------------------------------------------------------------------------

/// Topic of a property report: `sys/{pk}/{did}/thing/event/property/post`.
pub open spec fn property_topic_spec(pk: Seq<char>, did: Seq<char>) -> Seq<char> {
    device_topic(pk, did, "/thing/event/property/post"@)
}

/// Topic of an event report: `sys/{pk}/{did}/thing/event/{name}/{type}`.
pub open spec fn event_topic_spec(pk: Seq<char>, did: Seq<char>, name: Seq<char>, t: EventType) -> Seq<char> {
    device_topic(pk, did, "/thing/event/"@ + name + "/"@ + event_type_text(t))
}

/// Topic of a platform service call: `sys/{pk}/{did}/platform/service/{id}/post`.
pub open spec fn platform_service_topic_spec(id: Seq<char>, pk: Seq<char>, did: Seq<char>) -> Seq<char> {
    device_topic(pk, did, "/platform/service/"@ + id + "/post"@)
}

/// Topic of a device service call: `sys/{pk}/{did}/thing/service/{id}/post`.
pub open spec fn device_service_topic_spec(id: Seq<char>, pk: Seq<char>, did: Seq<char>) -> Seq<char> {
    device_topic(pk, did, "/thing/service/"@ + id + "/post"@)
}

/// Method of an event report: `event.{name}.{type}`.
pub open spec fn event_method_spec(name: Seq<char>, t: EventType) -> Seq<char> {
    "event."@ + name + "."@ + event_type_text(t)
}

/// Method of a platform service call: `platform.service.{id}.post`.
pub open spec fn platform_method_spec(id: Seq<char>) -> Seq<char> {
    "platform.service."@ + id + ".post"@
}

/// The target of a platform service call: the request's device where it
/// names one, else the client's own.
pub open spec fn or_own(requested: Seq<char>, own: Seq<char>) -> Seq<char> {
    if requested.len() == 0 { own } else { requested }
}

/// How long to wait for a reply: the timeout, or nothing when negative.
pub open spec fn wait_millis_spec(timeout_ms: i32) -> u64 {
    if timeout_ms < 0 { 0 } else { timeout_ms as u64 }
}

/// The text of the error for a call whose reply did not come in time.
pub open spec fn invoke_timeout_text(platform: bool, timeout_ms: i32) -> Seq<char> {
    (if platform { "platform"@ } else { "device"@ }) + " service invoke timeout after "@
        + dec_int(timeout_ms as int) + "ms"@
}

/// The text of the error for a call whose reply channel closed.
pub open spec fn reply_closed_text(platform: bool) -> Seq<char> {
    (if platform { "platform"@ } else { "device"@ }) + " service reply channel closed"@
}

/// The executor key of a platform push service: `platform.service.{id}.post`.
pub fn platform_method(identifier: &str) -> (m: String)
    ensures
        m@ == platform_method_spec(identifier@),
{
    concat3("platform.service.", identifier, ".post")
}

/// The executor key of a device service: `service.{id}.post`.
pub fn device_service_method(identifier: &str) -> (m: String)
    ensures
        m@ == service_key(identifier@),
{
    concat3("service.", identifier, ".post")
}

/// The method of an event report.
pub fn event_method(event_name: &str, event_type: EventType) -> (m: String)
    ensures
        m@ == event_method_spec(event_name@, event_type),
{
    let mut m = concat3("event.", event_name, ".");
    push_str(&mut m, event_type.as_str());
    m
}

/// The methods a property-set executor is registered under:
/// `thing.properties.set` and `service.property.set`.
pub fn property_set_methods() -> (r: (String, String))
    ensures
        r.0@ == "thing.properties.set"@,
        r.1@ == "service.property.set"@,
{
    (owned("thing.properties.set"), owned("service.property.set"))
}

/// How long to wait for a reply, in milliseconds.
pub fn wait_millis(timeout_ms: i32) -> (w: u64)
    ensures
        w == wait_millis_spec(timeout_ms),
{
    if timeout_ms < 0 { 0 } else { timeout_ms as u64 }
}

/// The `Timeout` error for a call whose reply did not come in time.
pub fn invoke_timeout_error(platform: bool, timeout_ms: i32) -> (e: SdkError)
    ensures
        e matches SdkError::Timeout(t) && t@ == invoke_timeout_text(platform, timeout_ms),
{
    let mut t = if platform { owned("platform") } else { owned("device") };
    push_str(&mut t, " service invoke timeout after ");
    let n = i64_to_dec(timeout_ms as i64);
    push_str(&mut t, n.as_str());
    push_str(&mut t, "ms");
    SdkError::Timeout(t)
}

/// The `Timeout` error for a call whose reply channel closed.
pub fn reply_closed_error(platform: bool) -> (e: SdkError)
    ensures
        e matches SdkError::Timeout(t) && t@ == reply_closed_text(platform),
{
    let mut t = if platform { owned("platform") } else { owned("device") };
    push_str(&mut t, " service reply channel closed");
    SdkError::Timeout(t)
}

// ---------------------------------------------------------------------------
// The client
// ---------------------------------------------------------------------------

/// A device client's own identity and its MQTT configuration.
#[derive(Debug, Clone)]
pub struct DefaultTslinkClient {
    /// Product key of the device
    pub product_key: String,
    /// ID of the device
    pub device_id: String,
    /// MQTT configuration of its channel
    pub config: MqttConfig,
}

/// A message prepared for sending, with the topic it goes to.
#[derive(Debug)]
pub struct Outgoing {
    /// Topic to publish on
    pub topic: String,
    /// The message
    pub message: CommonMessage,
}

/// A fresh message: random ids, protocol version, the given method and data,
/// stamped with a reading of the clock.
pub open spec fn fresh_message(m: CommonMessage, method: Seq<char>, data: serde_json::Value) -> bool {
    &&& is_uuid_text(m.tid@)
    &&& is_uuid_text(m.bid@)
    &&& m.version@ == protocol_version()
    &&& m.method@ == method
    &&& m.data == data
    &&& is_clock_millis(m.timestamp)
}

impl DefaultTslinkClient {
    /// A client for a device; the MQTT settings not given take their defaults.
    pub fn new(
        endpoint: String,
        product_key: String,
        device_id: String,
        username: String,
        password: String,
        publish_qos: QoS,
        subscribe_qos: QoS,
    ) -> (c: Self)
        ensures
            c.product_key == product_key,
            c.device_id == device_id,
            c.config.endpoint == endpoint,
            c.config.product_key == product_key,
            c.config.device_id == device_id,
            c.config.username == username,
            c.config.password == password,
            c.config.publish_qos == publish_qos,
            c.config.subscribe_qos == subscribe_qos,
            c.config.keep_alive_secs == 20,
            c.config.connection_timeout_secs == 10,
            c.config.max_inflight == 1000,
    {
        let config = MqttConfig {
            endpoint,
            product_key: product_key.clone(),
            device_id: device_id.clone(),
            username,
            password,
            keep_alive_secs: 20,
            connection_timeout_secs: 10,
            max_inflight: 1000,
            publish_qos,
            subscribe_qos,
        };
        DefaultTslinkClient { product_key, device_id, config }
    }

    /// Topic of the client's own property reports.
    pub fn property_topic(&self) -> (t: String)
        ensures
            t@ == property_topic_spec(self.product_key@, self.device_id@),
    {
        make_device_topic(self.product_key.as_str(), self.device_id.as_str(), "/thing/event/property/post")
    }

    /// Topic of property reports for another device.
    pub fn property_topic_for(&self, product_key: &str, device_id: &str) -> (t: String)
        ensures
            t@ == property_topic_spec(product_key@, device_id@),
    {
        make_device_topic(product_key, device_id, "/thing/event/property/post")
    }

    /// Topic of the client's own event reports.
    pub fn event_topic(&self, event_name: &str, event_type: EventType) -> (t: String)
        ensures
            t@ == event_topic_spec(self.product_key@, self.device_id@, event_name@, event_type),
    {
        let mut tail = concat3("/thing/event/", event_name, "/");
        push_str(&mut tail, event_type.as_str());
        make_device_topic(self.product_key.as_str(), self.device_id.as_str(), tail.as_str())
    }

    /// Topic of a platform service call for a device.
    pub fn platform_service_topic(&self, identity: &str, pk: &str, did: &str) -> (t: String)
        ensures
            t@ == platform_service_topic_spec(identity@, pk@, did@),
    {
        let tail = concat3("/platform/service/", identity, "/post");
        make_device_topic(pk, did, tail.as_str())
    }

    /// Topic of a device service call for a device.
    pub fn device_service_topic(&self, identity: &str, pk: &str, did: &str) -> (t: String)
        ensures
            t@ == device_service_topic_spec(identity@, pk@, did@),
    {
        let tail = concat3("/thing/service/", identity, "/post");
        make_device_topic(pk, did, tail.as_str())
    }

    /// A property report of the client itself.
    pub fn prepare_property_post(&self, data: serde_json::Value) -> (o: Outgoing)
        ensures
            o.topic@ == property_topic_spec(self.product_key@, self.device_id@),
            fresh_message(o.message, "event.property.post"@, data),
    {
        Outgoing {
            topic: self.property_topic(),
            message: CommonMessage::new("event.property.post", data),
        }
    }

    /// A property report on behalf of another device.
    pub fn prepare_property_post_for(&self, product_key: &str, device_id: &str, data: serde_json::Value) -> (o: Outgoing)
        ensures
            o.topic@ == property_topic_spec(product_key@, device_id@),
            fresh_message(o.message, "event.property.post"@, data),
    {
        Outgoing {
            topic: self.property_topic_for(product_key, device_id),
            message: CommonMessage::new("event.property.post", data),
        }
    }

    /// An event report of the client itself.
    pub fn prepare_event_post(&self, event_type: EventType, event_name: &str, data: serde_json::Value) -> (o: Outgoing)
        ensures
            o.topic@ == event_topic_spec(self.product_key@, self.device_id@, event_name@, event_type),
            fresh_message(o.message, event_method_spec(event_name@, event_type), data),
    {
        let method = event_method(event_name, event_type);
        Outgoing {
            topic: self.event_topic(event_name, event_type),
            message: CommonMessage::new(method.as_str(), data),
        }
    }

    /// A platform service call: to the request's device where it names one
    /// (else the client's own), method `platform.service.{id}.post`, with the
    /// parameter bytes read as JSON (`null` where they are not JSON).
    pub fn prepare_platform_invoke(&self, request: &PlatformServiceRequest) -> (o: Outgoing)
        ensures
            o.topic@ == platform_service_topic_spec(
                request.service_identifier@,
                or_own(request.product_key@, self.product_key@),
                or_own(request.device_id@, self.device_id@),
            ),
            fresh_message(o.message, platform_method_spec(request.service_identifier@),
                json_parse_or_null(request.param_data@)),
    {
        let pk = if request.product_key.as_str().is_empty() { self.product_key.as_str() } else { request.product_key.as_str() };
        let did = if request.device_id.as_str().is_empty() { self.device_id.as_str() } else { request.device_id.as_str() };
        let method = platform_method(request.service_identifier.as_str());
        let data = json_from_bytes(request.param_data.as_slice());
        Outgoing {
            topic: self.platform_service_topic(request.service_identifier.as_str(), pk, did),
            message: CommonMessage::new(method.as_str(), data),
        }
    }

    /// A device service call to the given device, method
    /// `service.{id}.post`, with the parameter bytes read as JSON.
    pub fn prepare_device_invoke(&self, request: &DeviceServiceRequest, product_key: &str, device_id: &str) -> (o: Outgoing)
        ensures
            o.topic@ == device_service_topic_spec(request.service_identifier@, product_key@, device_id@),
            fresh_message(o.message, service_key(request.service_identifier@),
                json_parse_or_null(request.param_data@)),
    {
        let method = device_service_method(request.service_identifier.as_str());
        let data = json_from_bytes(request.param_data.as_slice());
        Outgoing {
            topic: self.device_service_topic(request.service_identifier.as_str(), product_key, device_id),
            message: CommonMessage::new(method.as_str(), data),
        }
    }

    /// The channel a plain MQTT client communicates on.
    pub fn get_channel(&self) -> (c: CommunicationChannel)
        ensures
            c == CommunicationChannel::Remote,
    {
        CommunicationChannel::Remote
    }
}

// ---------------------------------------------------------------------------
// Laws
// ---------------------------------------------------------------------------

/// Whether a sequence has no `/` and no `.`.
pub open spec fn plain_segment(s: Seq<char>) -> bool {
    !has_char(s, '/') && !has_char(s, '.')
}

/// A device service call sent to a device on its service topic, with no
/// method of its own, is routed by the receiving adapter to the executor key
/// `service.{id}.post`, and its service identifier is `id` again.
pub proof fn law_device_service_call_routes(id: Seq<char>, pk: Seq<char>, did: Seq<char>)
    requires
        plain_segment(id),
        !has_char(pk, '/'),
        !has_char(did, '/'),
    ensures
        method_from_topic(device_service_topic_spec(id, pk, did)) == service_key(id),
        service_identifier_of(method_from_topic(device_service_topic_spec(id, pk, did))) == id,
{
    reveal_strlit("sys");
    reveal_strlit("thing");
    reveal_strlit("service");
    reveal_strlit("post");
    reveal_strlit("sys/");
    reveal_strlit("/");
    reveal_strlit("/thing/service/");
    reveal_strlit("/post");
    assert(!has_char("sys"@, '/'));
    assert(!has_char("thing"@, '/'));
    assert(!has_char("service"@, '/'));
    assert(!has_char("post"@, '/'));
    let p0 = "sys"@;
    let p1 = p0 + seq!['/'] + pk;
    let p2 = p1 + seq!['/'] + did;
    let p3 = p2 + seq!['/'] + "thing"@;
    let p4 = p3 + seq!['/'] + "service"@;
    let p5 = p4 + seq!['/'] + id;
    let p6 = p5 + seq!['/'] + "post"@;
    lemma_split_single(p0, '/');
    lemma_split_append(p0, pk, '/');
    lemma_split_append(p1, did, '/');
    lemma_split_append(p2, "thing"@, '/');
    lemma_split_append(p3, "service"@, '/');
    lemma_split_append(p4, id, '/');
    lemma_split_append(p5, "post"@, '/');
    assert(device_service_topic_spec(id, pk, did) =~= p6);
    let parts = split_spec(p6, '/');
    assert(parts =~= seq![p0, pk, did, "thing"@, "service"@, id, "post"@]);
    assert(parts[4] == "service"@);
    assert(parts[5] == id);
    crate::adapter::law_identifier_round_trip(id);
}

} // verus!
