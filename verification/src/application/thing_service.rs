//! Service invocation and property setting on devices: the topics and the
//! command envelopes sent to them.

use vstd::prelude::*;
use crate::channel::{device_topic, make_device_topic};
use crate::client::device_service_topic_spec;
use crate::clock::{is_clock_millis, is_uuid_text, new_uuid_text, now_millis};
use crate::domain::message::{success_code, CommonTopicResponse, ResponseCode};
use crate::domain::thing_model::DeviceModel;
use crate::sdk_message::{default_version, protocol_version};
use crate::text::{concat3, owned};

verus! {

/// Default timeout for synchronous service calls, in seconds.
pub const DEFAULT_SYNC_TIMEOUT_SECS: u64 = 10;

/// Topic of a property-set command: `sys/{pk}/{did}/thing/properties/set`.
pub open spec fn property_set_topic_spec(pk: Seq<char>, did: Seq<char>) -> Seq<char> {
    device_topic(pk, did, "/thing/properties/set"@)
}

/// The topic a service call to a device goes to:
/// `sys/{pk}/{did}/thing/service/{method}/post`.
pub fn service_topic(product_key: &str, device_id: &str, method: &str) -> (t: String)
    ensures
        t@ == device_service_topic_spec(method@, product_key@, device_id@),
{
    let tail = concat3("/thing/service/", method, "/post");
    make_device_topic(product_key, device_id, tail.as_str())
}

/// The topic a property-set command goes to.
pub fn property_set_topic(product_key: &str, device_id: &str) -> (t: String)
    ensures
        t@ == property_set_topic_spec(product_key@, device_id@),
{
    make_device_topic(product_key, device_id, "/thing/properties/set")
}

/// Whether a command sent to a device carries the given transaction id,
/// method, data and device, with code `200`, no message, no batch id, the
/// protocol version and a timestamp.
pub open spec fn is_command(
    r: CommonTopicResponse<serde_json::Value>,
    tid: Seq<char>,
    method: Seq<char>,
    data: serde_json::Value,
    pk: Seq<char>,
    did: Seq<char>,
) -> bool {
    &&& r.tid matches Some(t) && t@ == tid
    &&& r.bid is None
    &&& r.method matches Some(m) && m@ == method
    &&& r.data == data
    &&& r.timestamp matches Some(t) && is_clock_millis(t)
    &&& r.version@ == protocol_version()
    &&& r.code matches Some(c) && c@ == success_code()
    &&& r.message is None
    &&& r.product_key matches Some(p) && p@ == pk
    &&& r.device_id matches Some(d) && d@ == did
}

/// A command to a device: transaction id, method and data, code `200`.
pub fn command(
    product_key: &str,
    device_id: &str,
    method: &str,
    data: serde_json::Value,
    tid: String,
) -> (r: CommonTopicResponse<serde_json::Value>)
    ensures
        is_command(r, tid@, method@, data, product_key@, device_id@),
{
    CommonTopicResponse {
        tid: Some(tid),
        bid: None,
        method: Some(owned(method)),
        data,
        timestamp: Some(now_millis()),
        version: default_version(),
        code: Some(owned(ResponseCode::SUCCESS)),
        message: None,
        product_key: Some(owned(product_key)),
        device_id: Some(owned(device_id)),
    }
}

/// A command with its topic.
#[derive(Debug)]
pub struct Command {
    /// Topic to publish on
    pub topic: String,
    /// The envelope
    pub response: CommonTopicResponse<serde_json::Value>,
}

/// A service call to a device, sent on the topic of the device id that
/// multi-link routing chose (`target_device_id`), with a fresh transaction id.
pub fn service_invocation(
    product_key: &str,
    device_id: &str,
    target_device_id: &str,
    method: &str,
    data: serde_json::Value,
) -> (c: Command)
    ensures
        c.topic@ == device_service_topic_spec(method@, product_key@, target_device_id@),
        c.response.tid matches Some(t) && is_uuid_text(t@),
        is_command(c.response, c.response.tid->Some_0@, method@, data, product_key@, device_id@),
{
    let tid = new_uuid_text();
    Command {
        topic: service_topic(product_key, target_device_id, method),
        response: command(product_key, device_id, method, data, tid),
    }
}

/// A property-set command to a device, sent on the topic of the chosen
/// device id, method `thing.properties.set`, with a fresh transaction id.
pub fn property_set_command(
    product_key: &str,
    device_id: &str,
    target_device_id: &str,
    properties: serde_json::Value,
) -> (c: Command)
    ensures
        c.topic@ == property_set_topic_spec(product_key@, target_device_id@),
        c.response.tid matches Some(t) && is_uuid_text(t@),
        is_command(c.response, c.response.tid->Some_0@, "thing.properties.set"@, properties, product_key@, device_id@),
{
    let tid = new_uuid_text();
    Command {
        topic: property_set_topic(product_key, target_device_id),
        response: command(product_key, device_id, "thing.properties.set", properties, tid),
    }
}

/// Whether a service method is missing from a known device model (the call
/// still goes ahead; it is only reported).
pub fn method_unknown_to_model(model: Option<&DeviceModel>, method: &str) -> (b: bool)
    ensures
        b == (model matches Some(m) && !m.services@.dom().contains(method@)),
{
    match model {
        Some(m) => m.get_service(method).is_none(),
        None => false,
    }
}

} // verus!
