//! Shadow replay: the service calls sent to a device when it comes online.

use vstd::prelude::*;
use crate::client::device_service_topic_spec;
use crate::clock::{is_clock_millis, is_uuid_text, new_uuid_text, now_millis};
use crate::domain::message::CommonTopicResponse;
use crate::domain::shadow::ShadowServiceConfig;
use crate::outside::{empty_json_object, json_is_object, json_object_map};
use crate::sdk_message::{default_version, protocol_version};
use crate::text::{concat2, owned};
use crate::application::thing_service::{service_topic, Command};

verus! {

/// Whether `c` replays the shadow service `method` on a device: sent on the
/// method's service topic, method `thing.service.{method}`, a fresh
/// transaction id, an empty object as data and no code or message.
pub open spec fn is_replay(c: Command, pk: Seq<char>, did: Seq<char>, method: Seq<char>) -> bool {
    &&& c.topic@ == device_service_topic_spec(method, pk, did)
    &&& c.response.tid matches Some(t) && is_uuid_text(t@)
    &&& c.response.bid is None
    &&& c.response.version@ == protocol_version()
    &&& c.response.timestamp matches Some(t) && is_clock_millis(t)
    &&& c.response.method matches Some(m) && m@ == "thing.service."@ + method
    &&& c.response.product_key matches Some(p) && p@ == pk
    &&& c.response.device_id matches Some(d) && d@ == did
    &&& json_is_object(c.response.data)
    &&& json_object_map(c.response.data).dom() == Set::<Seq<char>>::empty()
    &&& c.response.code is None
    &&& c.response.message is None
}

/// The replay of one shadow service on a device.
pub fn replay_command(product_key: &str, device_id: &str, method: &str) -> (c: Command)
    ensures
        is_replay(c, product_key@, device_id@, method@),
{
    let response = CommonTopicResponse {
        tid: Some(new_uuid_text()),
        bid: None,
        version: default_version(),
        timestamp: Some(now_millis()),
        method: Some(concat2("thing.service.", method)),
        product_key: Some(owned(product_key)),
        device_id: Some(owned(device_id)),
        data: empty_json_object(),
        code: None,
        message: None,
    };
    Command { topic: service_topic(product_key, device_id, method), response }
}

/// The replays of the product's shadow services on a device that came
/// online, one per service, in order.
pub fn replay_commands(product_key: &str, device_id: &str, services: &Vec<ShadowServiceConfig>) -> (v: Vec<Command>)
    ensures
        v.len() == services.len(),
        forall|i: int| 0 <= i < v.len() ==> is_replay(#[trigger] v[i], product_key@, device_id@, services[i].method@),
{
    let mut v: Vec<Command> = Vec::new();
    let mut i: usize = 0;
    while i < services.len()
        invariant
            i <= services.len(),
            v.len() == i,
            forall|j: int| 0 <= j < i ==> is_replay(#[trigger] v[j], product_key@, device_id@, services[j].method@),
        decreases services.len() - i,
    {
        v.push(replay_command(product_key, device_id, services[i].method.as_str()));
        i = i + 1;
    }
    v
}

} // verus!
