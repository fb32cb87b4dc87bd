//! Device events: the acknowledgement sent back to the device and the
//! record forwarded to Kafka.

use vstd::prelude::*;
use crate::channel::{device_topic, make_device_topic};
use crate::domain::message::{echoes, success_code, CommonTopicReceiver, CommonTopicResponse};
use crate::outside::{
    empty_json_object, json_i64, json_i64_value, json_is_null, json_is_object, json_null,
    json_object_insert, json_object_map, json_string, json_string_value,
};
use crate::text::{concat3, owned, push_str};

verus! {

/// Kafka topic device events are forwarded to.
pub const DEVICE_EVENT_TOPIC: &'static str = "iot-device-message";

/// Topic of an event acknowledgement:
/// `sys/{pk}/{did}/thing/event/{identifier}/{level}_reply`.
pub open spec fn event_reply_topic_spec(pk: Seq<char>, did: Seq<char>, identifier: Seq<char>, level: Seq<char>) -> Seq<char> {
    device_topic(pk, did, "/thing/event/"@ + identifier + "/"@ + level + "_reply"@)
}

/// The topic an event acknowledgement goes to.
pub fn event_reply_topic(product_key: &str, device_id: &str, identifier: &str, level: &str) -> (t: String)
    ensures
        t@ == event_reply_topic_spec(product_key@, device_id@, identifier@, level@),
{
    let mut tail = concat3("/thing/event/", identifier, "/");
    push_str(&mut tail, level);
    push_str(&mut tail, "_reply");
    make_device_topic(product_key, device_id, tail.as_str())
}

/// The Kafka key of a device's events: `{pk}_{did}`.
pub fn kafka_key(product_key: &str, device_id: &str) -> (k: String)
    ensures
        k@ == product_key@ + "_"@ + device_id@,
{
    concat3(product_key, "_", device_id)
}

/// The acknowledgement of an event: a success reply with an empty object.
pub fn event_ack(receiver: &CommonTopicReceiver<serde_json::Value>) -> (r: CommonTopicResponse<serde_json::Value>)
    ensures
        echoes(r, *receiver),
        json_is_object(r.data),
        json_object_map(r.data).dom() == Set::<Seq<char>>::empty(),
        r.code matches Some(c) && c@ == success_code(),
        r.message matches Some(m) && m@ == "success"@,
{
    CommonTopicResponse::reply(receiver, empty_json_object())
}

/// Whether `v` is the JSON form of an optional text: the string for some
/// text, `null` for none.
pub open spec fn opt_text_json(v: serde_json::Value, o: Option<String>) -> bool {
    match o {
        Some(s) => v == json_string_value(s@),
        None => json_is_null(v),
    }
}

/// Whether `v` is the JSON form of an optional integer: the number for some
/// integer, `null` for none.
pub open spec fn opt_i64_json(v: serde_json::Value, o: Option<i64>) -> bool {
    match o {
        Some(n) => v == json_i64_value(n),
        None => json_is_null(v),
    }
}

/// Whether `m` is the record an event is forwarded to Kafka as: exactly the
/// members `productKey`, `deviceId`, `identifier`, `level`, `data`,
/// `timestamp`, `tid` and `method`, holding the device, the event's
/// identifier and level, and the message's data, timestamp, transaction id
/// and method.
pub open spec fn is_event_payload(
    m: Map<Seq<char>, serde_json::Value>,
    pk: Seq<char>,
    did: Seq<char>,
    identifier: Seq<char>,
    level: Seq<char>,
    receiver: CommonTopicReceiver<serde_json::Value>,
) -> bool {
    &&& m.dom() == set!["productKey"@, "deviceId"@, "identifier"@, "level"@, "data"@, "timestamp"@, "tid"@, "method"@]
    &&& m["productKey"@] == json_string_value(pk)
    &&& m["deviceId"@] == json_string_value(did)
    &&& m["identifier"@] == json_string_value(identifier)
    &&& m["level"@] == json_string_value(level)
    &&& m["data"@] == receiver.data
    &&& opt_i64_json(m["timestamp"@], receiver.timestamp)
    &&& opt_text_json(m["tid"@], receiver.tid)
    &&& opt_text_json(m["method"@], receiver.method)
}

fn opt_text(o: &Option<String>) -> (v: serde_json::Value)
    ensures
        opt_text_json(v, *o),
{
    match o {
        Some(s) => json_string(s.clone()),
        None => json_null(),
    }
}

/// The record an event is forwarded to Kafka as: a JSON object with the
/// device, the event's identifier and level, and the message's data,
/// timestamp, transaction id and method.
pub fn event_payload(
    product_key: &str,
    device_id: &str,
    identifier: &str,
    level: &str,
    receiver: &CommonTopicReceiver<serde_json::Value>,
) -> (v: serde_json::Value)
    ensures
        json_is_object(v),
        is_event_payload(json_object_map(v), product_key@, device_id@, identifier@, level@, *receiver),
{
    let mut v = empty_json_object();
    json_object_insert(&mut v, owned("productKey"), json_string(owned(product_key)));
    json_object_insert(&mut v, owned("deviceId"), json_string(owned(device_id)));
    json_object_insert(&mut v, owned("identifier"), json_string(owned(identifier)));
    json_object_insert(&mut v, owned("level"), json_string(owned(level)));
    json_object_insert(&mut v, owned("data"), receiver.data.clone());
    let ts = match receiver.timestamp {
        Some(n) => json_i64(n),
        None => json_null(),
    };
    let ghost ts_v = ts;
    json_object_insert(&mut v, owned("timestamp"), ts);
    let tid_v = opt_text(&receiver.tid);
    let ghost tid_g = tid_v;
    json_object_insert(&mut v, owned("tid"), tid_v);
    let method_v = opt_text(&receiver.method);
    let ghost method_g = method_v;
    json_object_insert(&mut v, owned("method"), method_v);
    proof {
        reveal_strlit("productKey");
        reveal_strlit("deviceId");
        reveal_strlit("identifier");
        reveal_strlit("level");
        reveal_strlit("data");
        reveal_strlit("timestamp");
        reveal_strlit("tid");
        reveal_strlit("method");
    }
    assert("productKey"@[0] != "identifier"@[0]);
    assert("productKey"@ != "identifier"@);
    assert("deviceId"@.len() != "identifier"@.len() && "deviceId"@.len() != "level"@.len());
    assert("deviceId"@.len() != "data"@.len() && "deviceId"@.len() != "timestamp"@.len());
    assert("deviceId"@.len() != "tid"@.len() && "deviceId"@.len() != "method"@.len());
    assert(json_object_map(v) =~= map![
        "productKey"@ => json_string_value(product_key@),
        "deviceId"@ => json_string_value(device_id@),
        "identifier"@ => json_string_value(identifier@),
        "level"@ => json_string_value(level@),
        "data"@ => receiver.data,
        "timestamp"@ => ts_v,
        "tid"@ => tid_g,
        "method"@ => method_g,
    ]);
    assert(json_object_map(v)["productKey"@] == json_string_value(product_key@));
    assert(json_object_map(v)["deviceId"@] == json_string_value(device_id@));
    assert(json_object_map(v)["identifier"@] == json_string_value(identifier@));
    assert(json_object_map(v)["level"@] == json_string_value(level@));
    assert(json_object_map(v)["data"@] == receiver.data);
    assert(json_object_map(v)["timestamp"@] == ts_v);
    assert(json_object_map(v)["tid"@] == tid_g);
    assert(json_object_map(v)["method"@] == method_g);
    assert(json_object_map(v).dom() =~= set!["productKey"@, "deviceId"@, "identifier"@, "level"@, "data"@, "timestamp"@, "tid"@, "method"@]);
    v
}

} // verus!
