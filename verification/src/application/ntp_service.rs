//! NTP: the reply that tells a device the server's time.

use vstd::prelude::*;
use crate::adapter::{has_char, lemma_split_append, lemma_split_single};
use crate::channel::{device_topic, make_device_topic};
use crate::clock::{is_clock_millis, now_millis};
use crate::domain::message::{success_code, CommonTopicReceiver, CommonTopicResponse, ResponseCode};
use crate::outside::{
    empty_json_object, json_i64, json_i64_value, json_is_object, json_object_insert, json_object_map,
};
use crate::sdk_message::{default_version, protocol_version};
use crate::text::{clone_opt, owned, split_spec};

verus! {

/// Topic of an NTP reply: `sys/{pk}/{did}/thing/ntp/post_reply`.
pub open spec fn ntp_reply_topic_spec(pk: Seq<char>, did: Seq<char>) -> Seq<char> {
    device_topic(pk, did, "/thing/ntp/post_reply"@)
}

/// The topic an NTP reply goes to.
pub fn ntp_reply_topic(product_key: &str, device_id: &str) -> (t: String)
    ensures
        t@ == ntp_reply_topic_spec(product_key@, device_id@),
{
    make_device_topic(product_key, device_id, "/thing/ntp/post_reply")
}

/// The NTP reply to a device goes to `sys/{pk}/{did}/thing/ntp/post_reply`:
/// split at `/`, its segments are `sys`, the product key, the device id,
/// `thing`, `ntp` and `post_reply`, for keys without `/`.
pub proof fn law_ntp_reply_topic_segments(pk: Seq<char>, did: Seq<char>)
    requires
        !has_char(pk, '/'),
        !has_char(did, '/'),
    ensures
        ntp_reply_topic_spec(pk, did) == "sys/"@ + pk + "/"@ + did + "/thing/ntp/post_reply"@,
        split_spec(ntp_reply_topic_spec(pk, did), '/') == seq!["sys"@, pk, did, "thing"@, "ntp"@, "post_reply"@],
{
    reveal_strlit("sys/");
    reveal_strlit("/");
    reveal_strlit("/thing/ntp/post_reply");
    reveal_strlit("sys");
    reveal_strlit("thing");
    reveal_strlit("ntp");
    reveal_strlit("post_reply");
    let t = ntp_reply_topic_spec(pk, did);
    let p1 = "sys"@ + seq!['/'] + pk;
    let p2 = p1 + seq!['/'] + did;
    let p3 = p2 + seq!['/'] + "thing"@;
    let p4 = p3 + seq!['/'] + "ntp"@;
    assert(t =~= p4 + seq!['/'] + "post_reply"@);
    assert(!has_char("sys"@, '/')) by {
        assert(forall|i: int| 0 <= i < 3 ==> "sys"@[i] != '/');
    }
    assert(!has_char("thing"@, '/')) by {
        assert(forall|i: int| 0 <= i < 5 ==> "thing"@[i] != '/');
    }
    assert(!has_char("ntp"@, '/')) by {
        assert(forall|i: int| 0 <= i < 3 ==> "ntp"@[i] != '/');
    }
    assert(!has_char("post_reply"@, '/')) by {
        assert(forall|i: int| 0 <= i < 10 ==> "post_reply"@[i] != '/');
    }
    lemma_split_single("sys"@, '/');
    lemma_split_append("sys"@, pk, '/');
    lemma_split_append(p1, did, '/');
    lemma_split_append(p2, "thing"@, '/');
    lemma_split_append(p3, "ntp"@, '/');
    lemma_split_append(p4, "post_reply"@, '/');
    assert(split_spec(t, '/') =~= seq!["sys"@, pk, did, "thing"@, "ntp"@, "post_reply"@]);
}

/// The data of an NTP reply: the server's and the device's send times.
pub open spec fn ntp_data_spec(server_send: i64, device_send: i64) -> Map<Seq<char>, serde_json::Value> {
    map![
        "serverSendTime"@ => json_i64_value(server_send),
        "deviceSendTime"@ => json_i64_value(device_send),
    ]
}

/// The data of an NTP reply.
pub fn ntp_data(server_send: i64, device_send: i64) -> (v: serde_json::Value)
    ensures
        json_is_object(v),
        json_object_map(v) == ntp_data_spec(server_send, device_send),
{
    let mut v = empty_json_object();
    json_object_insert(&mut v, owned("serverSendTime"), json_i64(server_send));
    json_object_insert(&mut v, owned("deviceSendTime"), json_i64(device_send));
    proof {
        reveal_strlit("serverSendTime");
        reveal_strlit("deviceSendTime");
    }
    assert(json_object_map(v) =~= ntp_data_spec(server_send, device_send));
    v
}

/// The NTP reply to a request received at server time `now`: the request's
/// ids, method `thing.ntp`, the device, code `200`, and the server time
/// with the device's send time (0 when the request has none).
pub fn ntp_response(
    product_key: &str,
    device_id: &str,
    receiver: &CommonTopicReceiver<serde_json::Value>,
    now: i64,
) -> (r: CommonTopicResponse<serde_json::Value>)
    ensures
        r.tid == receiver.tid,
        r.bid == receiver.bid,
        r.version@ == protocol_version(),
        r.timestamp == Some(now),
        r.method matches Some(m) && m@ == "thing.ntp"@,
        r.product_key matches Some(p) && p@ == product_key@,
        r.device_id matches Some(d) && d@ == device_id@,
        json_is_object(r.data),
        json_object_map(r.data) == ntp_data_spec(now, match receiver.timestamp { Some(t) => t, None => 0 }),
        r.code matches Some(c) && c@ == success_code(),
        r.message matches Some(m) && m@ == "success"@,
{
    let device_send: i64 = match receiver.timestamp {
        Some(t) => t,
        None => 0,
    };
    CommonTopicResponse {
        tid: clone_opt(&receiver.tid),
        bid: clone_opt(&receiver.bid),
        version: default_version(),
        timestamp: Some(now),
        method: Some(owned("thing.ntp")),
        product_key: Some(owned(product_key)),
        device_id: Some(owned(device_id)),
        data: ntp_data(now, device_send),
        code: Some(owned(ResponseCode::SUCCESS)),
        message: Some(owned("success")),
    }
}

/// The reply to an NTP request with its topic, stamped with the server's
/// current time.
pub fn ntp_reply(
    product_key: &str,
    device_id: &str,
    receiver: &CommonTopicReceiver<serde_json::Value>,
) -> (r: (String, CommonTopicResponse<serde_json::Value>))
    ensures
        r.0@ == ntp_reply_topic_spec(product_key@, device_id@),
        r.1.timestamp matches Some(now) && is_clock_millis(now) && json_object_map(r.1.data)
            == ntp_data_spec(now, match receiver.timestamp { Some(t) => t, None => 0 }),
        r.1.tid == receiver.tid,
        r.1.code matches Some(c) && c@ == success_code(),
{
    let now = now_millis();
    (ntp_reply_topic(product_key, device_id), ntp_response(product_key, device_id, receiver, now))
}

} // verus!
