//! What the platform's message handlers decide: which messages each one
//! takes, what they read from a message, and the payloads they answer with.

use vstd::prelude::*;
use crate::channel::{device_topic, make_device_topic};
use crate::domain::device_config::DeviceConfig;
use crate::domain::topic::{ThingMessageType, TopicInfo};
use crate::outside::{
    empty_json_object, json_as_str, json_bool, json_bool_value, json_get, json_get_str, json_i64,
    json_i64_value, json_is_object, json_member, json_object_insert, json_object_map, json_u64,
    json_u64_value,
};
use crate::text::{equal_str, owned};

verus! {

/// Message types the event handler takes.
pub fn event_handler_types() -> (v: Vec<ThingMessageType>)
    ensures
        v@ == seq![ThingMessageType::EventCustom],
{
    let mut v = Vec::new();
    v.push(ThingMessageType::EventCustom);
    assert(v@ =~= seq![ThingMessageType::EventCustom]);
    v
}

/// Message types the heartbeat handler takes.
pub fn heartbeat_handler_types() -> (v: Vec<ThingMessageType>)
    ensures
        v@ == seq![ThingMessageType::Pong],
{
    let mut v = Vec::new();
    v.push(ThingMessageType::Pong);
    assert(v@ =~= seq![ThingMessageType::Pong]);
    v
}

/// Message types the NTP handler takes.
pub fn ntp_handler_types() -> (v: Vec<ThingMessageType>)
    ensures
        v@ == seq![ThingMessageType::Ntp],
{
    let mut v = Vec::new();
    v.push(ThingMessageType::Ntp);
    assert(v@ =~= seq![ThingMessageType::Ntp]);
    v
}

/// Message types the property handler takes.
pub fn property_handler_types() -> (v: Vec<ThingMessageType>)
    ensures
        v@ == seq![ThingMessageType::EventProperty],
{
    let mut v = Vec::new();
    v.push(ThingMessageType::EventProperty);
    assert(v@ =~= seq![ThingMessageType::EventProperty]);
    v
}

/// Message types the registration handler takes.
pub fn register_handler_types() -> (v: Vec<ThingMessageType>)
    ensures
        v@ == seq![ThingMessageType::Register, ThingMessageType::DynamicRegister],
{
    let mut v = Vec::new();
    v.push(ThingMessageType::Register);
    v.push(ThingMessageType::DynamicRegister);
    assert(v@ =~= seq![ThingMessageType::Register, ThingMessageType::DynamicRegister]);
    v
}

/// Message types the service reply handler takes.
pub fn service_reply_handler_types() -> (v: Vec<ThingMessageType>)
    ensures
        v@ == seq![ThingMessageType::ServiceReply],
{
    let mut v = Vec::new();
    v.push(ThingMessageType::ServiceReply);
    assert(v@ =~= seq![ThingMessageType::ServiceReply]);
    v
}

/// The identifier and level of a custom event topic: the identifier is the
/// second sub-category segment (an event without one is dropped), the level
/// is the topic's level or `info`.
pub fn event_target(topic: &TopicInfo) -> (r: Option<(String, String)>)
    ensures
        topic.sub_category.len() < 2 <==> r is None,
        r matches Some(t) ==> {
            &&& t.0 == topic.sub_category[1]
            &&& t.1@ == (match topic.level { Some(l) => l@, None => "info"@ })
        },
{
    if topic.sub_category.len() < 2 {
        return None;
    }
    let identifier = topic.sub_category[1].clone();
    let level = match &topic.level {
        Some(l) => l.clone(),
        None => owned("info"),
    };
    Some((identifier, level))
}

/// Whether a registration topic is a dynamic one: some sub-category segment
/// is `dynamic_register`.
pub fn is_dynamic_register(topic: &TopicInfo) -> (b: bool)
    ensures
        b == (exists|i: int| 0 <= i < topic.sub_category.len() && (#[trigger] topic.sub_category[i])@ == "dynamic_register"@),
{
    let mut i: usize = 0;
    while i < topic.sub_category.len()
        invariant
            i <= topic.sub_category.len(),
            forall|j: int| 0 <= j < i ==> (#[trigger] topic.sub_category[j])@ != "dynamic_register"@,
        decreases topic.sub_category.len() - i,
    {
        if equal_str(topic.sub_category[i].as_str(), "dynamic_register") {
            return true;
        }
        i = i + 1;
    }
    false
}

/// Topic of a registration reply: `sys/{pk}/{did}/thing/{register|dynamic_register}/post_reply`.
pub open spec fn register_reply_topic_spec(pk: Seq<char>, did: Seq<char>, dynamic: bool) -> Seq<char> {
    device_topic(pk, did, "/thing/"@ + (if dynamic { "dynamic_register"@ } else { "register"@ }) + "/post_reply"@)
}

/// The topic a registration reply goes to.
pub fn register_reply_topic(product_key: &str, device_id: &str, dynamic: bool) -> (t: String)
    ensures
        t@ == register_reply_topic_spec(product_key@, device_id@, dynamic),
{
    let tail = if dynamic { "/thing/dynamic_register/post_reply" } else { "/thing/register/post_reply" };
    proof {
        reveal_strlit("/thing/dynamic_register/post_reply");
        reveal_strlit("/thing/register/post_reply");
        reveal_strlit("/thing/");
        reveal_strlit("dynamic_register");
        reveal_strlit("register");
        reveal_strlit("/post_reply");
        assert("/thing/dynamic_register/post_reply"@ =~= "/thing/"@ + "dynamic_register"@ + "/post_reply"@);
        assert("/thing/register/post_reply"@ =~= "/thing/"@ + "register"@ + "/post_reply"@);
    }
    make_device_topic(product_key, device_id, tail)
}

/// The text of a string member of a message's data, if there is one.
pub open spec fn text_member(data: serde_json::Value, key: Seq<char>) -> Option<Seq<char>> {
    match json_member(data, key) {
        Some(m) => json_as_str(m),
        None => None,
    }
}

/// What a registration message carries.
#[derive(Debug)]
pub struct RegisterRequest {
    /// Device secret (static registration; empty when missing)
    pub device_secret: String,
    /// Product secret (empty when missing)
    pub product_secret: String,
    /// Device name (dynamic registration)
    pub device_name: Option<String>,
}

fn text_or_empty(data: &serde_json::Value, key: &str) -> (s: String)
    ensures
        s@ == (match text_member(*data, key@) { Some(t) => t, None => Seq::<char>::empty() }),
{
    match json_get_str(data, key) {
        Some(t) => t,
        None => String::new(),
    }
}

/// Reads a registration message's data: `productSecret`, and `deviceName`
/// for a dynamic registration or `deviceSecret` for a static one.
pub fn register_request(data: &serde_json::Value, dynamic: bool) -> (r: RegisterRequest)
    ensures
        r.product_secret@ == (match text_member(*data, "productSecret"@) { Some(t) => t, None => Seq::<char>::empty() }),
        dynamic ==> r.device_secret@ == Seq::<char>::empty() && match text_member(*data, "deviceName"@) {
            Some(t) => r.device_name matches Some(n) && n@ == t,
            None => r.device_name is None,
        },
        !dynamic ==> r.device_name is None && r.device_secret@
            == (match text_member(*data, "deviceSecret"@) { Some(t) => t, None => Seq::<char>::empty() }),
{
    let product_secret = text_or_empty(data, "productSecret");
    if dynamic {
        RegisterRequest { device_secret: String::new(), product_secret, device_name: json_get_str(data, "deviceName") }
    } else {
        RegisterRequest { device_secret: text_or_empty(data, "deviceSecret"), product_secret, device_name: None }
    }
}

/// The answer to a configuration query: the stored version and content, or
/// version 0 and an empty object.
pub open spec fn config_query_spec(cfg: Option<DeviceConfig>, empty: serde_json::Value) -> Map<Seq<char>, serde_json::Value> {
    match cfg {
        Some(c) => map![
            "version"@ => json_i64_value(match c.version { Some(v) => v, None => 0 }),
            "config"@ => (match c.config_json { Some(j) => j, None => empty }),
        ],
        None => map![
            "version"@ => json_i64_value(0),
            "config"@ => empty,
        ],
    }
}

/// The answer to a configuration query.
pub fn config_query_payload(cfg: Option<DeviceConfig>) -> (v: serde_json::Value)
    ensures
        json_is_object(v),
        exists|empty: serde_json::Value| json_is_object(empty) && json_object_map(empty).dom() == Set::<Seq<char>>::empty()
            && json_object_map(v) == config_query_spec(cfg, empty),
{
    let empty = empty_json_object();
    let ghost e = empty;
    let (version, config) = match cfg {
        Some(c) => (
            match c.version { Some(v) => v, None => 0 },
            match c.config_json { Some(j) => j, None => empty },
        ),
        None => (0, empty),
    };
    let mut v = empty_json_object();
    json_object_insert(&mut v, owned("version"), json_i64(version));
    json_object_insert(&mut v, owned("config"), config);
    proof {
        reveal_strlit("version");
        reveal_strlit("config");
        assert(json_object_map(v) =~= config_query_spec(cfg, e));
    }
    v
}

/// The configuration content of an update message: its `config` member, or
/// an empty object.
pub fn config_update_data(payload: &serde_json::Value) -> (v: serde_json::Value)
    ensures
        match json_member(*payload, "config"@) {
            Some(c) => v == c,
            None => json_is_object(v) && json_object_map(v).dom() == Set::<Seq<char>>::empty(),
        },
{
    match json_get(payload, "config") {
        Some(c) => c,
        None => empty_json_object(),
    }
}

/// A version answer: `{"version": n}`, 0 when there is none.
pub fn version_payload(version: Option<i64>) -> (v: serde_json::Value)
    ensures
        json_is_object(v),
        json_object_map(v) == map!["version"@ => json_i64_value(match version { Some(n) => n, None => 0 })],
{
    let n: i64 = match version { Some(n) => n, None => 0 };
    let mut v = empty_json_object();
    json_object_insert(&mut v, owned("version"), json_i64(n));
    proof { reveal_strlit("version"); }
    assert(json_object_map(v) =~= map!["version"@ => json_i64_value(n)]);
    v
}

/// The answer to a discovery cache refresh: `{"refreshed": true, "count": n}`.
pub fn refresh_payload(count: usize) -> (v: serde_json::Value)
    ensures
        json_is_object(v),
        json_object_map(v) == map![
            "refreshed"@ => json_bool_value(true),
            "count"@ => json_u64_value(count as u64),
        ],
{
    let mut v = empty_json_object();
    json_object_insert(&mut v, owned("refreshed"), json_bool(true));
    json_object_insert(&mut v, owned("count"), json_u64(count as u64));
    proof {
        reveal_strlit("refreshed");
        reveal_strlit("count");
    }
    assert(json_object_map(v) =~= map![
        "refreshed"@ => json_bool_value(true),
        "count"@ => json_u64_value(count as u64),
    ]);
    v
}

} // verus!
