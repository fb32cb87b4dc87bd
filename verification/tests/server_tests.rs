use tslink::application::config_service::config_record;
use tslink::application::device_service::{
    device_secret_from_uuid, generate_device_secret, product_secret_matches, register_method,
    register_response, static_register_refusal,
};
use tslink::application::discovery_service::{sub_devices, DiscoveryCache, DiscoveryDevice};
use tslink::application::event_bus::DeviceEvent;
use tslink::application::event_service::{event_ack, event_payload, event_reply_topic, kafka_key};
use tslink::application::function_param_service::param_not_found_error;
use tslink::application::handlers::{
    config_query_payload, config_update_data, event_handler_types, event_target, is_dynamic_register,
    register_reply_topic, register_request, service_reply_handler_types, version_payload,
};
use tslink::application::link_service::{
    check_link, resolve_target_device_id, select_link, select_link_with_best, LinkStep,
    WEIGHT_INCREMENT,
};
use tslink::application::ntp_service::{ntp_data, ntp_response};
use tslink::application::product_service::page_window;
use tslink::application::shadow_service::replay_commands;
use tslink::application::thing_service::{
    property_set_topic, service_invocation, service_topic, DEFAULT_SYNC_TIMEOUT_SECS,
};
use tslink::domain::device::{Device, DeviceStatus};
use tslink::domain::device_config::DeviceConfig;
use tslink::domain::device_type::DeviceType;
use tslink::domain::event::DomainEvent;
use tslink::domain::function_param::FunctionParam;
use tslink::domain::message::{CommonTopicReceiver, CommonTopicResponse};
use tslink::domain::product::Product;
use tslink::domain::product_function::ProductFunction;
use tslink::domain::shadow::{DeviceShadow, ShadowServiceConfig};
use tslink::domain::thing_model::{CallType, DeviceModel, FunctionMethod};
use tslink::domain::topic::{MessageType, ThingMessageType, TopicInfo};
use tslink::error::TsLinkError;
use tslink::settings::{default_http_port, default_keep_alive, default_key_prefix, default_pool_size};
use tslink::table::KeyedTable;
use std::time::Duration;

fn json(text: &str) -> serde_json::Value {
    serde_json::from_str(text).unwrap()
}

fn receiver(tid: Option<&str>, timestamp: Option<i64>) -> CommonTopicReceiver<serde_json::Value> {
    CommonTopicReceiver {
        tid: tid.map(|s| s.to_string()),
        bid: Some("bid-001".to_string()),
        version: "1.0".to_string(),
        timestamp,
        method: Some("test.method".to_string()),
        product_key: Some("pk001".to_string()),
        device_id: Some("did001".to_string()),
        data: json("{}"),
        code: None,
        message: None,
    }
}

fn topic(sub: &[&str], level: Option<&str>) -> TopicInfo {
    TopicInfo {
        product_key: "pk001".to_string(),
        device_id: "did001".to_string(),
        link_suffix: None,
        category: "thing".to_string(),
        sub_category: sub.iter().map(|s| s.to_string()).collect(),
        identifier: None,
        level: level.map(|s| s.to_string()),
        region: None,
    }
}

// ---------------------------------------------------------------------------
// Behaviour of the public items
// ---------------------------------------------------------------------------

#[test]
fn test_event_reply_topic_format() {
    let topic = event_reply_topic("pk001", "did001", "temperature", "info");
    assert_eq!(topic, "sys/pk001/did001/thing/event/temperature/info_reply");
}

#[test]
fn test_kafka_key_format() {
    let key = kafka_key("pk001", "did001");
    assert_eq!(key, "pk001_did001");
}

#[test]
fn test_event_payload_serialization() {
    let mut r = receiver(None, Some(1700000000000_i64));
    r.data = json("{\"temperature\": 25.5}");
    let payload = event_payload("pk001", "did001", "temperature", "info", &r);
    let bytes = serde_json::to_vec(&payload).unwrap();
    assert!(!bytes.is_empty());
}

#[test]
fn test_event_handler_types() {
    assert_eq!(event_handler_types(), vec![ThingMessageType::EventCustom]);
}

#[test]
fn test_service_reply_handler_types() {
    assert_eq!(service_reply_handler_types(), vec![ThingMessageType::ServiceReply]);
}

#[test]
fn test_target_device_id_with_suffix() {
    let result = resolve_target_device_id("did001", Some("link1"));
    assert_eq!(result, "did001_link1");
}

#[test]
fn test_weight_increment_constant() {
    assert_eq!(WEIGHT_INCREMENT as f64, 1.0);
}

#[test]
fn test_ntp_response_format() {
    let now = 1700000000123_i64;
    let data = ntp_data(now, 1234567890000_i64);
    assert!(data["serverSendTime"].is_number());
    assert_eq!(data["deviceSendTime"], 1234567890000_i64);
}

#[test]
fn test_service_topic_format() {
    let topic = service_topic("pk001", "did001", "reboot");
    assert_eq!(topic, "sys/pk001/did001/thing/service/reboot/post");
}

#[test]
fn test_property_set_topic_format() {
    let topic = property_set_topic("pk001", "did001");
    assert_eq!(topic, "sys/pk001/did001/thing/properties/set");
}

#[test]
fn test_sync_timeout_default() {
    assert_eq!(Duration::from_secs(DEFAULT_SYNC_TIMEOUT_SECS), Duration::from_secs(10));
}

#[test]
fn test_default_values() {
    assert_eq!(default_keep_alive(), 30);
    assert_eq!(default_http_port(), 8080);
    assert_eq!(default_pool_size(), 8);
    assert_eq!(default_key_prefix(), "tslink:");
}

#[test]
fn test_device_new() {
    let device = Device::new("pk001".to_string(), "did001".to_string());
    assert_eq!(device.product_key, "pk001");
    assert_eq!(device.device_id, "did001");
    assert_eq!(device.device_status, DeviceStatus::NotActive);
    assert!(!device.is_online());
}

#[test]
fn test_device_status_display() {
    assert_eq!(DeviceStatus::Online.as_str(), "ONLINE");
    assert_eq!(DeviceStatus::Offline.as_str(), "OFFLINE");
    assert_eq!(DeviceStatus::NotActive.as_str(), "NOT_ACTIVE");
}

#[test]
fn test_device_config_new() {
    let config = DeviceConfig::new("pk001".to_string(), "did001".to_string());
    assert_eq!(config.product_key, "pk001");
    assert_eq!(config.device_id, "did001");
    assert_eq!(config.version, Some(1));
}

#[test]
fn test_device_type_new() {
    let device_type = DeviceType::new("CAMERA".to_string(), "摄像头".to_string());
    assert_eq!(device_type.code, "CAMERA");
    assert_eq!(device_type.name, "摄像头");
}

#[test]
fn test_domain_event_accessors() {
    let event = DomainEvent::DeviceOnline {
        product_key: "pk001".to_string(),
        device_id: "did001".to_string(),
    };
    assert_eq!(event.product_key(), "pk001");
    assert_eq!(event.device_id(), "did001");
    assert_eq!(event.event_type(), "device_online");
}

#[test]
fn test_function_param_new() {
    let param = FunctionParam::new(
        1,
        2,
        "temperature".to_string(),
        "temp".to_string(),
        "output".to_string(),
        "float".to_string(),
    );
    assert_eq!(param.product_id, 1);
    assert_eq!(param.function_id, 2);
    assert_eq!(param.param_name, "temperature");
    assert_eq!(param.param_identifier, "temp");
    assert_eq!(param.param_type, "output");
    assert_eq!(param.data_type, "float");
    assert_eq!(param.required, 0);
}

#[test]
fn test_function_param_with_specs() {
    let param = FunctionParam::new(
        1,
        2,
        "level".to_string(),
        "level".to_string(),
        "input".to_string(),
        "int".to_string(),
    )
    .with_specs(r#"{"min":0,"max":100}"#.to_string())
    .with_required(true);
    assert_eq!(param.specs.as_deref(), Some(r#"{"min":0,"max":100}"#));
    assert_eq!(param.required, 1);
}

#[test]
fn test_response_reply() {
    let receiver = CommonTopicReceiver::<serde_json::Value> {
        tid: Some("tid-001".into()),
        bid: Some("bid-001".into()),
        version: "1.0".into(),
        timestamp: Some(1700000000000),
        method: Some("test.method".into()),
        product_key: Some("pk001".into()),
        device_id: Some("did001".into()),
        data: json("{}"),
        code: None,
        message: None,
    };
    let response = CommonTopicResponse::reply(&receiver, json("{\"ok\": true}"));
    assert_eq!(response.tid.as_deref(), Some("tid-001"));
    assert_eq!(response.code.as_deref(), Some("200"));
    assert!(response.timestamp.is_some());
}

#[test]
fn test_product_new() {
    let product = Product::new("pk001".to_string());
    assert_eq!(product.product_key, "pk001");
    assert!(product.product_secret.is_none());
}

#[test]
fn test_product_function_new() {
    let func = ProductFunction::new("reboot".to_string(), "thing.service.reboot".to_string());
    assert_eq!(func.identifier, "reboot");
    assert_eq!(func.method, "thing.service.reboot");
}

#[test]
fn test_shadow_new() {
    let shadow = DeviceShadow::new("pk001".to_string(), "did001".to_string());
    assert_eq!(shadow.product_key, "pk001");
    assert_eq!(shadow.properties, json("{}"));
}

#[test]
fn test_shadow_merge_properties() {
    let mut shadow = DeviceShadow::new("pk001".to_string(), "did001".to_string());
    shadow.merge_properties(&json("{\"temperature\": 25.5}"));
    assert_eq!(shadow.properties["temperature"], 25.5);
    shadow.merge_properties(&json("{\"humidity\": 60, \"temperature\": 26.0}"));
    assert_eq!(shadow.properties["temperature"], 26.0);
    assert_eq!(shadow.properties["humidity"], 60);
}

#[test]
fn test_device_model_get_service() {
    let mut services = KeyedTable::new();
    services.insert(
        "reboot".to_string(),
        FunctionMethod {
            identifier: "reboot".to_string(),
            method: "reboot".to_string(),
            name: Some("重启设备".to_string()),
            call_type: Some(CallType::Sync),
            desc: None,
            input_fields: vec![],
            output_fields: vec![],
            expands: None,
        },
    );
    let model = DeviceModel {
        name: Some("TestDevice".to_string()),
        product_key: "pk001".to_string(),
        device_id: None,
        product_version: Some("1.0".to_string()),
        product_type: None,
        properties: vec![],
        services,
        events: KeyedTable::new(),
        configs: vec![],
    };
    assert!(model.get_service("reboot").is_some());
    assert!(model.get_service("nonexistent").is_none());
    assert!(model.is_sync_service("reboot"));
}

#[test]
fn test_topic_info_message_type() {
    let topic = TopicInfo {
        product_key: "pk001".to_string(),
        device_id: "did001".to_string(),
        link_suffix: None,
        category: "thing".to_string(),
        sub_category: vec!["event".to_string(), "property".to_string()],
        identifier: Some("post".to_string()),
        level: None,
        region: None,
    };
    assert_eq!(topic.message_type(), Some(MessageType::Thing));
}

#[test]
fn test_topic_info_with_link_suffix() {
    let topic = TopicInfo {
        product_key: "pk001".to_string(),
        device_id: "did001".to_string(),
        link_suffix: Some("link1".to_string()),
        category: "thing".to_string(),
        sub_category: vec![],
        identifier: None,
        level: None,
        region: None,
    };
    assert_eq!(topic.raw_device_id(), "did001");
    assert_eq!(topic.full_device_id(), "did001_link1");
}

#[test]
fn test_thing_message_type_eq() {
    assert_eq!(ThingMessageType::EventProperty, ThingMessageType::EventProperty);
    assert_ne!(ThingMessageType::EventProperty, ThingMessageType::Pong);
}

#[test]
fn test_error_display() {
    let err = TsLinkError::TopicParse { message: "invalid format".to_string() };
    assert_eq!(err.message(), "Topic parse error: invalid format");
}

#[test]
fn test_device_not_found_display() {
    let err = TsLinkError::DeviceNotFound {
        product_key: "pk001".to_string(),
        device_id: "did001".to_string(),
    };
    assert!(err.message().contains("pk001"));
    assert!(err.message().contains("did001"));
}

#[test]
fn test_timeout_display() {
    let err = TsLinkError::Timeout { operation: "mqtt_publish".to_string(), duration_ms: 5000 };
    assert!(err.message().contains("5000ms"));
    assert!(err.message().contains("mqtt_publish"));
}

// ---------------------------------------------------------------------------
// Further scenarios
// ---------------------------------------------------------------------------

#[test]
fn device_secret_is_sixteen_hex_characters() {
    let s = device_secret_from_uuid("123e4567-e89b-12d3-a456-426614174000");
    assert_eq!(s, "123e4567e89b12d3");
    let g = generate_device_secret();
    assert_eq!(g.len(), 16);
    assert!(g.chars().all(|c| c.is_ascii_hexdigit()));
}

#[test]
fn registration_decisions() {
    assert!(product_secret_matches(Some("s3"), "s3"));
    assert!(!product_secret_matches(Some("s3"), "s4"));
    assert!(!product_secret_matches(None, ""));
    assert_eq!(static_register_refusal(false, false), Some("invalid product secret"));
    assert_eq!(static_register_refusal(true, false), Some("invalid device secret"));
    assert_eq!(static_register_refusal(true, true), None);
    let refused = register_response(register_method(false), "pk", "did", Some("invalid device secret"));
    assert_eq!(refused.code.as_deref(), Some("1"));
    assert_eq!(refused.message.as_deref(), Some("invalid device secret"));
    assert_eq!(refused.method.as_deref(), Some("thing.register"));
    assert_eq!(refused.data, serde_json::Value::Null);
    let ok = register_response(register_method(true), "pk", "did", None);
    assert_eq!(ok.code.as_deref(), Some("200"));
    assert_eq!(ok.message.as_deref(), Some("success"));
    assert_eq!(ok.method.as_deref(), Some("thing.dynamic_register"));
    assert!(ok.data.is_null());
    assert!(ok.timestamp.unwrap() > 0);
}

#[test]
fn register_handler_reads_message() {
    let t = topic(&["dynamic_register"], None);
    assert!(is_dynamic_register(&t));
    assert!(!is_dynamic_register(&topic(&["register"], None)));
    assert_eq!(register_reply_topic("pk", "did", true), "sys/pk/did/thing/dynamic_register/post_reply");
    assert_eq!(register_reply_topic("pk", "did", false), "sys/pk/did/thing/register/post_reply");
    let data = json("{\"deviceName\": \"cam\", \"productSecret\": \"ps\", \"deviceSecret\": 5}");
    let dynamic = register_request(&data, true);
    assert_eq!(dynamic.device_name.as_deref(), Some("cam"));
    assert_eq!(dynamic.product_secret, "ps");
    let stat = register_request(&data, false);
    assert_eq!(stat.device_secret, "");
}

#[test]
fn event_handler_target() {
    let t = topic(&["event", "fire_alarm"], Some("warning"));
    assert_eq!(event_target(&t), Some(("fire_alarm".to_string(), "warning".to_string())));
    let t = topic(&["event", "overheat"], None);
    assert_eq!(event_target(&t), Some(("overheat".to_string(), "info".to_string())));
    assert_eq!(event_target(&topic(&["event"], None)), None);
}

#[test]
fn event_forwarding_payload() {
    let r = receiver(Some("t-1"), None);
    let payload = event_payload("pk001", "did001", "fire", "error", &r);
    assert_eq!(payload["productKey"], "pk001");
    assert_eq!(payload["deviceId"], "did001");
    assert_eq!(payload["identifier"], "fire");
    assert_eq!(payload["level"], "error");
    assert_eq!(payload["tid"], "t-1");
    assert_eq!(payload["method"], "test.method");
    assert_eq!(payload["timestamp"], serde_json::Value::Null);
    let ack = event_ack(&r);
    assert_eq!(ack.tid.as_deref(), Some("t-1"));
    assert_eq!(ack.data, json("{}"));
}

#[test]
fn ntp_reply_echoes_request() {
    let r = receiver(Some("t-2"), None);
    let resp = ntp_response("pk", "did", &r, 42);
    assert_eq!(resp.tid.as_deref(), Some("t-2"));
    assert_eq!(resp.timestamp, Some(42));
    assert_eq!(resp.method.as_deref(), Some("thing.ntp"));
    assert_eq!(resp.data["serverSendTime"], 42);
    assert_eq!(resp.data["deviceSendTime"], 0);
}

#[test]
fn multi_link_selection() {
    assert_eq!(check_link(Some("")), None);
    assert_eq!(check_link(None), None);
    assert_eq!(check_link(Some("l2")), Some("l2".to_string()));
    let used: Result<Option<String>, String> = Ok(Some("m".to_string()));
    assert!(matches!(select_link(used), LinkStep::Done(Ok(Some(ref m))) if m == "m"));
    let none: Result<Option<String>, String> = Ok(None);
    assert!(matches!(select_link(none), LinkStep::LookUpBest));
    let failed: Result<Option<String>, String> = Err("redis down".to_string());
    assert!(matches!(select_link(failed), LinkStep::Done(Err(ref e)) if e == "redis down"));
    let best: Result<Option<String>, String> = Ok(Some("b".to_string()));
    assert_eq!(select_link_with_best(best), Ok(Some("b".to_string())));
    let single: Result<Option<String>, String> = Ok(None);
    assert_eq!(select_link_with_best(single), Ok(None));
    let failed: Result<Option<String>, String> = Err("timeout".to_string());
    assert_eq!(select_link_with_best(failed), Err("timeout".to_string()));
    assert_eq!(resolve_target_device_id("did", None), "did");
}

#[test]
fn service_invocation_command() {
    let c = service_invocation("pk", "did", "did_l1", "reboot", json("{\"x\":1}"));
    assert_eq!(c.topic, "sys/pk/did_l1/thing/service/reboot/post");
    assert_eq!(c.response.method.as_deref(), Some("reboot"));
    assert_eq!(c.response.device_id.as_deref(), Some("did"));
    assert_eq!(c.response.code.as_deref(), Some("200"));
    assert_eq!(c.response.tid.as_ref().map(|t| t.len()), Some(36));
}

#[test]
fn shadow_replay() {
    let services = vec![
        ShadowServiceConfig { product_key: "pk".to_string(), method: "set_brightness".to_string() },
        ShadowServiceConfig { product_key: "pk".to_string(), method: "set_mode".to_string() },
    ];
    let commands = replay_commands("pk", "did", &services);
    assert_eq!(commands.len(), 2);
    assert_eq!(commands[1].topic, "sys/pk/did/thing/service/set_mode/post");
    assert_eq!(commands[0].response.method.as_deref(), Some("thing.service.set_brightness"));
    assert_eq!(commands[0].response.data, json("{}"));
}

#[test]
fn shadow_merge_ignores_non_objects() {
    let mut shadow = DeviceShadow::new("pk".to_string(), "did".to_string());
    shadow.merge_properties(&json("[1, 2]"));
    assert_eq!(shadow.properties, json("{}"));
}

#[test]
fn gateway_sub_devices() {
    let mk = |id: &str, parent: Option<&str>| DiscoveryDevice {
        product_key: "pk".to_string(),
        device_id: id.to_string(),
        device_name: None,
        status: "ONLINE".to_string(),
        parent_id: parent.map(|p| p.to_string()),
    };
    let all = vec![mk("a", Some("gw")), mk("b", None), mk("c", Some("gw")), mk("d", Some("other"))];
    let subs = sub_devices(&all, "gw");
    let ids: Vec<&str> = subs.iter().map(|d| d.device_id.as_str()).collect();
    assert_eq!(ids, vec!["a", "c"]);
    let mut dev = Device::new("pk".to_string(), "x".to_string());
    dev.device_status = DeviceStatus::Fault;
    assert_eq!(DiscoveryDevice::from_device(&dev).status, "FAULT");
}

#[test]
fn paging_and_config_payloads() {
    assert_eq!(page_window(0, 0), (1, 0));
    assert_eq!(page_window(3, 500), (200, 400));
    assert_eq!(page_window(2, 10), (10, 10));
    assert_eq!(config_query_payload(None), json("{\"version\": 0, \"config\": {}}"));
    let mut cfg = DeviceConfig::new("pk".to_string(), "did".to_string());
    cfg.config_json = Some(json("{\"a\": 1}"));
    assert_eq!(config_query_payload(Some(cfg.clone())), json("{\"version\": 1, \"config\": {\"a\": 1}}"));
    assert_eq!(config_update_data(&json("{\"config\": {\"b\": 2}}")), json("{\"b\": 2}"));
    assert_eq!(config_update_data(&json("{\"other\": 1}")), json("{}"));
    assert_eq!(version_payload(Some(7)), json("{\"version\": 7}"));
    let rec = config_record(Some(&cfg), "pk", "did", json("{\"c\": 3}"));
    assert_eq!(rec.version, Some(1));
    assert_eq!(rec.config_json, Some(json("{\"c\": 3}")));
}

#[test]
fn device_events_and_errors() {
    let e = DeviceEvent::online("pk001", "did001");
    assert_eq!(e.product_key(), "pk001");
    assert_eq!(e.device_id(), "did001");
    assert_eq!(param_not_found_error(-4).message(), "Internal error: Function param with id '-4' not found");
}

#[test]
fn discovery_cache_freshness() {
    let dev = DiscoveryDevice {
        product_key: "pk".to_string(),
        device_id: "d1".to_string(),
        device_name: None,
        status: "ONLINE".to_string(),
        parent_id: None,
    };
    let mut cache = DiscoveryCache::new(0).with_cache_ttl(1_000);
    assert!(cache.cached("pk", 10).is_none());
    cache.store("pk", vec![dev], 100);
    let hit = cache.cached("pk", 1_099).unwrap();
    assert_eq!(hit.len(), 1);
    assert_eq!(hit[0].device_id, "d1");
    assert!(cache.cached("pk", 1_100).is_none());
    assert_eq!(cache.product_keys(), vec!["pk".to_string()]);
}

#[test]
fn server_stamps_come_from_the_clock() {
    let mut shadow = DeviceShadow::new("pk".to_string(), "did".to_string());
    let first = shadow.updated_at;
    assert!(first > 0);
    shadow.merge_properties(&json("{\"t\": 1}"));
    assert!(shadow.updated_at >= first);
    match DeviceEvent::online("pk", "did") {
        DeviceEvent::Online { timestamp, .. } => assert!(timestamp >= first),
        _ => panic!("expected an online event"),
    }
}
