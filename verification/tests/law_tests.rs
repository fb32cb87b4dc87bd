use tslink::adapter::{extract_method_from_topic, extract_service_identifier};
use tslink::application::event_service::event_reply_topic;
use tslink::application::handlers::refresh_payload;
use tslink::application::link_service::resolve_target_device_id;
use tslink::application::thing_service::{property_set_topic, service_topic};
use tslink::channel::{default_topics, IpcPayload};
use tslink::client::{device_service_method, DefaultTslinkClient};
use tslink::domain::topic::TopicInfo;
use tslink::enums::QoS;
use tslink::error::TsLinkError;
use tslink::sdk_error::SdkError;

fn filter_matches(filter: &str, topic: &str) -> bool {
    let fs: Vec<&str> = filter.split('/').collect();
    let ts: Vec<&str> = topic.split('/').collect();
    fs.len() == ts.len() && fs.iter().zip(ts.iter()).all(|(f, t)| *f == "+" || f == t)
}

#[test]
fn device_service_call_routes_to_its_executor_key() {
    let c = DefaultTslinkClient::new(
        "e".to_string(), "pk".to_string(), "did".to_string(), "u".to_string(), "w".to_string(),
        QoS::AtMostOnce, QoS::AtMostOnce,
    );
    let topic = c.device_service_topic("snapshot", "pk2", "did2");
    let method = extract_method_from_topic(&topic);
    assert_eq!(method, device_service_method("snapshot"));
    assert_eq!(extract_service_identifier(&method), "snapshot");
}

#[test]
fn platform_commands_reach_device_subscriptions() {
    let subs = default_topics("pk", "did");
    assert_eq!(property_set_topic("pk", "did"), subs[0]);
    assert!(filter_matches(&subs[1], &service_topic("pk", "did", "reboot")));
    assert!(filter_matches(&subs[4], &event_reply_topic("pk", "did", "temp", "info")));
    assert!(filter_matches(&subs[5], &event_reply_topic("pk", "did", "temp", "warning")));
    assert!(filter_matches(&subs[6], &event_reply_topic("pk", "did", "temp", "error")));
}

#[test]
fn link_target_matches_topic_device_id() {
    let topic = TopicInfo {
        product_key: "pk".to_string(),
        device_id: "did".to_string(),
        link_suffix: Some("l2".to_string()),
        category: "thing".to_string(),
        sub_category: vec![],
        identifier: None,
        level: None,
        region: None,
    };
    assert_eq!(resolve_target_device_id("did", Some("l2")), topic.full_device_id());
}

#[test]
fn payload_round_trip_keeps_text() {
    let text = "温度=25℃ ✓";
    let payload = IpcPayload::from_str(text).unwrap();
    assert_eq!(payload.to_string().unwrap(), text);
}

#[test]
fn refresh_answer() {
    let v = refresh_payload(3);
    assert_eq!(v["refreshed"], true);
    assert_eq!(v["count"], 3);
}

#[test]
fn errors_from_outside_errors() {
    let json_err = serde_json::from_str::<serde_json::Value>("{").unwrap_err();
    let e: SdkError = json_err.into();
    assert!(e.message().starts_with("Serialization error: "));
    let json_err = serde_json::from_str::<serde_json::Value>("[").unwrap_err();
    let e: TsLinkError = json_err.into();
    assert!(e.message().starts_with("Serialization error: "));
}
