use tslink::adapter::{
    extract_method_from_topic, extract_service_identifier, extract_service_identifier_from_topic,
    get_reply_topic, build_service_reply, MessageAdapter, ReplyDelivery, ReplyHandler,
};
use tslink::channel::{
    check_payload_size, create_mqtt_options, default_topics, ipc_service_name, parse_endpoint,
    IpcChannelState, IpcConfig, IpcLoopAction, IpcLoopEvent, IpcLoopState, IpcPayload, MqttChannelState, MqttConfig, MultiChannel, SendStep,
    TransportPlan,
    DEFAULT_MAX_PAYLOAD_SIZE,
};
use tslink::client::{
    device_service_method, event_method, invoke_timeout_error, platform_method, wait_millis,
    DefaultTslinkClient, TslinkClientBuilder,
};
use tslink::discovery::{DeviceDiscovery, DeviceDiscoveryConfig, DeviceInfo};
use tslink::enums::{CommunicationChannel, EventType, QoS};
use tslink::sdk_error::SdkError;
use tslink::sdk_message::{CommonMessage, ReplyMessage};
use tslink::service::{
    DeviceServiceRequest, DeviceServiceResponse, PlatformServiceRequest, PlatformServiceResponse,
};

fn empty_object() -> serde_json::Value {
    serde_json::Value::Object(serde_json::Map::new())
}

fn json(text: &str) -> serde_json::Value {
    serde_json::from_str(text).unwrap()
}

// ---------------------------------------------------------------------------
// Behaviour of the public items
// ---------------------------------------------------------------------------

#[test]
fn test_service_executor_registration() {
    let mut adapter: MessageAdapter<&'static str, u8, u8, u8> = MessageAdapter::new();
    adapter.add_service_executor("service.test.post", "executor");
    assert!(adapter.has_service_executor("service.test.post"));
}

#[test]
fn test_unified_executor_fallback() {
    let mut adapter: MessageAdapter<&'static str, u8, u8, u8> = MessageAdapter::new();
    adapter.set_unified_executor("unified");
    let msg = CommonMessage::new("service.unknown.post", empty_object());
    let (executor, call) = adapter.handle_common_message("sys/pk/did/thing/service/unknown/post", &msg);
    assert_eq!(executor, Some(&"unified"));
    assert_eq!(call.method, "service.unknown.post");
    assert_eq!(call.request.service_identifier, "unknown");
}

#[test]
fn test_reply_handler_platform() {
    let mut adapter: MessageAdapter<&'static str, u8, u8, u8> = MessageAdapter::new();
    adapter.add_reply_handler("test-tid", ReplyHandler::Platform(7));
    let reply = ReplyMessage::success("test-tid", "test-bid");
    let delivery = adapter.handle_reply_message("sys/pk/did/platform/service/svc1/post_reply", &reply);
    match delivery {
        Some(ReplyDelivery::Platform(cb, resp)) => {
            assert_eq!(cb, 7);
            assert_eq!(resp.result, 0);
        }
        _ => panic!("reply not delivered to the platform handler"),
    }
}

#[test]
fn test_ipc_config_default() {
    let config = IpcConfig::default();
    assert_eq!(config.discovery_interval_secs, 5);
    assert_eq!(config.device_cache_expire_secs, 30);
    assert_eq!(config.service_prefix, "tslink");
}

#[test]
fn test_ipc_config_builder() {
    let config = IpcConfig::new("pk", "did")
        .with_discovery_interval(10)
        .with_cache_expire(60)
        .with_service_prefix("custom");
    assert_eq!(config.product_key, "pk");
    assert_eq!(config.device_id, "did");
    assert_eq!(config.discovery_interval_secs, 10);
    assert_eq!(config.device_cache_expire_secs, 60);
    assert_eq!(config.service_prefix, "custom");
}

#[test]
fn test_ipc_payload_from_str() {
    let payload = IpcPayload::from_str("hello").unwrap();
    assert_eq!(payload.data, b"hello");
}

#[test]
fn test_ipc_payload_to_string() {
    let payload = IpcPayload { data: b"world".to_vec() };
    let s = payload.to_string().unwrap();
    assert_eq!(s, "world");
}

#[test]
fn test_ipc_payload_large() {
    let large_msg = "x".repeat(1_000_000);
    let payload = IpcPayload::from_str(&large_msg).unwrap();
    assert_eq!(payload.data.len(), 1_000_000);
}

#[test]
fn test_communication_channel_includes() {
    assert!(CommunicationChannel::All.includes_mqtt());
    assert!(CommunicationChannel::All.includes_ipc());
    assert!(CommunicationChannel::Remote.includes_mqtt());
    assert!(!CommunicationChannel::Remote.includes_ipc());
    assert!(!CommunicationChannel::Ipc.includes_mqtt());
    assert!(CommunicationChannel::Ipc.includes_ipc());
}

#[test]
fn test_default_channel() {
    assert_eq!(CommunicationChannel::default(), CommunicationChannel::All);
}

#[test]
fn test_builder_missing_endpoint() {
    let result = TslinkClientBuilder::new()
        .product_key("pk")
        .device_id("did")
        .username("user")
        .password("pass")
        .build();
    assert!(result.is_err());
    assert!(result.unwrap_err().message().contains("endpoint"));
}

#[test]
fn test_builder_success() {
    let result = TslinkClientBuilder::new()
        .endpoint("mqtt://localhost:1883")
        .product_key("pk")
        .device_id("did")
        .username("user")
        .password("pass")
        .build();
    assert!(result.is_ok());
}

#[test]
fn test_device_info_new() {
    let info = DeviceInfo::new("pk1", "dev1");
    assert_eq!(info.product_key, "pk1");
    assert_eq!(info.device_id, "dev1");
    assert_eq!(info.key(), "pk1:dev1");
}

#[test]
fn test_device_discovery_config_default() {
    let config = DeviceDiscoveryConfig::default();
    assert_eq!(config.broadcast_interval_secs, 5);
    assert_eq!(config.device_timeout_secs, 15);
}

#[test]
fn test_device_discovery_handle_message() {
    let config = DeviceDiscoveryConfig {
        product_key: "test_pk".to_string(),
        device_id: "test_dev".to_string(),
        ..Default::default()
    };
    let mut discovery = DeviceDiscovery::new(config);
    let info = DeviceInfo::new("remote_pk", "remote_dev");
    discovery.handle_discovery_info(info, 1_000);
    let devices = discovery.get_devices();
    assert_eq!(devices.len(), 1);
    assert_eq!(devices[0].product_key, "remote_pk");
}

#[test]
fn test_common_message_new() {
    let msg = CommonMessage::new("event.property.post", json("{\"temp\": 25}"));
    assert_eq!(msg.method, "event.property.post");
    assert_eq!(msg.version, "1.0");
    assert!(!msg.tid.is_empty());
}

#[test]
fn test_common_message_builder() {
    let msg = CommonMessage::builder()
        .tid("test-tid")
        .method("test.method")
        .data(json("{\"key\": \"value\"}"))
        .build();
    assert_eq!(msg.tid, "test-tid");
    assert_eq!(msg.method, "test.method");
}

#[test]
fn test_reply_message_success() {
    let reply = ReplyMessage::success("tid-1", "bid-1");
    assert!(reply.is_success());
    assert_eq!(reply.code, 0);
}

#[test]
fn test_reply_message_error() {
    let reply = ReplyMessage::error("tid-1", "bid-1", 500, "Internal error");
    assert!(!reply.is_success());
    assert_eq!(reply.code, 500);
}

#[test]
fn test_platform_service_request_new() {
    let req = PlatformServiceRequest::new("test_service", b"hello".to_vec())
        .with_device("pk1", "did1")
        .with_channel(CommunicationChannel::Remote);
    assert_eq!(req.service_identifier, "test_service");
    assert_eq!(req.param_data, b"hello");
    assert_eq!(req.product_key, "pk1");
    assert_eq!(req.device_id, "did1");
    assert_eq!(req.channel, CommunicationChannel::Remote);
}

#[test]
fn test_device_service_request_new() {
    let req = DeviceServiceRequest::new("dev_svc", b"data".to_vec());
    assert_eq!(req.service_identifier, "dev_svc");
    assert_eq!(req.param_data, b"data");
    assert_eq!(req.service_timestamp_ms, 0);
}

#[test]
fn test_platform_service_response_success() {
    let resp = PlatformServiceResponse::success("svc1", b"ok".to_vec());
    assert_eq!(resp.result, 0);
    assert_eq!(resp.service_identifier, "svc1");
    assert_eq!(resp.param_data, b"ok");
}

#[test]
fn test_device_service_response_error() {
    let resp = DeviceServiceResponse::error("svc2", -1);
    assert_eq!(resp.result, -1);
    assert!(resp.param_data.is_empty());
}

// ---------------------------------------------------------------------------
// Further scenarios
// ---------------------------------------------------------------------------

#[test]
fn extracts_method_from_service_topic() {
    assert_eq!(extract_method_from_topic("sys/pk/did/thing/service/reboot/post"), "service.reboot.post");
    assert_eq!(extract_method_from_topic("sys/pk/did/thing/properties/set"), "thing.properties.set");
    assert_eq!(extract_method_from_topic("some/other/topic"), "some/other/topic");
}

#[test]
fn extracts_service_identifier() {
    assert_eq!(extract_service_identifier("service.reboot.post"), "reboot");
    assert_eq!(extract_service_identifier("platform.service.upload.post"), "upload");
    assert_eq!(extract_service_identifier("plain"), "plain");
    assert_eq!(extract_service_identifier_from_topic("sys/pk/did/platform/service/svc1/post_reply"), "svc1");
    assert_eq!(extract_service_identifier_from_topic("sys/pk"), "");
}

#[test]
fn reply_topic_of_request_topic() {
    assert_eq!(get_reply_topic("sys/pk/did/thing/service/x/post"), "sys/pk/did/thing/service/x/post_reply");
    assert_eq!(get_reply_topic("sys/pk/did/thing/properties/set"), "sys/pk/did/thing/properties/set/reply");
}

#[test]
fn service_reply_carries_status_and_data() {
    let ok = build_service_reply("t1", "b1", 0, b"done");
    assert_eq!(ok.message, "success");
    assert_eq!(ok.data, Some(serde_json::Value::String("done".to_string())));
    let bad = build_service_reply("t1", "b1", 3, b"");
    assert_eq!(bad.message, "error");
    assert_eq!(bad.code, 3);
}

#[test]
fn specific_executor_wins_over_unified() {
    let mut adapter: MessageAdapter<&'static str, u8, u8, u8> = MessageAdapter::new();
    adapter.set_unified_executor("unified");
    adapter.add_service_executor("service.reboot.post", "reboot");
    let msg = CommonMessage::builder().tid("t").bid("b").data(empty_object()).build();
    let (executor, call) = adapter.handle_common_message("sys/pk/did/thing/service/reboot/post", &msg);
    assert_eq!(executor, Some(&"reboot"));
    assert_eq!(call.reply_topic, "sys/pk/did/thing/service/reboot/post_reply");
    assert_eq!(call.tid, "t");
    assert_eq!(call.request.param_data, b"{}".to_vec());
}

#[test]
fn reply_handler_fires_once() {
    let mut adapter: MessageAdapter<&'static str, u8, u8, u8> = MessageAdapter::new();
    adapter.add_reply_handler("tid-9", ReplyHandler::Device(4));
    let reply = ReplyMessage::error("tid-9", "b", -2, "fail");
    assert!(adapter.handle_reply_message("sys/pk/did/thing/service/s/post_reply", &reply).is_some());
    assert!(adapter.handle_reply_message("sys/pk/did/thing/service/s/post_reply", &reply).is_none());
}

#[test]
fn default_topics_of_a_device() {
    let topics = default_topics("pk", "did");
    assert_eq!(topics.len(), 7);
    assert_eq!(topics[0], "sys/pk/did/thing/properties/set");
    assert_eq!(topics[3], "sys/pk/did/platform/service/+/post_reply");
    assert_eq!(topics[6], "sys/pk/did/thing/event/+/error_reply");
}

#[test]
fn endpoint_host_and_port() {
    assert_eq!(parse_endpoint("mqtt://broker:1884"), ("broker".to_string(), 1884));
    assert_eq!(parse_endpoint("broker"), ("broker".to_string(), 1883));
    assert_eq!(parse_endpoint("mqtt://broker:notaport"), ("broker".to_string(), 1883));
    assert_eq!(parse_endpoint("mqtt://broker:70000"), ("broker".to_string(), 1883));
}

#[test]
fn mqtt_options_from_config() {
    let config = MqttConfig {
        endpoint: "mqtt://host:2000".to_string(),
        device_id: "dev".to_string(),
        ..Default::default()
    };
    let options = create_mqtt_options(&config);
    assert_eq!(options.client_id(), "DEVICE:dev");
    assert_eq!(options.broker_address(), ("host".to_string(), 2000));
    assert_eq!(options.inflight(), 1000);
}

#[test]
fn mqtt_channel_state_machine() {
    let config = MqttConfig { product_key: "pk".to_string(), device_id: "d".to_string(), ..Default::default() };
    let mut state = MqttChannelState::new(&config);
    assert!(matches!(state.check_send(), Err(SdkError::NotStarted)));
    assert!(!state.add_topic("extra/topic"));
    let topics = state.start().unwrap();
    assert_eq!(topics.len(), 8);
    assert!(matches!(state.start(), Err(SdkError::AlreadyStarted)));
    assert!(state.add_topic("later/topic"));
    state.on_connected();
    assert!(state.is_connected());
    state.stop();
    assert!(!state.is_connected());
}

#[test]
fn multi_channel_plans() {
    let m = MultiChannel::new(true, true, CommunicationChannel::All);
    let p = m.send_plan(CommunicationChannel::Remote, true, true);
    assert!(p.via_mqtt && !p.via_ipc);
    let p = m.send_plan(CommunicationChannel::All, false, true);
    assert!(!p.via_mqtt && p.via_ipc);
    let s = m.subscribe_plan(CommunicationChannel::Ipc);
    assert!(!s.via_mqtt && s.via_ipc);
    assert!(!m.is_connected(false, false));
    assert!(m.is_connected(false, true));
}

#[test]
fn ipc_names_and_limits() {
    assert_eq!(ipc_service_name("tslink", "sys/a"), "tslink/sys/a");
    assert!(check_payload_size(10, 10).is_ok());
    match check_payload_size(11, 10) {
        Err(SdkError::Configuration(t)) => assert_eq!(t, "Message too large: 11 bytes (max: 10)"),
        _ => panic!("oversized payload accepted"),
    }
    assert_eq!(IpcConfig::default().max_payload_size, DEFAULT_MAX_PAYLOAD_SIZE);
    let mut st = IpcChannelState::new();
    assert!(st.check_running().is_err());
    assert!(st.start());
    assert!(!st.start());
    assert!(st.check_running().is_ok());
    assert!(st.stop());
}

#[test]
fn invalid_utf8_payload() {
    let payload = IpcPayload { data: vec![0xff, 0xfe] };
    match payload.to_string() {
        Err(SdkError::Internal(t)) => assert!(t.starts_with("Invalid UTF-8: ")),
        _ => panic!("invalid bytes decoded"),
    }
}

#[test]
fn builder_reports_first_missing_setting() {
    let e = TslinkClientBuilder::new().endpoint("e").build().unwrap_err();
    assert_eq!(e.message(), "Configuration error: product_key is required");
    let e = TslinkClientBuilder::new().endpoint("e").product_key("p").device_id("d").username("u").build().unwrap_err();
    assert_eq!(e.message(), "Configuration error: password is required");
    let c = TslinkClientBuilder::new()
        .endpoint("e")
        .product_key("p")
        .device_id("d")
        .username("u")
        .password("w")
        .publish_qos(QoS::ExactlyOnce)
        .build()
        .unwrap();
    assert_eq!(c.config.publish_qos, QoS::ExactlyOnce);
    assert_eq!(c.config.keep_alive_secs, 20);
}

#[test]
fn client_topics_and_methods() {
    let c = DefaultTslinkClient::new(
        "e".to_string(), "pk".to_string(), "did".to_string(), "u".to_string(), "w".to_string(),
        QoS::AtMostOnce, QoS::AtMostOnce,
    );
    assert_eq!(c.property_topic(), "sys/pk/did/thing/event/property/post");
    assert_eq!(c.event_topic("fire", EventType::Warning), "sys/pk/did/thing/event/fire/warning");
    assert_eq!(c.platform_service_topic("up", "p2", "d2"), "sys/p2/d2/platform/service/up/post");
    assert_eq!(c.device_service_topic("go", "p3", "d3"), "sys/p3/d3/thing/service/go/post");
    assert_eq!(event_method("fire", EventType::Error), "event.fire.error");
    assert_eq!(platform_method("up"), "platform.service.up.post");
    assert_eq!(device_service_method("go"), "service.go.post");
    let req = PlatformServiceRequest::new("up", b"{\"a\":1}".to_vec());
    let out = c.prepare_platform_invoke(&req);
    assert_eq!(out.topic, "sys/pk/did/platform/service/up/post");
    assert_eq!(out.message.method, "platform.service.up.post");
    assert_eq!(out.message.data, json("{\"a\":1}"));
    let bad = PlatformServiceRequest::new("up", b"not json".to_vec()).with_device("p9", "d9");
    let out = c.prepare_platform_invoke(&bad);
    assert_eq!(out.topic, "sys/p9/d9/platform/service/up/post");
    assert_eq!(out.message.data, serde_json::Value::Null);
}

#[test]
fn invoke_timeouts() {
    assert_eq!(wait_millis(-5), 0);
    assert_eq!(wait_millis(250), 250);
    assert_eq!(invoke_timeout_error(true, 3000).message(), "Operation timeout: platform service invoke timeout after 3000ms");
    assert_eq!(invoke_timeout_error(false, -1).message(), "Operation timeout: device service invoke timeout after -1ms");
}

#[test]
fn discovery_registry_expiry() {
    let mut d = DeviceDiscovery::new(DeviceDiscoveryConfig::default());
    assert!(d.handle_discovery_info(DeviceInfo::new("a", "1"), 0));
    assert!(!d.handle_discovery_info(DeviceInfo::new("a", "1"), 10_000));
    assert!(d.handle_discovery_info(DeviceInfo::new("b", "2"), 1_000));
    assert!(d.is_device_online("a", "1"));
    let removed = d.expire(16_500);
    assert_eq!(removed.len(), 1);
    assert_eq!(removed[0].0, "b:2");
    assert!(!d.is_device_online("b", "2"));
    assert!(d.get_device("a", "1").is_some());
    assert_eq!(d.expire(25_000).len(), 0);
    assert_eq!(d.expire(25_001).len(), 1);
}

#[test]
fn mqtt_channel_publishes_with_configured_qos() {
    let config = MqttConfig {
        product_key: "pk".to_string(),
        device_id: "d".to_string(),
        publish_qos: QoS::ExactlyOnce,
        subscribe_qos: QoS::AtLeastOnce,
        ..Default::default()
    };
    let mut state = MqttChannelState::new(&config);
    assert_eq!(state.subscribe_qos, QoS::AtLeastOnce);
    state.start().unwrap();
    assert!(matches!(state.check_send(), Ok(QoS::ExactlyOnce)));
}

#[test]
fn send_steps_stop_at_mqtt_error() {
    let both = TransportPlan { via_mqtt: true, via_ipc: true };
    assert!(matches!(both.first_send_step(), SendStep::Mqtt));
    let after = both.step_after_mqtt(Err(SdkError::AlreadyStarted));
    assert!(matches!(after, SendStep::Finished(Err(SdkError::AlreadyStarted))));
    assert!(matches!(both.step_after_mqtt(Ok(())), SendStep::Ipc));
    assert!(matches!(both.step_after_ipc(Err(SdkError::NotStarted)), SendStep::Finished(Err(SdkError::NotStarted))));
    let ipc_only = TransportPlan { via_mqtt: false, via_ipc: true };
    assert!(matches!(ipc_only.first_send_step(), SendStep::Ipc));
    let mqtt_only = TransportPlan { via_mqtt: true, via_ipc: false };
    assert!(matches!(mqtt_only.step_after_mqtt(Ok(())), SendStep::Finished(Ok(()))));
    let none = TransportPlan { via_mqtt: false, via_ipc: false };
    assert!(matches!(none.first_send_step(), SendStep::Finished(Ok(()))));
}

#[test]
fn builder_secret_supplies_credentials() {
    let client = TslinkClientBuilder::new()
        .endpoint("mqtt://localhost:1883")
        .product_key("pk")
        .device_id("did")
        .device_secret("sec")
        .build()
        .unwrap();
    assert_eq!(client.config.username, "did");
    assert_eq!(client.config.password, "sec");
    let client = TslinkClientBuilder::new()
        .endpoint("mqtt://localhost:1883")
        .product_key("pk")
        .device_id("did")
        .device_secret("sec")
        .username("user")
        .build()
        .unwrap();
    assert_eq!(client.config.username, "user");
    assert_eq!(client.config.password, "sec");
    let result = TslinkClientBuilder::new()
        .endpoint("mqtt://localhost:1883")
        .product_key("pk")
        .device_id("did")
        .username("user")
        .build();
    match result {
        Err(SdkError::Configuration(t)) => assert_eq!(t, "password is required"),
        _ => panic!("expected a configuration error"),
    }
}

#[test]
fn discovery_expiry_reports_each_device_once() {
    let mut d = DeviceDiscovery::new(DeviceDiscoveryConfig::default());
    assert!(d.handle_discovery_info(DeviceInfo::new("a", "1"), 0));
    assert!(d.handle_discovery_info(DeviceInfo::new("b", "2"), 0));
    assert!(!d.handle_discovery_info(DeviceInfo::new("b", "2"), 100));
    let removed = d.expire(60_000);
    assert_eq!(removed.len(), 2);
    assert_ne!(removed[0].0, removed[1].0);
    assert_eq!(d.expire(60_000).len(), 0);
    assert!(d.start());
    assert!(!d.start());
    assert!(d.stop());
    assert!(!d.stop());
}

#[test]
fn device_info_is_stamped_with_the_clock() {
    let before = DeviceInfo::current_time_ms();
    let info = DeviceInfo::new("pk1", "dev1");
    let after = DeviceInfo::current_time_ms();
    assert!(before <= info.last_seen_ms && info.last_seen_ms <= after);
    let resp = PlatformServiceResponse::error("svc", 3);
    assert!(resp.service_timestamp_ms > 0);
}

#[test]
fn ipc_loop_blocks_until_subscribed_and_caches_publishers() {
    let mut st = IpcLoopState::new();
    assert_eq!(st.step(IpcLoopEvent::Ready), IpcLoopAction::WaitCommand);
    assert_eq!(st.step(IpcLoopEvent::Publish("svc/a".to_string())), IpcLoopAction::CreatePublisher);
    assert_eq!(st.step(IpcLoopEvent::PublisherCreated("svc/a".to_string())), IpcLoopAction::WaitCommand);
    assert_eq!(st.step(IpcLoopEvent::Publish("svc/a".to_string())), IpcLoopAction::PublishCached);
    assert_eq!(st.step(IpcLoopEvent::Published), IpcLoopAction::WaitCommand);
    assert_eq!(st.step(IpcLoopEvent::Subscribe), IpcLoopAction::CreateSubscriber);
    assert_eq!(st.step(IpcLoopEvent::Subscribed(false)), IpcLoopAction::WaitCommand);
    assert_eq!(st.step(IpcLoopEvent::Subscribe), IpcLoopAction::CreateSubscriber);
    assert_eq!(st.step(IpcLoopEvent::Subscribed(true)), IpcLoopAction::PollCommand);
    assert_eq!(st.step(IpcLoopEvent::NoCommand), IpcLoopAction::ReceiveAll);
    assert_eq!(st.step(IpcLoopEvent::Received { got_any: false, connected: true }), IpcLoopAction::Sleep);
    assert_eq!(st.step(IpcLoopEvent::Ready), IpcLoopAction::PollCommand);
    assert_eq!(st.step(IpcLoopEvent::Received { got_any: true, connected: true }), IpcLoopAction::PollCommand);
    assert_eq!(st.step(IpcLoopEvent::Received { got_any: true, connected: false }), IpcLoopAction::DrainAndExit);
    assert_eq!(st.step(IpcLoopEvent::Stop), IpcLoopAction::Exit);
    assert_eq!(st.step(IpcLoopEvent::Closed), IpcLoopAction::Exit);
}
