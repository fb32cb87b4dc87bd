//! Parsed topic information and the message classifications topics map to.

pub mod topic_const;

use vstd::prelude::*;
use crate::text::{concat3, equal_str};

verus! {

/// Parsed topic information, as extracted from topic strings like
/// `sys/{pk}/{did}/thing/event/property/post` or
/// `region/{region}/sys/{pk}/{did}/thing/service/{method}/post_reply`.
#[derive(Debug, Clone)]
pub struct TopicInfo {
    /// Product key extracted from topic
    pub product_key: String,
    /// Device ID extracted from topic (without link suffix)
    pub device_id: String,
    /// Link suffix for multi-link devices (e.g., "link1" from "did001_link1")
    pub link_suffix: Option<String>,
    /// First-level category: "thing", "platform", or "app"
    pub category: String,
    /// Sub-category path segments (e.g., ["event", "property"])
    pub sub_category: Vec<String>,
    /// Terminal identifier (e.g., "post", "post_reply", "set", "request")
    pub identifier: Option<String>,
    /// Event level for event topics (info, warning, error)
    pub level: Option<String>,
    /// Region prefix if present
    pub region: Option<String>,
}

/// First-level message type classification.
#[derive(Debug, Clone, Copy, PartialEq, Eq, Hash, Structural)]
pub enum MessageType {
    /// Device thing messages: `sys/{pk}/{did}/thing/...`
    Thing,
    /// Platform messages: `sys/{pk}/{did}/platform/...`
    Platform,
    /// App messages: `sys/{pk}/{did}/app/...`
    App,
}

/// Thing message sub-types (second-level routing).
#[derive(Debug, Clone, Copy, PartialEq, Eq, Hash, Structural)]
pub enum ThingMessageType {
    /// Property report: `thing/event/property/post`
    EventProperty,
    /// Custom event: `thing/event/{id}/{info|warning|error}`
    EventCustom,
    /// Property state: `thing/properties/state`
    PropertyState,
    /// Service call reply: `thing/service/{id}/post_reply`
    ServiceReply,
    /// Property set reply: `thing/properties/set_reply`
    PropertySetReply,
    /// Device registration: `thing/register/post`
    Register,
    /// Dynamic registration: `thing/dynamic_register/post`
    DynamicRegister,
    /// Heartbeat reply: `thing/pong/post`
    Pong,
    /// NTP time sync: `thing/ntp/post`
    Ntp,
    /// Topology update: `thing/update_topo/...`
    UpdateTopo,
    /// Thing model request: `thing/device/model/request`
    DeviceModel,
    /// Device request: `thing/device/...`
    DeviceRequest,
    /// Configuration report: `thing/config/...`
    Config,
    /// Device discovery: `thing/discovery/...`
    Discovery,
}

/// Platform message sub-types.
#[derive(Debug, Clone, Copy, PartialEq, Eq, Hash, Structural)]
pub enum PlatformMessageType {
    /// Multi-link state: `platform/multilink/state`
    MultiLinkState,
    /// Generic platform service: `platform/service/{method}/post`
    ServicePost,
}

/// App message sub-types.
#[derive(Debug, Clone, Copy, PartialEq, Eq, Hash, Structural)]
pub enum AppMessageType {
    /// App thing model request: `app/device/model/request`
    DeviceModelRequest,
    /// App device discovery: `app/device/discovery/request`
    DeviceDiscoveryRequest,
    /// App service request: `app/device/service/post`
    DeviceServiceRequest,
}

/// The message type of a topic category.
pub open spec fn message_type_of(category: Seq<char>) -> Option<MessageType> {
    if category == "thing"@ {
        Some(MessageType::Thing)
    } else if category == "platform"@ {
        Some(MessageType::Platform)
    } else if category == "app"@ {
        Some(MessageType::App)
    } else {
        None
    }
}

/// Each message type stands for exactly one category word: `thing` for
/// `Thing`, `platform` for `Platform`, `app` for `App`; every other category
/// has no message type.
pub proof fn law_message_type_names_category(category: Seq<char>)
    ensures
        message_type_of(category) == Some(MessageType::Thing) <==> category == "thing"@,
        message_type_of(category) == Some(MessageType::Platform) <==> category == "platform"@,
        message_type_of(category) == Some(MessageType::App) <==> category == "app"@,
        message_type_of(category) is None <==> (category != "thing"@ && category != "platform"@ && category != "app"@),
{
    reveal_strlit("thing");
    reveal_strlit("platform");
    reveal_strlit("app");
    assert("thing"@.len() != "platform"@.len());
    assert("thing"@.len() != "app"@.len());
    assert("platform"@.len() != "app"@.len());
}

/// The device id with its link suffix: `{did}_{suffix}`, or the bare id.
pub open spec fn full_device_id_spec(did: Seq<char>, suffix: Option<String>) -> Seq<char> {
    match suffix {
        Some(s) => did + "_"@ + s@,
        None => did,
    }
}

impl TopicInfo {
    /// The device ID without link suffix.
    pub fn raw_device_id(&self) -> (d: &str)
        ensures
            d@ == self.device_id@,
    {
        self.device_id.as_str()
    }

    /// The device ID including the link suffix if present.
    pub fn full_device_id(&self) -> (d: String)
        ensures
            d@ == full_device_id_spec(self.device_id@, self.link_suffix),
    {
        match &self.link_suffix {
            Some(suffix) => concat3(self.device_id.as_str(), "_", suffix.as_str()),
            None => self.device_id.clone(),
        }
    }

    /// The first-level message type of the category.
    pub fn message_type(&self) -> (t: Option<MessageType>)
        ensures
            t == message_type_of(self.category@),
    {
        if equal_str(self.category.as_str(), "thing") {
            Some(MessageType::Thing)
        } else if equal_str(self.category.as_str(), "platform") {
            Some(MessageType::Platform)
        } else if equal_str(self.category.as_str(), "app") {
            Some(MessageType::App)
        } else {
            None
        }
    }
}

} // verus!
