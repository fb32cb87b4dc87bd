//! Error type of the device SDK (`SdkError`).

use vstd::prelude::*;
use crate::text::{concat2, has_prefix, owned};

verus! {

/// SDK error types.
#[derive(Debug)]
pub enum SdkError {
    /// MQTT connection error
    MqttConnection(String),
    /// MQTT publish error
    MqttPublish(String),
    /// MQTT subscribe error
    MqttSubscribe(String),
    /// Serialization error
    Serialization(serde_json::Error),
    /// Configuration error
    Configuration(String),
    /// Channel error
    Channel(String),
    /// Timeout error
    Timeout(String),
    /// Callback not found
    CallbackNotFound(String),
    /// Client not started
    NotStarted,
    /// Client already started
    AlreadyStarted,
    /// Internal error
    Internal(String),
}

/// The text of an error; for a serialisation error only its leading words
/// are fixed here, the rest is the JSON error's own text.
pub open spec fn sdk_error_text(e: &SdkError) -> Seq<char> {
    match e {
        SdkError::MqttConnection(s) => "MQTT connection error: "@ + s@,
        SdkError::MqttPublish(s) => "MQTT publish error: "@ + s@,
        SdkError::MqttSubscribe(s) => "MQTT subscribe error: "@ + s@,
        SdkError::Serialization(_) => "Serialization error: "@,
        SdkError::Configuration(s) => "Configuration error: "@ + s@,
        SdkError::Channel(s) => "Channel error: "@ + s@,
        SdkError::Timeout(s) => "Operation timeout: "@ + s@,
        SdkError::CallbackNotFound(s) => "Callback not found for: "@ + s@,
        SdkError::NotStarted => "Client not started"@,
        SdkError::AlreadyStarted => "Client already started"@,
        SdkError::Internal(s) => "Internal error: "@ + s@,
    }
}

impl SdkError {
    /// The human-readable text of the error.
    pub fn message(&self) -> (m: String)
        ensures
            self is Serialization ==> has_prefix(m@, sdk_error_text(self)),
            !(self is Serialization) ==> m@ == sdk_error_text(self),
    {
        match self {
            SdkError::MqttConnection(s) => concat2("MQTT connection error: ", s.as_str()),
            SdkError::MqttPublish(s) => concat2("MQTT publish error: ", s.as_str()),
            SdkError::MqttSubscribe(s) => concat2("MQTT subscribe error: ", s.as_str()),
            SdkError::Serialization(e) => {
                let detail = e.to_string();
                let m = concat2("Serialization error: ", detail.as_str());
                assert(m@.take("Serialization error: "@.len() as int) =~= "Serialization error: "@);
                m
            },
            SdkError::Configuration(s) => concat2("Configuration error: ", s.as_str()),
            SdkError::Channel(s) => concat2("Channel error: ", s.as_str()),
            SdkError::Timeout(s) => concat2("Operation timeout: ", s.as_str()),
            SdkError::CallbackNotFound(s) => concat2("Callback not found for: ", s.as_str()),
            SdkError::NotStarted => owned("Client not started"),
            SdkError::AlreadyStarted => owned("Client already started"),
            SdkError::Internal(s) => concat2("Internal error: ", s.as_str()),
        }
    }
}

impl From<serde_json::Error> for SdkError {
    fn from(e: serde_json::Error) -> (r: Self) {
        SdkError::Serialization(e)
    }
}

impl vstd::std_specs::convert::FromSpecImpl<serde_json::Error> for SdkError {
    open spec fn obeys_from_spec() -> bool {
        true
    }

    open spec fn from_spec(e: serde_json::Error) -> Self {
        SdkError::Serialization(e)
    }
}

} // verus!
