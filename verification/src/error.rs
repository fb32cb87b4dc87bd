//! Error type of the platform service.

use vstd::prelude::*;
use crate::text::{concat2, dec_nat, has_prefix, push_str, u64_to_dec};

verus! {

/// Global error type: every subsystem error is one of these.
#[derive(Debug)]
pub enum TsLinkError {
    Mqtt(String),
    Redis(String),
    Kafka(String),
    Database(sqlx::Error),
    Config(config::ConfigError),
    TopicParse { message: String },
    Serialize(serde_json::Error),
    Timeout { operation: String, duration_ms: u64 },
    DeviceNotFound { product_key: String, device_id: String },
    AuthFailed { reason: String },
    Internal(String),
}

/// The text of an error; for errors that wrap an outside error only the
/// leading words are fixed here.
pub open spec fn tslink_error_text(e: &TsLinkError) -> Seq<char> {
    match e {
        TsLinkError::Mqtt(s) => "MQTT error: "@ + s@,
        TsLinkError::Redis(s) => "Redis error: "@ + s@,
        TsLinkError::Kafka(s) => "Kafka error: "@ + s@,
        TsLinkError::Database(_) => "Database error: "@,
        TsLinkError::Config(_) => "Configuration error: "@,
        TsLinkError::TopicParse { message } => "Topic parse error: "@ + message@,
        TsLinkError::Serialize(_) => "Serialization error: "@,
        TsLinkError::Timeout { operation, duration_ms } =>
            "Operation timed out after "@ + dec_nat(*duration_ms as nat) + "ms: "@ + operation@,
        TsLinkError::DeviceNotFound { product_key, device_id } =>
            "Device not found: product_key="@ + product_key@ + ", device_id="@ + device_id@,
        TsLinkError::AuthFailed { reason } => "Authentication failed: "@ + reason@,
        TsLinkError::Internal(s) => "Internal error: "@ + s@,
    }
}

/// Whether an error wraps an error of an outside crate.
pub open spec fn wraps_outside(e: &TsLinkError) -> bool {
    e is Database || e is Config || e is Serialize
}

fn prefixed(head: &str, detail: &str) -> (m: String)
    ensures
        m@ == head@ + detail@,
        has_prefix(m@, head@),
{
    let m = concat2(head, detail);
    assert(m@.take(head@.len() as int) =~= head@);
    m
}

impl TsLinkError {
    /// The human-readable text of the error.
    pub fn message(&self) -> (m: String)
        ensures
            wraps_outside(self) ==> has_prefix(m@, tslink_error_text(self)),
            !wraps_outside(self) ==> m@ == tslink_error_text(self),
    {
        match self {
            TsLinkError::Mqtt(s) => concat2("MQTT error: ", s.as_str()),
            TsLinkError::Redis(s) => concat2("Redis error: ", s.as_str()),
            TsLinkError::Kafka(s) => concat2("Kafka error: ", s.as_str()),
            TsLinkError::Database(e) => {
                let detail = e.to_string();
                prefixed("Database error: ", detail.as_str())
            },
            TsLinkError::Config(e) => {
                let detail = e.to_string();
                prefixed("Configuration error: ", detail.as_str())
            },
            TsLinkError::TopicParse { message } => concat2("Topic parse error: ", message.as_str()),
            TsLinkError::Serialize(e) => {
                let detail = e.to_string();
                prefixed("Serialization error: ", detail.as_str())
            },
            TsLinkError::Timeout { operation, duration_ms } => {
                let mut m = concat2("Operation timed out after ", u64_to_dec(*duration_ms).as_str());
                push_str(&mut m, "ms: ");
                push_str(&mut m, operation.as_str());
                m
            },
            TsLinkError::DeviceNotFound { product_key, device_id } => {
                let mut m = concat2("Device not found: product_key=", product_key.as_str());
                push_str(&mut m, ", device_id=");
                push_str(&mut m, device_id.as_str());
                m
            },
            TsLinkError::AuthFailed { reason } => concat2("Authentication failed: ", reason.as_str()),
            TsLinkError::Internal(s) => concat2("Internal error: ", s.as_str()),
        }
    }
}

impl From<sqlx::Error> for TsLinkError {
    fn from(e: sqlx::Error) -> (r: Self) {
        TsLinkError::Database(e)
    }
}

impl vstd::std_specs::convert::FromSpecImpl<sqlx::Error> for TsLinkError {
    open spec fn obeys_from_spec() -> bool {
        true
    }

    open spec fn from_spec(e: sqlx::Error) -> Self {
        TsLinkError::Database(e)
    }
}

impl From<config::ConfigError> for TsLinkError {
    fn from(e: config::ConfigError) -> (r: Self) {
        TsLinkError::Config(e)
    }
}

impl vstd::std_specs::convert::FromSpecImpl<config::ConfigError> for TsLinkError {
    open spec fn obeys_from_spec() -> bool {
        true
    }

    open spec fn from_spec(e: config::ConfigError) -> Self {
        TsLinkError::Config(e)
    }
}

impl From<serde_json::Error> for TsLinkError {
    fn from(e: serde_json::Error) -> (r: Self) {
        TsLinkError::Serialize(e)
    }
}

impl vstd::std_specs::convert::FromSpecImpl<serde_json::Error> for TsLinkError {
    open spec fn obeys_from_spec() -> bool {
        true
    }

    open spec fn from_spec(e: serde_json::Error) -> Self {
        TsLinkError::Serialize(e)
    }
}

} // verus!
