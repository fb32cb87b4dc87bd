//! The common message envelope and the reply message of the device protocol.

use vstd::prelude::*;
use crate::clock::{chrono_timestamp_ms, is_clock_millis, is_uuid_text, new_uuid_text};
use crate::outside::{json_is_null, json_null};
use crate::text::owned;

verus! {

/// The protocol version written into messages.
pub open spec fn protocol_version() -> Seq<char> {
    "1.0"@
}

/// The default protocol version, `"1.0"`.
pub fn default_version() -> (v: String)
    ensures
        v@ == protocol_version(),
{
    owned("1.0")
}

/// Standard message format for IoT communication: transaction id, batch id,
/// protocol version, timestamp in milliseconds, method name and payload.
#[derive(Debug, Clone)]
pub struct CommonMessage {
    /// Transaction ID for correlation
    pub tid: String,
    /// Batch ID
    pub bid: String,
    /// Protocol version
    pub version: String,
    /// Timestamp in milliseconds
    pub timestamp: i64,
    /// Method name
    pub method: String,
    /// Data payload
    pub data: serde_json::Value,
}

impl CommonMessage {
    /// A message with fresh random transaction and batch ids, version `1.0`
    /// and the current time.
    pub fn new(method: &str, data: serde_json::Value) -> (m: Self)
        ensures
            is_uuid_text(m.tid@),
            is_uuid_text(m.bid@),
            m.version@ == protocol_version(),
            m.method@ == method@,
            m.data == data,
            is_clock_millis(m.timestamp),
    {
        CommonMessage {
            tid: new_uuid_text(),
            bid: new_uuid_text(),
            version: default_version(),
            timestamp: chrono_timestamp_ms(),
            method: owned(method),
            data,
        }
    }

    /// A message with the given transaction id, a fresh random batch id,
    /// version `1.0` and the current time.
    pub fn with_tid(tid: String, method: &str, data: serde_json::Value) -> (m: Self)
        ensures
            m.tid == tid,
            is_uuid_text(m.bid@),
            m.version@ == protocol_version(),
            m.method@ == method@,
            m.data == data,
            is_clock_millis(m.timestamp),
    {
        CommonMessage {
            tid,
            bid: new_uuid_text(),
            version: default_version(),
            timestamp: chrono_timestamp_ms(),
            method: owned(method),
            data,
        }
    }

    /// A builder with nothing set.
    pub fn builder() -> (b: CommonMessageBuilder)
        ensures
            b.tid is None && b.bid is None && b.version is None,
            b.timestamp is None && b.method is None && b.data is None,
    {
        CommonMessageBuilder::new()
    }
}

/// Builder for `CommonMessage`; what is left unset gets its default.
#[derive(Debug)]
pub struct CommonMessageBuilder {
    pub tid: Option<String>,
    pub bid: Option<String>,
    pub version: Option<String>,
    pub timestamp: Option<i64>,
    pub method: Option<String>,
    pub data: Option<serde_json::Value>,
}

impl CommonMessageBuilder {
    /// A builder with nothing set.
    pub fn new() -> (b: Self)
        ensures
            b.tid is None && b.bid is None && b.version is None,
            b.timestamp is None && b.method is None && b.data is None,
    {
        CommonMessageBuilder { tid: None, bid: None, version: None, timestamp: None, method: None, data: None }
    }

    /// Sets the transaction ID.
    pub fn tid(self, tid: &str) -> (b: Self)
        ensures
            b.tid matches Some(t) && t@ == tid@,
            b.bid == self.bid && b.version == self.version && b.timestamp == self.timestamp,
            b.method == self.method && b.data == self.data,
    {
        CommonMessageBuilder { tid: Some(owned(tid)), ..self }
    }

    /// Sets the batch ID.
    pub fn bid(self, bid: &str) -> (b: Self)
        ensures
            b.bid matches Some(t) && t@ == bid@,
            b.tid == self.tid && b.version == self.version && b.timestamp == self.timestamp,
            b.method == self.method && b.data == self.data,
    {
        CommonMessageBuilder { bid: Some(owned(bid)), ..self }
    }

    /// Sets the protocol version.
    pub fn version(self, version: &str) -> (b: Self)
        ensures
            b.version matches Some(t) && t@ == version@,
            b.tid == self.tid && b.bid == self.bid && b.timestamp == self.timestamp,
            b.method == self.method && b.data == self.data,
    {
        CommonMessageBuilder { version: Some(owned(version)), ..self }
    }

    /// Sets the timestamp.
    pub fn timestamp(self, timestamp: i64) -> (b: Self)
        ensures
            b.timestamp == Some(timestamp),
            b.tid == self.tid && b.bid == self.bid && b.version == self.version,
            b.method == self.method && b.data == self.data,
    {
        CommonMessageBuilder { timestamp: Some(timestamp), ..self }
    }

    /// Sets the method name.
    pub fn method(self, method: &str) -> (b: Self)
        ensures
            b.method matches Some(t) && t@ == method@,
            b.tid == self.tid && b.bid == self.bid && b.version == self.version,
            b.timestamp == self.timestamp && b.data == self.data,
    {
        CommonMessageBuilder { method: Some(owned(method)), ..self }
    }

    /// Sets the data payload.
    pub fn data(self, data: serde_json::Value) -> (b: Self)
        ensures
            b.data == Some(data),
            b.tid == self.tid && b.bid == self.bid && b.version == self.version,
            b.timestamp == self.timestamp && b.method == self.method,
    {
        CommonMessageBuilder { data: Some(data), ..self }
    }

    /// The message: every field that was set, and otherwise a random id,
    /// version `1.0`, the current time, an empty method and JSON `null`.
    pub fn build(self) -> (m: CommonMessage)
        ensures
            match self.tid { Some(t) => m.tid == t, None => is_uuid_text(m.tid@) },
            match self.bid { Some(t) => m.bid == t, None => is_uuid_text(m.bid@) },
            match self.version { Some(t) => m.version == t, None => m.version@ == protocol_version() },
            match self.timestamp { Some(t) => m.timestamp == t, None => is_clock_millis(m.timestamp) },
            match self.method { Some(t) => m.method == t, None => m.method@ == Seq::<char>::empty() },
            match self.data { Some(d) => m.data == d, None => json_is_null(m.data) },
    {
        CommonMessage {
            tid: match self.tid { Some(t) => t, None => new_uuid_text() },
            bid: match self.bid { Some(t) => t, None => new_uuid_text() },
            version: match self.version { Some(t) => t, None => default_version() },
            timestamp: match self.timestamp { Some(t) => t, None => chrono_timestamp_ms() },
            method: match self.method { Some(t) => t, None => String::new() },
            data: match self.data { Some(d) => d, None => json_null() },
        }
    }
}

/// Reply message from the platform.
#[derive(Debug, Clone)]
pub struct ReplyMessage {
    /// Transaction ID for correlation
    pub tid: String,
    /// Batch ID
    pub bid: String,
    /// Response code (0 = success)
    pub code: i32,
    /// Response message
    pub message: String,
    /// Response data (optional)
    pub data: Option<serde_json::Value>,
}

impl ReplyMessage {
    /// A success reply: code 0, message `success`, no data.
    pub fn success(tid: &str, bid: &str) -> (r: Self)
        ensures
            r.tid@ == tid@ && r.bid@ == bid@,
            r.code == 0,
            r.message@ == "success"@,
            r.data is None,
    {
        ReplyMessage { tid: owned(tid), bid: owned(bid), code: 0, message: owned("success"), data: None }
    }

    /// A success reply carrying data.
    pub fn success_with_data(tid: &str, bid: &str, data: serde_json::Value) -> (r: Self)
        ensures
            r.tid@ == tid@ && r.bid@ == bid@,
            r.code == 0,
            r.message@ == "success"@,
            r.data == Some(data),
    {
        ReplyMessage { tid: owned(tid), bid: owned(bid), code: 0, message: owned("success"), data: Some(data) }
    }

    /// An error reply with the given code and message, no data.
    pub fn error(tid: &str, bid: &str, code: i32, message: &str) -> (r: Self)
        ensures
            r.tid@ == tid@ && r.bid@ == bid@,
            r.code == code,
            r.message@ == message@,
            r.data is None,
    {
        ReplyMessage { tid: owned(tid), bid: owned(bid), code, message: owned(message), data: None }
    }

    /// Whether the reply indicates success (code 0).
    pub fn is_success(&self) -> (b: bool)
        ensures
            b == (self.code == 0),
    {
        self.code == 0
    }
}

} // verus!
