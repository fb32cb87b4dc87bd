//! The inbound and outbound message envelopes of the platform service.

use vstd::prelude::*;
use crate::clock::{is_clock_millis, is_uuid_text, new_uuid_text, now_millis};
use crate::sdk_message::{default_version, protocol_version};
use crate::text::{clone_opt, owned};

verus! {

/// Inbound message envelope, generic over its payload.
#[derive(Debug, Clone)]
pub struct CommonTopicReceiver<T> {
    /// Transaction ID — unique per request
    pub tid: Option<String>,
    /// Business ID — scoped to the long-lived session
    pub bid: Option<String>,
    /// Protocol version
    pub version: String,
    /// Unix timestamp (milliseconds)
    pub timestamp: Option<i64>,
    /// RPC method name
    pub method: Option<String>,
    /// Product key
    pub product_key: Option<String>,
    /// Device identifier
    pub device_id: Option<String>,
    /// Payload data
    pub data: T,
    /// Response code
    pub code: Option<String>,
    /// Response message
    pub message: Option<String>,
}

/// Outbound response envelope, generic over its payload.
#[derive(Debug, Clone)]
pub struct CommonTopicResponse<T> {
    /// Transaction ID — echoed from receiver
    pub tid: Option<String>,
    /// Business ID
    pub bid: Option<String>,
    /// RPC method name
    pub method: Option<String>,
    /// Payload data
    pub data: T,
    /// Unix timestamp (milliseconds)
    pub timestamp: Option<i64>,
    /// Protocol version
    pub version: String,
    /// Response code
    pub code: Option<String>,
    /// Response message
    pub message: Option<String>,
    /// Product key
    pub product_key: Option<String>,
    /// Device identifier
    pub device_id: Option<String>,
}

/// Service reply inner envelope.
#[derive(Debug, Clone)]
pub struct ServiceReply<T> {
    pub result: Option<i32>,
    pub info: Option<T>,
    pub output: Option<T>,
}

/// Response code constants.
pub struct ResponseCode;

impl ResponseCode {
    pub const SUCCESS: &'static str = "200";
    pub const REFUSE: &'static str = "1";
    pub const ERROR: &'static str = "0";
}

/// The success response code, `200`.
pub open spec fn success_code() -> Seq<char> {
    "200"@
}

/// The refusal response code, `1`.
pub open spec fn refuse_code() -> Seq<char> {
    "1"@
}

/// The error response code, `0`.
pub open spec fn error_code() -> Seq<char> {
    "0"@
}

/// Whether a response echoes a receiver's ids, method and device, and has
/// the protocol version and a timestamp read from the clock.
pub open spec fn echoes<T, R>(r: CommonTopicResponse<T>, receiver: CommonTopicReceiver<R>) -> bool {
    &&& r.tid == receiver.tid
    &&& r.bid == receiver.bid
    &&& r.method == receiver.method
    &&& r.product_key == receiver.product_key
    &&& r.device_id == receiver.device_id
    &&& r.version@ == protocol_version()
    &&& r.timestamp matches Some(t) && is_clock_millis(t)
}

impl<T> CommonTopicReceiver<T> {
    /// A receiver message with a fresh transaction id, the current time and
    /// nothing else set.
    pub fn new(data: T) -> (m: Self)
        ensures
            m.tid matches Some(t) && is_uuid_text(t@),
            m.bid is None,
            m.version@ == protocol_version(),
            m.timestamp matches Some(t) && is_clock_millis(t),
            m.method is None && m.product_key is None && m.device_id is None,
            m.data == data,
            m.code is None && m.message is None,
    {
        CommonTopicReceiver {
            tid: Some(new_uuid_text()),
            bid: None,
            version: default_version(),
            timestamp: Some(now_millis()),
            method: None,
            product_key: None,
            device_id: None,
            data,
            code: None,
            message: None,
        }
    }
}

impl<T> CommonTopicResponse<T> {
    /// A success reply to a receiver message: code `200`, message `success`.
    pub fn reply<R>(receiver: &CommonTopicReceiver<R>, data: T) -> (r: Self)
        ensures
            echoes(r, *receiver),
            r.data == data,
            r.code matches Some(c) && c@ == success_code(),
            r.message matches Some(m) && m@ == "success"@,
    {
        CommonTopicResponse {
            tid: clone_opt(&receiver.tid),
            bid: clone_opt(&receiver.bid),
            method: clone_opt(&receiver.method),
            data,
            timestamp: Some(now_millis()),
            version: default_version(),
            code: Some(owned(ResponseCode::SUCCESS)),
            message: Some(owned("success")),
            product_key: clone_opt(&receiver.product_key),
            device_id: clone_opt(&receiver.device_id),
        }
    }

    /// An error reply to a receiver message: code `0` and the given message.
    pub fn error<R>(receiver: &CommonTopicReceiver<R>, data: T, msg: &str) -> (r: Self)
        ensures
            echoes(r, *receiver),
            r.data == data,
            r.code matches Some(c) && c@ == error_code(),
            r.message matches Some(m) && m@ == msg@,
    {
        CommonTopicResponse {
            tid: clone_opt(&receiver.tid),
            bid: clone_opt(&receiver.bid),
            method: clone_opt(&receiver.method),
            data,
            timestamp: Some(now_millis()),
            version: default_version(),
            code: Some(owned(ResponseCode::ERROR)),
            message: Some(owned(msg)),
            product_key: clone_opt(&receiver.product_key),
            device_id: clone_opt(&receiver.device_id),
        }
    }
}

} // verus!
