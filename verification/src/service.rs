//! Service request and response types of the device SDK.

use vstd::prelude::*;
use crate::clock::{is_clock_millis, now_millis};
use crate::enums::CommunicationChannel;
use crate::text::owned;

verus! {

/// A service call from the device to the platform.
#[derive(Debug, Clone)]
pub struct PlatformServiceRequest {
    /// Communication channel
    pub channel: CommunicationChannel,
    /// Service identifier
    pub service_identifier: String,
    /// Parameter data (raw bytes, typically UTF-8 JSON)
    pub param_data: Vec<u8>,
    /// Product key of the target device
    pub product_key: String,
    /// Device ID of the target device
    pub device_id: String,
}

impl PlatformServiceRequest {
    /// A request on the default channel with no target device set.
    pub fn new(service_identifier: &str, param_data: Vec<u8>) -> (r: Self)
        ensures
            r.channel == CommunicationChannel::All,
            r.service_identifier@ == service_identifier@,
            r.param_data@ == param_data@,
            r.product_key@ == Seq::<char>::empty(),
            r.device_id@ == Seq::<char>::empty(),
    {
        PlatformServiceRequest {
            channel: CommunicationChannel::default(),
            service_identifier: owned(service_identifier),
            param_data,
            product_key: String::new(),
            device_id: String::new(),
        }
    }

    /// The same request aimed at the given device.
    pub fn with_device(self, product_key: &str, device_id: &str) -> (r: Self)
        ensures
            r.channel == self.channel,
            r.service_identifier == self.service_identifier,
            r.param_data == self.param_data,
            r.product_key@ == product_key@,
            r.device_id@ == device_id@,
    {
        PlatformServiceRequest {
            product_key: owned(product_key),
            device_id: owned(device_id),
            ..self
        }
    }

    /// The same request on the given channel.
    pub fn with_channel(self, channel: CommunicationChannel) -> (r: Self)
        ensures
            r.channel == channel,
            r.service_identifier == self.service_identifier,
            r.param_data == self.param_data,
            r.product_key == self.product_key,
            r.device_id == self.device_id,
    {
        PlatformServiceRequest { channel, ..self }
    }
}

/// A service call addressed to a device.
#[derive(Debug, Clone)]
pub struct DeviceServiceRequest {
    /// Communication channel
    pub channel: CommunicationChannel,
    /// Service identifier
    pub service_identifier: String,
    /// Parameter data (raw bytes, typically UTF-8 JSON)
    pub param_data: Vec<u8>,
    /// Service timestamp in milliseconds
    pub service_timestamp_ms: i64,
}

impl DeviceServiceRequest {
    /// A request on the default channel with timestamp zero.
    pub fn new(service_identifier: &str, param_data: Vec<u8>) -> (r: Self)
        ensures
            r.channel == CommunicationChannel::All,
            r.service_identifier@ == service_identifier@,
            r.param_data@ == param_data@,
            r.service_timestamp_ms == 0,
    {
        DeviceServiceRequest {
            channel: CommunicationChannel::default(),
            service_identifier: owned(service_identifier),
            param_data,
            service_timestamp_ms: 0,
        }
    }

    /// The same request on the given channel.
    pub fn with_channel(self, channel: CommunicationChannel) -> (r: Self)
        ensures
            r.channel == channel,
            r.service_identifier == self.service_identifier,
            r.param_data == self.param_data,
            r.service_timestamp_ms == self.service_timestamp_ms,
    {
        DeviceServiceRequest { channel, ..self }
    }
}

/// The platform's answer to a `PlatformServiceRequest`.
#[derive(Debug, Clone)]
pub struct PlatformServiceResponse {
    /// Communication channel
    pub channel: CommunicationChannel,
    /// Service identifier
    pub service_identifier: String,
    /// Result code (0 = success)
    pub result: i32,
    /// Response parameter data
    pub param_data: Vec<u8>,
    /// Service timestamp in milliseconds
    pub service_timestamp_ms: i64,
}

impl PlatformServiceResponse {
    /// A success response (result 0) stamped with the current time.
    pub fn success(service_identifier: &str, param_data: Vec<u8>) -> (r: Self)
        ensures
            r.channel == CommunicationChannel::All,
            r.service_identifier@ == service_identifier@,
            r.result == 0,
            r.param_data@ == param_data@,
            is_clock_millis(r.service_timestamp_ms),
    {
        PlatformServiceResponse {
            channel: CommunicationChannel::default(),
            service_identifier: owned(service_identifier),
            result: 0,
            param_data,
            service_timestamp_ms: now_millis(),
        }
    }

    /// An error response with the given result code and no data, stamped with
    /// the current time.
    pub fn error(service_identifier: &str, result: i32) -> (r: Self)
        ensures
            r.channel == CommunicationChannel::All,
            r.service_identifier@ == service_identifier@,
            r.result == result,
            r.param_data@ == Seq::<u8>::empty(),
            is_clock_millis(r.service_timestamp_ms),
    {
        PlatformServiceResponse {
            channel: CommunicationChannel::default(),
            service_identifier: owned(service_identifier),
            result,
            param_data: Vec::new(),
            service_timestamp_ms: now_millis(),
        }
    }
}

/// A device's answer to a `DeviceServiceRequest`.
#[derive(Debug, Clone)]
pub struct DeviceServiceResponse {
    /// Communication channel
    pub channel: CommunicationChannel,
    /// Service identifier
    pub service_identifier: String,
    /// Result code (0 = success)
    pub result: i32,
    /// Response parameter data
    pub param_data: Vec<u8>,
    /// Service timestamp in milliseconds
    pub service_timestamp_ms: i64,
}

impl DeviceServiceResponse {
    /// A success response (result 0) stamped with the current time.
    pub fn success(service_identifier: &str, param_data: Vec<u8>) -> (r: Self)
        ensures
            r.channel == CommunicationChannel::All,
            r.service_identifier@ == service_identifier@,
            r.result == 0,
            r.param_data@ == param_data@,
            is_clock_millis(r.service_timestamp_ms),
    {
        DeviceServiceResponse {
            channel: CommunicationChannel::default(),
            service_identifier: owned(service_identifier),
            result: 0,
            param_data,
            service_timestamp_ms: now_millis(),
        }
    }

    /// An error response with the given result code and no data, stamped with
    /// the current time.
    pub fn error(service_identifier: &str, result: i32) -> (r: Self)
        ensures
            r.channel == CommunicationChannel::All,
            r.service_identifier@ == service_identifier@,
            r.result == result,
            r.param_data@ == Seq::<u8>::empty(),
            is_clock_millis(r.service_timestamp_ms),
    {
        DeviceServiceResponse {
            channel: CommunicationChannel::default(),
            service_identifier: owned(service_identifier),
            result,
            param_data: Vec::new(),
            service_timestamp_ms: now_millis(),
        }
    }
}

} // verus!
