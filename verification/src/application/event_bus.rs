//! Device events pushed to subscribers (e.g. WebSocket clients).

use vstd::prelude::*;
use crate::clock::{is_clock_millis, now_millis};
use crate::text::owned;

verus! {

/// Default capacity of the event broadcast channel.
pub const DEFAULT_CAPACITY: usize = 4096;

/// Device event types pushed to subscribers; timestamps are milliseconds
/// since the Unix epoch.
#[derive(Debug, Clone)]
pub enum DeviceEvent {
    /// Device came online.
    Online { product_key: String, device_id: String, timestamp: i64 },
    /// Device went offline.
    Offline { product_key: String, device_id: String, timestamp: i64 },
    /// Device properties updated.
    PropertyUpdate { product_key: String, device_id: String, properties: serde_json::Value, timestamp: i64 },
    /// Device event reported.
    EventReport {
        product_key: String,
        device_id: String,
        identifier: String,
        params: serde_json::Value,
        timestamp: i64,
    },
}

/// The product key of an event.
pub open spec fn device_event_product_key(e: DeviceEvent) -> String {
    match e {
        DeviceEvent::Online { product_key, .. } => product_key,
        DeviceEvent::Offline { product_key, .. } => product_key,
        DeviceEvent::PropertyUpdate { product_key, .. } => product_key,
        DeviceEvent::EventReport { product_key, .. } => product_key,
    }
}

/// The device of an event.
pub open spec fn device_event_device_id(e: DeviceEvent) -> String {
    match e {
        DeviceEvent::Online { device_id, .. } => device_id,
        DeviceEvent::Offline { device_id, .. } => device_id,
        DeviceEvent::PropertyUpdate { device_id, .. } => device_id,
        DeviceEvent::EventReport { device_id, .. } => device_id,
    }
}

impl DeviceEvent {
    /// The product key of this event.
    pub fn product_key(&self) -> (k: &str)
        ensures
            k@ == device_event_product_key(*self)@,
    {
        match self {
            DeviceEvent::Online { product_key, .. } => product_key.as_str(),
            DeviceEvent::Offline { product_key, .. } => product_key.as_str(),
            DeviceEvent::PropertyUpdate { product_key, .. } => product_key.as_str(),
            DeviceEvent::EventReport { product_key, .. } => product_key.as_str(),
        }
    }

    /// The device of this event.
    pub fn device_id(&self) -> (d: &str)
        ensures
            d@ == device_event_device_id(*self)@,
    {
        match self {
            DeviceEvent::Online { device_id, .. } => device_id.as_str(),
            DeviceEvent::Offline { device_id, .. } => device_id.as_str(),
            DeviceEvent::PropertyUpdate { device_id, .. } => device_id.as_str(),
            DeviceEvent::EventReport { device_id, .. } => device_id.as_str(),
        }
    }

    /// A device-online event, stamped now.
    pub fn online(product_key: &str, device_id: &str) -> (e: Self)
        ensures
            e matches DeviceEvent::Online { product_key: p, device_id: d, timestamp: t }
                && p@ == product_key@ && d@ == device_id@ && is_clock_millis(t),
    {
        DeviceEvent::Online { product_key: owned(product_key), device_id: owned(device_id), timestamp: now_millis() }
    }

    /// A device-offline event, stamped now.
    pub fn offline(product_key: &str, device_id: &str) -> (e: Self)
        ensures
            e matches DeviceEvent::Offline { product_key: p, device_id: d, timestamp: t }
                && p@ == product_key@ && d@ == device_id@ && is_clock_millis(t),
    {
        DeviceEvent::Offline { product_key: owned(product_key), device_id: owned(device_id), timestamp: now_millis() }
    }

    /// A property-update event, stamped now.
    pub fn property_update(product_key: &str, device_id: &str, properties: serde_json::Value) -> (e: Self)
        ensures
            e matches DeviceEvent::PropertyUpdate { product_key: p, device_id: d, properties: q, timestamp: t }
                && p@ == product_key@ && d@ == device_id@ && q == properties && is_clock_millis(t),
    {
        DeviceEvent::PropertyUpdate {
            product_key: owned(product_key),
            device_id: owned(device_id),
            properties,
            timestamp: now_millis(),
        }
    }

    /// An event-report event, stamped now.
    pub fn event_report(product_key: &str, device_id: &str, identifier: &str, params: serde_json::Value) -> (e: Self)
        ensures
            e matches DeviceEvent::EventReport { product_key: p, device_id: d, identifier: i, params: q, timestamp: t }
                && p@ == product_key@ && d@ == device_id@ && i@ == identifier@ && q == params
                && is_clock_millis(t),
    {
        DeviceEvent::EventReport {
            product_key: owned(product_key),
            device_id: owned(device_id),
            identifier: owned(identifier),
            params,
            timestamp: now_millis(),
        }
    }
}

} // verus!
