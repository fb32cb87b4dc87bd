//! Domain events emitted by the platform.

use vstd::prelude::*;

verus! {

/// Domain events: significant state changes in the IoT domain.
#[derive(Debug, Clone)]
pub enum DomainEvent {
    /// Device came online
    DeviceOnline { product_key: String, device_id: String },
    /// Device went offline
    DeviceOffline { product_key: String, device_id: String },
    /// Device properties changed (shadow update)
    PropertyChanged { product_key: String, device_id: String, properties: serde_json::Value },
    /// Service was invoked on a device
    ServiceInvoked { product_key: String, device_id: String, method: String },
    /// Event received from a device
    EventReceived {
        product_key: String,
        device_id: String,
        identifier: String,
        level: String,
        data: serde_json::Value,
    },
    /// Device registered
    DeviceRegistered { product_key: String, device_id: String },
    /// Link status changed
    LinkChanged { product_key: String, device_id: String, link_id: String, is_active: bool },
}

/// The product key an event is about.
pub open spec fn event_product_key(e: DomainEvent) -> String {
    match e {
        DomainEvent::DeviceOnline { product_key, .. } => product_key,
        DomainEvent::DeviceOffline { product_key, .. } => product_key,
        DomainEvent::PropertyChanged { product_key, .. } => product_key,
        DomainEvent::ServiceInvoked { product_key, .. } => product_key,
        DomainEvent::EventReceived { product_key, .. } => product_key,
        DomainEvent::DeviceRegistered { product_key, .. } => product_key,
        DomainEvent::LinkChanged { product_key, .. } => product_key,
    }
}

/// The device an event is about.
pub open spec fn event_device_id(e: DomainEvent) -> String {
    match e {
        DomainEvent::DeviceOnline { device_id, .. } => device_id,
        DomainEvent::DeviceOffline { device_id, .. } => device_id,
        DomainEvent::PropertyChanged { device_id, .. } => device_id,
        DomainEvent::ServiceInvoked { device_id, .. } => device_id,
        DomainEvent::EventReceived { device_id, .. } => device_id,
        DomainEvent::DeviceRegistered { device_id, .. } => device_id,
        DomainEvent::LinkChanged { device_id, .. } => device_id,
    }
}

/// The type name of an event, for logging and metrics.
pub open spec fn event_type_name(e: DomainEvent) -> Seq<char> {
    match e {
        DomainEvent::DeviceOnline { .. } => "device_online"@,
        DomainEvent::DeviceOffline { .. } => "device_offline"@,
        DomainEvent::PropertyChanged { .. } => "property_changed"@,
        DomainEvent::ServiceInvoked { .. } => "service_invoked"@,
        DomainEvent::EventReceived { .. } => "event_received"@,
        DomainEvent::DeviceRegistered { .. } => "device_registered"@,
        DomainEvent::LinkChanged { .. } => "link_changed"@,
    }
}

impl DomainEvent {
    /// The product key this event is about.
    pub fn product_key(&self) -> (k: &str)
        ensures
            k@ == event_product_key(*self)@,
    {
        match self {
            DomainEvent::DeviceOnline { product_key, .. } => product_key.as_str(),
            DomainEvent::DeviceOffline { product_key, .. } => product_key.as_str(),
            DomainEvent::PropertyChanged { product_key, .. } => product_key.as_str(),
            DomainEvent::ServiceInvoked { product_key, .. } => product_key.as_str(),
            DomainEvent::EventReceived { product_key, .. } => product_key.as_str(),
            DomainEvent::DeviceRegistered { product_key, .. } => product_key.as_str(),
            DomainEvent::LinkChanged { product_key, .. } => product_key.as_str(),
        }
    }

    /// The device this event is about.
    pub fn device_id(&self) -> (d: &str)
        ensures
            d@ == event_device_id(*self)@,
    {
        match self {
            DomainEvent::DeviceOnline { device_id, .. } => device_id.as_str(),
            DomainEvent::DeviceOffline { device_id, .. } => device_id.as_str(),
            DomainEvent::PropertyChanged { device_id, .. } => device_id.as_str(),
            DomainEvent::ServiceInvoked { device_id, .. } => device_id.as_str(),
            DomainEvent::EventReceived { device_id, .. } => device_id.as_str(),
            DomainEvent::DeviceRegistered { device_id, .. } => device_id.as_str(),
            DomainEvent::LinkChanged { device_id, .. } => device_id.as_str(),
        }
    }

    /// The event type name for logging and metrics.
    pub fn event_type(&self) -> (t: &'static str)
        ensures
            t@ == event_type_name(*self),
    {
        match self {
            DomainEvent::DeviceOnline { .. } => "device_online",
            DomainEvent::DeviceOffline { .. } => "device_offline",
            DomainEvent::PropertyChanged { .. } => "property_changed",
            DomainEvent::ServiceInvoked { .. } => "service_invoked",
            DomainEvent::EventReceived { .. } => "event_received",
            DomainEvent::DeviceRegistered { .. } => "device_registered",
            DomainEvent::LinkChanged { .. } => "link_changed",
        }
    }
}

} // verus!
