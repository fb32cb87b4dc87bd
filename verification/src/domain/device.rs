//! Device entity, status and product node type.

use vstd::prelude::*;

verus! {

/// Device status.
#[derive(Debug, Clone, Copy, PartialEq, Eq, Structural)]
pub enum DeviceStatus {
    /// Online
    Online,
    /// Offline
    Offline,
    /// Faulty
    Fault,
    /// Not activated
    NotActive,
}

impl Default for DeviceStatus {
    fn default() -> (s: Self)
        ensures
            s == DeviceStatus::NotActive,
    {
        DeviceStatus::NotActive
    }
}

/// The text of a device status.
pub open spec fn device_status_text(s: DeviceStatus) -> Seq<char> {
    match s {
        DeviceStatus::Online => "ONLINE"@,
        DeviceStatus::Offline => "OFFLINE"@,
        DeviceStatus::Fault => "FAULT"@,
        DeviceStatus::NotActive => "NOT_ACTIVE"@,
    }
}

impl DeviceStatus {
    /// The text of the status (`ONLINE`, `OFFLINE`, `FAULT`, `NOT_ACTIVE`).
    pub fn as_str(&self) -> (t: &'static str)
        ensures
            t@ == device_status_text(*self),
    {
        match self {
            DeviceStatus::Online => "ONLINE",
            DeviceStatus::Offline => "OFFLINE",
            DeviceStatus::Fault => "FAULT",
            DeviceStatus::NotActive => "NOT_ACTIVE",
        }
    }
}

/// Product node type.
#[derive(Debug, Clone, Copy, PartialEq, Eq, Structural)]
pub enum ProductType {
    /// Directly connected device
    DirectDevice,
    /// Gateway device
    Gateway,
    /// Sub-device behind a gateway
    SubDevice,
    /// Virtual device
    UnrealDevice,
}

/// IoT device entity. Times are milliseconds since the Unix epoch.
#[derive(Debug, Clone)]
pub struct Device {
    pub id: Option<i64>,
    pub product_id: Option<i64>,
    pub product_key: String,
    pub product_version: Option<String>,
    pub parent_product_key: Option<String>,
    pub parent_id: Option<String>,
    pub device_id: String,
    pub device_name: Option<String>,
    pub device_secret: Option<String>,
    pub device_status: DeviceStatus,
    pub gmt_last_online: Option<i64>,
    pub register_time: Option<i64>,
    pub device_extend: Option<String>,
    pub org_code: Option<String>,
}

impl Device {
    /// A device with only its keys set, not yet activated.
    pub fn new(product_key: String, device_id: String) -> (d: Self)
        ensures
            d.product_key == product_key,
            d.device_id == device_id,
            d.device_status == DeviceStatus::NotActive,
            d.id is None && d.product_id is None && d.product_version is None,
            d.parent_product_key is None && d.parent_id is None,
            d.device_name is None && d.device_secret is None,
            d.gmt_last_online is None && d.register_time is None,
            d.device_extend is None && d.org_code is None,
    {
        Device {
            id: None,
            product_id: None,
            product_key,
            product_version: None,
            parent_product_key: None,
            parent_id: None,
            device_id,
            device_name: None,
            device_secret: None,
            device_status: DeviceStatus::NotActive,
            gmt_last_online: None,
            register_time: None,
            device_extend: None,
            org_code: None,
        }
    }

    /// Whether the device is online.
    pub fn is_online(&self) -> (b: bool)
        ensures
            b == (self.device_status == DeviceStatus::Online),
    {
        self.device_status == DeviceStatus::Online
    }
}

} // verus!
