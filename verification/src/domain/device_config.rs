//! Device configuration data.

use vstd::prelude::*;

verus! {

/// Device configuration data. Times are milliseconds since the Unix epoch.
#[derive(Debug, Clone)]
pub struct DeviceConfig {
    pub id: Option<i64>,
    pub product_key: String,
    pub device_id: String,
    pub version: Option<i64>,
    pub config_json: Option<serde_json::Value>,
    pub gmt_create: Option<i64>,
    pub gmt_modified: Option<i64>,
}

impl DeviceConfig {
    /// A first version of a device's configuration, with no content.
    pub fn new(product_key: String, device_id: String) -> (c: Self)
        ensures
            c.product_key == product_key,
            c.device_id == device_id,
            c.version == Some(1i64),
            c.id is None && c.config_json is None,
            c.gmt_create is None && c.gmt_modified is None,
    {
        DeviceConfig {
            id: None,
            product_key,
            device_id,
            version: Some(1),
            config_json: None,
            gmt_create: None,
            gmt_modified: None,
        }
    }
}

} // verus!
