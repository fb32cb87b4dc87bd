//! Device configuration updates.

use vstd::prelude::*;
use crate::domain::device_config::DeviceConfig;
use crate::text::owned;

verus! {

/// The record stored when a device's configuration is updated: the id and
/// version of the existing record (if any) and the new content.
pub fn config_record(existing: Option<&DeviceConfig>, product_key: &str, device_id: &str, config_json: serde_json::Value) -> (c: DeviceConfig)
    ensures
        c.id == (match existing { Some(e) => e.id, None => None }),
        c.version == (match existing { Some(e) => e.version, None => None }),
        c.product_key@ == product_key@,
        c.device_id@ == device_id@,
        c.config_json == Some(config_json),
        c.gmt_create is None && c.gmt_modified is None,
{
    DeviceConfig {
        id: match existing { Some(e) => e.id, None => None },
        product_key: owned(product_key),
        device_id: owned(device_id),
        config_json: Some(config_json),
        version: match existing { Some(e) => e.version, None => None },
        gmt_create: None,
        gmt_modified: None,
    }
}

} // verus!
