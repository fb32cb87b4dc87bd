//! Device type management rules.

use vstd::prelude::*;
use crate::domain::device_type::DeviceType;
use crate::error::TsLinkError;
use crate::text::{concat3, owned, owned_opt};

verus! {

/// The error for creating a device type whose code is taken.
pub fn device_type_exists_error(code: &str) -> (e: TsLinkError)
    ensures
        e matches TsLinkError::Internal(t) && t@ == "Device type with code '"@ + code@ + "' already exists"@,
{
    TsLinkError::Internal(concat3("Device type with code '", code, "' already exists"))
}

/// The error for updating a device type that does not exist.
pub fn device_type_not_found_error(code: &str) -> (e: TsLinkError)
    ensures
        e matches TsLinkError::Internal(t) && t@ == "Device type with code '"@ + code@ + "' not found"@,
{
    TsLinkError::Internal(concat3("Device type with code '", code, "' not found"))
}

/// A new device type record.
pub fn new_device_type(code: &str, name: &str, description: Option<&str>) -> (t: DeviceType)
    ensures
        t.code@ == code@,
        t.name@ == name@,
        match description {
            Some(d) => t.description matches Some(x) && x@ == d@,
            None => t.description is None,
        },
        t.id is None && t.gmt_create is None && t.gmt_modified is None,
{
    DeviceType {
        id: None,
        code: owned(code),
        name: owned(name),
        description: owned_opt(description),
        gmt_create: None,
        gmt_modified: None,
    }
}

} // verus!
