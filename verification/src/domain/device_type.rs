//! Device type definition.

use vstd::prelude::*;

verus! {

/// Device type definition. Times are milliseconds since the Unix epoch.
#[derive(Debug, Clone)]
pub struct DeviceType {
    pub id: Option<i64>,
    pub code: String,
    pub name: String,
    pub description: Option<String>,
    pub gmt_create: Option<i64>,
    pub gmt_modified: Option<i64>,
}

impl DeviceType {
    /// A device type with a code and a name.
    pub fn new(code: String, name: String) -> (t: Self)
        ensures
            t.code == code,
            t.name == name,
            t.id is None && t.description is None,
            t.gmt_create is None && t.gmt_modified is None,
    {
        DeviceType { id: None, code, name, description: None, gmt_create: None, gmt_modified: None }
    }
}

} // verus!
