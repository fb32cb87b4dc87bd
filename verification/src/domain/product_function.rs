//! Product function definition.

use vstd::prelude::*;

verus! {

/// Product function definition. Times are milliseconds since the Unix epoch.
#[derive(Debug, Clone)]
pub struct ProductFunction {
    pub id: Option<i64>,
    pub module_id: Option<i64>,
    pub identifier: String,
    pub method: String,
    pub name: Option<String>,
    pub call_type: Option<String>,
    pub function_type: Option<String>,
    pub description: Option<String>,
    pub gmt_create: Option<i64>,
    pub gmt_modified: Option<i64>,
}

impl ProductFunction {
    /// A function with an identifier and a method.
    pub fn new(identifier: String, method: String) -> (f: Self)
        ensures
            f.identifier == identifier,
            f.method == method,
            f.id is None && f.module_id is None && f.name is None,
            f.call_type is None && f.function_type is None && f.description is None,
            f.gmt_create is None && f.gmt_modified is None,
    {
        ProductFunction {
            id: None,
            module_id: None,
            identifier,
            method,
            name: None,
            call_type: None,
            function_type: None,
            description: None,
            gmt_create: None,
            gmt_modified: None,
        }
    }
}

} // verus!
