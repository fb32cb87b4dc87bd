//! Function parameter definition.

use vstd::prelude::*;

verus! {

/// Function parameter definition of a product function. Times are
/// milliseconds since the Unix epoch.
#[derive(Debug, Clone)]
pub struct FunctionParam {
    pub id: Option<i64>,
    pub product_id: i64,
    pub module_id: Option<i64>,
    pub function_id: i64,
    pub param_name: String,
    pub param_identifier: String,
    /// Parameter type: input, output, properties, sub
    pub param_type: String,
    /// Data type: boolean, int, float, double, string, array, enum, json
    pub data_type: String,
    /// Parameter specs/constraints as JSON text
    pub specs: Option<String>,
    /// Related param ID for nested types (when param_type = "sub")
    pub rel_param_id: Option<i64>,
    /// Required flag: 0 = optional, 1 = required
    pub required: i32,
    pub gmt_create: Option<i64>,
    pub gmt_modified: Option<i64>,
    pub gmt_create_by: Option<String>,
    pub gmt_modified_by: Option<String>,
}

impl FunctionParam {
    /// An optional parameter with no specs.
    pub fn new(
        product_id: i64,
        function_id: i64,
        param_name: String,
        param_identifier: String,
        param_type: String,
        data_type: String,
    ) -> (p: Self)
        ensures
            p.product_id == product_id,
            p.function_id == function_id,
            p.param_name == param_name,
            p.param_identifier == param_identifier,
            p.param_type == param_type,
            p.data_type == data_type,
            p.required == 0,
            p.id is None && p.module_id is None && p.specs is None && p.rel_param_id is None,
            p.gmt_create is None && p.gmt_modified is None,
            p.gmt_create_by is None && p.gmt_modified_by is None,
    {
        FunctionParam {
            id: None,
            product_id,
            module_id: None,
            function_id,
            param_name,
            param_identifier,
            param_type,
            data_type,
            specs: None,
            rel_param_id: None,
            required: 0,
            gmt_create: None,
            gmt_modified: None,
            gmt_create_by: None,
            gmt_modified_by: None,
        }
    }

    /// The same parameter with these specs.
    pub fn with_specs(self, specs: String) -> (p: Self)
        ensures
            p == (FunctionParam { specs: Some(specs), ..self }),
    {
        FunctionParam { specs: Some(specs), ..self }
    }

    /// The same parameter, required (1) or optional (0).
    pub fn with_required(self, required: bool) -> (p: Self)
        ensures
            p == (FunctionParam { required: if required { 1i32 } else { 0i32 }, ..self }),
    {
        FunctionParam { required: if required { 1 } else { 0 }, ..self }
    }
}

} // verus!
