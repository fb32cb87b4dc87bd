//! Function parameter management rules.

use vstd::prelude::*;
use crate::domain::function_param::FunctionParam;
use crate::error::TsLinkError;
use crate::text::{dec_int, i64_to_dec, owned, push_str};

verus! {

/// The error for creating a parameter whose identifier is taken for its type.
pub fn param_exists_error(identifier: &str, param_type: &str) -> (e: TsLinkError)
    ensures
        e matches TsLinkError::Internal(t) && t@ == "Function param with identifier '"@ + identifier@
            + "' already exists for type '"@ + param_type@ + "'"@,
{
    let mut t = owned("Function param with identifier '");
    push_str(&mut t, identifier);
    push_str(&mut t, "' already exists for type '");
    push_str(&mut t, param_type);
    push_str(&mut t, "'");
    TsLinkError::Internal(t)
}

/// The error for updating a parameter that does not exist.
pub fn param_not_found_error(id: i64) -> (e: TsLinkError)
    ensures
        e matches TsLinkError::Internal(t) && t@ == "Function param with id '"@ + dec_int(id as int) + "' not found"@,
{
    let mut t = owned("Function param with id '");
    let n = i64_to_dec(id);
    push_str(&mut t, n.as_str());
    push_str(&mut t, "' not found");
    TsLinkError::Internal(t)
}

/// A created parameter: the same with its new id.
pub fn with_id(param: FunctionParam, id: i64) -> (p: FunctionParam)
    ensures
        p == (FunctionParam { id: Some(id), ..param }),
{
    FunctionParam { id: Some(id), ..param }
}

} // verus!
