//! Product entity.

use vstd::prelude::*;
use crate::domain::device::ProductType;

verus! {

/// Product entity. Times are milliseconds since the Unix epoch.
#[derive(Debug, Clone)]
pub struct Product {
    pub id: Option<i64>,
    pub product_key: String,
    pub product_secret: Option<String>,
    pub name: Option<String>,
    pub product_version: Option<String>,
    pub product_type: Option<ProductType>,
    pub description: Option<String>,
    pub gmt_create: Option<i64>,
    pub gmt_modified: Option<i64>,
}

impl Product {
    /// A product with only its key set.
    pub fn new(product_key: String) -> (p: Self)
        ensures
            p.product_key == product_key,
            p.id is None && p.product_secret is None && p.name is None,
            p.product_version is None && p.product_type is None && p.description is None,
            p.gmt_create is None && p.gmt_modified is None,
    {
        Product {
            id: None,
            product_key,
            product_secret: None,
            name: None,
            product_version: None,
            product_type: None,
            description: None,
            gmt_create: None,
            gmt_modified: None,
        }
    }
}

} // verus!
