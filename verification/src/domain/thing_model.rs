//! The thing model (device model) of a product: its properties, services and
//! events.

use vstd::prelude::*;
use crate::table::KeyedTable;

verus! {

/// Call type for service invocation.
#[derive(Debug, Clone, Copy, PartialEq, Eq, Structural)]
pub enum CallType {
    /// Synchronous call — wait for device response
    Sync,
    /// Asynchronous call — fire and forget
    Async,
}

/// Device model type for multi-link routing.
#[derive(Debug, Clone, Copy, PartialEq, Eq, Structural)]
pub enum DeviceModelType {
    Service,
    Events,
    Properties,
}

/// Data type descriptor for method fields.
#[derive(Debug, Clone)]
pub struct MethodFieldDataType {
    /// Type name (e.g., "int", "float", "text", "bool", "enum", "array", "struct")
    pub data_type: String,
    /// Type-specific specs (min, max, unit, etc.)
    pub specs: Option<serde_json::Value>,
}

/// Method field definition.
#[derive(Debug)]
pub struct MethodField {
    pub id: Option<i64>,
    pub name: String,
    pub identifier: String,
    pub data_type: Option<MethodFieldDataType>,
    pub required: bool,
    pub desc: Option<String>,
    pub expands: Option<KeyedTable<serde_json::Value>>,
}

/// Function/service method definition.
#[derive(Debug)]
pub struct FunctionMethod {
    pub identifier: String,
    pub method: String,
    pub name: Option<String>,
    pub call_type: Option<CallType>,
    pub desc: Option<String>,
    pub input_fields: Vec<MethodField>,
    pub output_fields: Vec<MethodField>,
    pub expands: Option<KeyedTable<serde_json::Value>>,
}

/// Complete device model definition.
#[derive(Debug)]
pub struct DeviceModel {
    pub name: Option<String>,
    pub product_key: String,
    pub device_id: Option<String>,
    pub product_version: Option<String>,
    pub product_type: Option<String>,
    /// Property definitions
    pub properties: Vec<MethodField>,
    /// Service definitions (keyed by method name)
    pub services: KeyedTable<FunctionMethod>,
    /// Event definitions (keyed by identifier)
    pub events: KeyedTable<FunctionMethod>,
    /// Config definitions
    pub configs: Vec<MethodField>,
}

/// Whether a model declares the service `method` as synchronous.
pub open spec fn is_sync_service_spec(services: Map<Seq<char>, FunctionMethod>, method: Seq<char>) -> bool {
    services.dom().contains(method) && services[method].call_type == Some(CallType::Sync)
}

/// A service counts as synchronous exactly when the model declares its call
/// type `Sync`: an asynchronous service, one without a call type and an
/// unknown method are never synchronous.
pub proof fn law_sync_service_only_when_declared_sync(services: Map<Seq<char>, FunctionMethod>, method: Seq<char>)
    ensures
        services.dom().contains(method) && services[method].call_type == Some(CallType::Sync)
            ==> is_sync_service_spec(services, method),
        services.dom().contains(method) && services[method].call_type == Some(CallType::Async)
            ==> !is_sync_service_spec(services, method),
        services.dom().contains(method) && services[method].call_type is None
            ==> !is_sync_service_spec(services, method),
        !services.dom().contains(method) ==> !is_sync_service_spec(services, method),
{
}

impl DeviceModel {
    /// The service with this method name.
    pub fn get_service(&self, method: &str) -> (r: Option<&FunctionMethod>)
        ensures
            r is Some == self.services@.dom().contains(method@),
            r matches Some(f) ==> *f == self.services@[method@],
    {
        self.services.get(method)
    }

    /// The event with this identifier.
    pub fn get_event(&self, identifier: &str) -> (r: Option<&FunctionMethod>)
        ensures
            r is Some == self.events@.dom().contains(identifier@),
            r matches Some(f) ==> *f == self.events@[identifier@],
    {
        self.events.get(identifier)
    }

    /// Whether the service with this method name is synchronous; `false`
    /// for an unknown service or one without a call type.
    pub fn is_sync_service(&self, method: &str) -> (b: bool)
        ensures
            b == is_sync_service_spec(self.services@, method@),
    {
        match self.services.get(method) {
            Some(s) => match s.call_type {
                Some(ct) => ct == CallType::Sync,
                None => false,
            },
            None => false,
        }
    }
}

} // verus!
