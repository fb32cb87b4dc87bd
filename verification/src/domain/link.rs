//! Multi-link routing configuration.
//!
//! A link and the weight configuration carry floating-point weights and are
//! kept outside the verified library.

use vstd::prelude::*;

verus! {

/// Multi-link access strategy.
#[derive(Debug, Clone, Copy, PartialEq, Eq, Structural)]
pub enum LinkAccessStrategy {
    /// Automatic — use highest-weight link
    Acs,
    /// Manual — use designated master link
    Master,
    /// Broadcast — send to all links
    All,
}

/// Multi-link method routing configuration: which link strategy a service
/// method uses.
#[derive(Debug, Clone)]
pub struct MultilinkMethodConfig {
    pub product_key: String,
    /// Service/event method name
    pub method: String,
    /// Access strategy for this method
    pub acs: LinkAccessStrategy,
    /// Method type (SERVICE, EVENTS, PROPERTIES)
    pub method_type: String,
}

} // verus!
