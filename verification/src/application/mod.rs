//! The decisions of the platform's application services and message
//! handlers: topics, replies, registration, multi-link routing, shadow
//! replay and event forwarding. Storage, brokers and sending are the
//! caller's part.

pub mod config_service;
pub mod device_service;
pub mod device_type_service;
pub mod discovery_service;
pub mod event_bus;
pub mod event_service;
pub mod function_param_service;
pub mod handlers;
pub mod link_service;
pub mod ntp_service;
pub mod product_service;
pub mod shadow_service;
pub mod thing_service;
