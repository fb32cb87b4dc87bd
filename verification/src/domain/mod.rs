//! Entities and message shapes of the platform service.

pub mod device;
pub mod device_config;
pub mod device_type;
pub mod event;
pub mod function_param;
pub mod link;
pub mod message;
pub mod product;
pub mod product_function;
pub mod shadow;
pub mod thing_model;
pub mod topic;
