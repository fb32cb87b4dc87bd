//! Verified core of the TSLink IoT platform and its device SDK.

pub mod outside;
pub mod table;
pub mod text;
pub mod enums;
pub mod error;
pub mod sdk_error;
pub mod clock;
pub mod service;
pub mod sdk_message;
pub mod adapter;
pub mod channel;
pub mod client;
pub mod discovery;
pub mod domain;
pub mod settings;
pub mod application;
pub mod interop;
