//! Configuration of the platform service and the defaults of its optional
//! settings. Loading it from files and the environment is the caller's part.

use vstd::prelude::*;
use crate::text::owned;

verus! {

/// Top-level application configuration.
#[derive(Debug, Clone)]
pub struct AppConfig {
    pub app: AppSettings,
    pub mqtt: MqttConfig,
    pub redis: RedisConfig,
    pub kafka: KafkaConfig,
    pub database: DatabaseConfig,
    pub http: HttpConfig,
}

/// Application name and environment.
#[derive(Debug, Clone)]
pub struct AppSettings {
    pub name: String,
    pub env: String,
}

/// MQTT broker connection of the platform.
#[derive(Debug, Clone)]
pub struct MqttConfig {
    pub host: String,
    pub port: u16,
    pub client_id: String,
    pub username: String,
    pub password: String,
    pub keep_alive_secs: u64,
    pub clean_session: bool,
    pub max_packet_size: usize,
    pub inflight: u16,
    pub subscribe_topics: Vec<String>,
}

/// Redis connection.
#[derive(Debug, Clone)]
pub struct RedisConfig {
    pub url: String,
    pub pool_size: usize,
    pub key_prefix: String,
}

/// Kafka connection and topics.
#[derive(Debug, Clone)]
pub struct KafkaConfig {
    pub brokers: String,
    pub topic_prefix: String,
    pub event_topic: String,
    pub property_topic: String,
}

/// Database connection pool.
#[derive(Debug, Clone)]
pub struct DatabaseConfig {
    pub url: String,
    pub max_connections: u32,
    pub min_connections: u32,
    pub connect_timeout_secs: u64,
}

/// HTTP server.
#[derive(Debug, Clone)]
pub struct HttpConfig {
    pub host: String,
    pub port: u16,
    pub request_timeout_secs: u64,
}

/// Default MQTT keep-alive: 30 seconds.
pub fn default_keep_alive() -> (v: u64)
    ensures v == 30,
{
    30
}

/// Default clean-session flag: set.
pub fn default_true() -> (v: bool)
    ensures v,
{
    true
}

/// Default MQTT packet size limit: 65536 bytes.
pub fn default_max_packet_size() -> (v: usize)
    ensures v == 65536,
{
    65536
}

/// Default MQTT in-flight limit: 100.
pub fn default_inflight() -> (v: u16)
    ensures v == 100,
{
    100
}

/// Default Redis pool size: 8.
pub fn default_pool_size() -> (v: usize)
    ensures v == 8,
{
    8
}

/// Default Redis key prefix: `tslink:`.
pub fn default_key_prefix() -> (v: String)
    ensures v@ == "tslink:"@,
{
    owned("tslink:")
}

/// Default Kafka topic prefix: `tslink.`.
pub fn default_topic_prefix() -> (v: String)
    ensures v@ == "tslink."@,
{
    owned("tslink.")
}

/// Default Kafka event topic: `tslink.device.event`.
pub fn default_event_topic() -> (v: String)
    ensures v@ == "tslink.device.event"@,
{
    owned("tslink.device.event")
}

/// Default Kafka property topic: `tslink.device.property`.
pub fn default_property_topic() -> (v: String)
    ensures v@ == "tslink.device.property"@,
{
    owned("tslink.device.property")
}

/// Default maximum database connections: 10.
pub fn default_max_connections() -> (v: u32)
    ensures v == 10,
{
    10
}

/// Default minimum database connections: 2.
pub fn default_min_connections() -> (v: u32)
    ensures v == 2,
{
    2
}

/// Default database connect timeout: 10 seconds.
pub fn default_connect_timeout() -> (v: u64)
    ensures v == 10,
{
    10
}

/// Default HTTP host: `0.0.0.0`.
pub fn default_http_host() -> (v: String)
    ensures v@ == "0.0.0.0"@,
{
    owned("0.0.0.0")
}

/// Default HTTP port: 8080.
pub fn default_http_port() -> (v: u16)
    ensures v == 8080,
{
    8080
}

/// Default HTTP request timeout: 30 seconds.
pub fn default_request_timeout() -> (v: u64)
    ensures v == 30,
{
    30
}

} // verus!
