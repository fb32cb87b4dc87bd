//! Topic path constants.

use vstd::prelude::*;

verus! {

pub const BASIC_PRE: &'static str = "sys/";
pub const REGION_PRE: &'static str = "region/";
pub const REPLY_SUF: &'static str = "_reply";
pub const SERVICE: &'static str = "/service";
pub const EVENT: &'static str = "/event";
pub const PROPERTIES: &'static str = "/properties";
pub const PROPERTY: &'static str = "/property";
pub const THING: &'static str = "thing";
pub const PLATFORM: &'static str = "platform";
pub const APP: &'static str = "app";
pub const DEVICE: &'static str = "/device";
pub const MODEL: &'static str = "/model";
pub const CONFIG: &'static str = "/config";
pub const POST: &'static str = "/post";
pub const SET: &'static str = "/set";
pub const REQUEST: &'static str = "/request";
pub const REGISTER: &'static str = "/register";
pub const DYNAMIC_REGISTER: &'static str = "/dynamic_register";
pub const NTP: &'static str = "/ntp";
pub const PONG: &'static str = "/pong";
pub const UPDATE_TOPO: &'static str = "/update_topo";
pub const STATE: &'static str = "/state";
pub const INFO: &'static str = "info";
pub const WARNING: &'static str = "warning";
pub const ERROR: &'static str = "error";

} // verus!
