//! Device registration: checking secrets, the reply to a registration and
//! the secret of a dynamically created device.

use vstd::prelude::*;
use crate::clock::{is_clock_millis, is_uuid_text, new_uuid_text, now_millis};
use crate::domain::device::Device;
use crate::domain::message::{refuse_code, success_code, CommonTopicResponse, ResponseCode};
use crate::outside::{json_is_null, json_null};
use crate::sdk_message::{default_version, protocol_version};
use crate::text::{chars_of, equal_str, owned, owned_opt, string_of_range};

verus! {

/// Whether a character is no hyphen.
pub open spec fn hyphen_free() -> spec_fn(char) -> bool {
    |c: char| c != '-'
}

/// The secret of a dynamically registered device: the text of a random
/// UUID with its hyphens removed, cut to its first 16 characters.
pub open spec fn device_secret_spec(uuid: Seq<char>) -> Seq<char> {
    uuid.filter(hyphen_free()).take(16)
}

/// Whether a character is a lower-case hexadecimal digit.
pub open spec fn is_hex_lower(c: char) -> bool {
    ('0' <= c && c <= '9') || ('a' <= c && c <= 'f')
}

proof fn lemma_prefix_filter(u: Seq<char>, i: int)
    requires
        is_uuid_text(u),
        0 <= i <= 18,
    ensures
        u.take(i).filter(hyphen_free()).len() == i - (if i > 8 { 1int } else { 0int }) - (if i > 13 { 1int } else { 0int }),
        forall|j: int| 0 <= j < u.take(i).filter(hyphen_free()).len()
            ==> is_hex_lower(#[trigger] u.take(i).filter(hyphen_free())[j]),
    decreases i,
{
    if i == 0 {
        assert(u.take(0) =~= Seq::<char>::empty());
        reveal(Seq::filter);
    } else {
        lemma_prefix_filter(u, i - 1);
        assert(u.take(i) =~= u.take(i - 1).push(u[i - 1]));
        u.take(i - 1).lemma_filter_push(u[i - 1], hyphen_free());
    }
}

/// A device secret made from a UUID has 16 characters, each a lower-case
/// hexadecimal digit.
pub proof fn law_device_secret_shape(u: Seq<char>)
    requires
        is_uuid_text(u),
    ensures
        device_secret_spec(u).len() == 16,
        forall|j: int| 0 <= j < 16 ==> is_hex_lower(#[trigger] device_secret_spec(u)[j]),
{
    lemma_prefix_filter(u, 18);
    let f = u.take(18).filter(hyphen_free());
    assert(u =~= u.take(18) + u.skip(18));
    Seq::filter_distributes_over_add(u.take(18), u.skip(18), hyphen_free());
    assert((f + u.skip(18).filter(hyphen_free())).take(16) =~= f);
}

/// The device secret made from a UUID text.
pub fn device_secret_from_uuid(uuid: &str) -> (s: String)
    requires
        is_uuid_text(uuid@),
    ensures
        s@ == device_secret_spec(uuid@),
{
    let cs = chars_of(uuid);
    let mut out: Vec<char> = Vec::new();
    let mut i: usize = 0;
    while i < 18
        invariant
            i <= 18,
            cs@ == uuid@,
            is_uuid_text(uuid@),
            out@ == uuid@.take(i as int).filter(hyphen_free()),
            out.len() == i - (if i > 8 { 1int } else { 0int }) - (if i > 13 { 1int } else { 0int }),
        decreases 18 - i,
    {
        let c = cs[i];
        proof {
            assert(uuid@.take(i + 1) =~= uuid@.take(i as int).push(c));
            uuid@.take(i as int).lemma_filter_push(c, hyphen_free());
            assert(c == uuid@[i as int]);
            assert((c == '-') <==> (i == 8 || i == 13));
        }
        if c != '-' {
            out.push(c);
        }
        i = i + 1;
    }
    proof {
        let u = uuid@;
        let f = u.take(18).filter(hyphen_free());
        assert(u =~= u.take(18) + u.skip(18));
        Seq::filter_distributes_over_add(u.take(18), u.skip(18), hyphen_free());
        assert((f + u.skip(18).filter(hyphen_free())).take(16) =~= f);
    }
    string_of_range(&out, 0, out.len())
}

/// A fresh device secret: 16 characters of a random UUID without hyphens.
pub fn generate_device_secret() -> (s: String)
    ensures
        exists|u: Seq<char>| is_uuid_text(u) && s@ == device_secret_spec(u),
{
    let u = new_uuid_text();
    device_secret_from_uuid(u.as_str())
}

/// Whether the product secret given matches the stored one (there must be
/// one).
pub fn product_secret_matches(stored: Option<&str>, given: &str) -> (b: bool)
    ensures
        b == (stored matches Some(s) && s@ == given@),
{
    match stored {
        Some(s) => equal_str(s, given),
        None => false,
    }
}

/// Why a static registration is refused: an invalid product secret is
/// checked first, then the device secret.
pub open spec fn static_refusal(product_ok: bool, device_ok: bool) -> Option<Seq<char>> {
    if !product_ok {
        Some("invalid product secret"@)
    } else if !device_ok {
        Some("invalid device secret"@)
    } else {
        None
    }
}

/// The reason a static registration is refused, if it is.
pub fn static_register_refusal(product_ok: bool, device_ok: bool) -> (r: Option<&'static str>)
    ensures
        match r {
            Some(t) => static_refusal(product_ok, device_ok) == Some(t@),
            None => static_refusal(product_ok, device_ok) is None,
        },
{
    if !product_ok {
        Some("invalid product secret")
    } else if !device_ok {
        Some("invalid device secret")
    } else {
        None
    }
}

/// The reason a dynamic registration is refused, if it is.
pub fn dynamic_register_refusal(product_ok: bool) -> (r: Option<&'static str>)
    ensures
        match r {
            Some(t) => !product_ok && t@ == "invalid product secret"@,
            None => product_ok,
        },
{
    if !product_ok { Some("invalid product secret") } else { None }
}

/// The method of a registration reply.
pub open spec fn register_method_spec(dynamic: bool) -> Seq<char> {
    if dynamic { "thing.dynamic_register"@ } else { "thing.register"@ }
}

/// The method of a registration reply: `thing.dynamic_register` or
/// `thing.register`.
pub fn register_method(dynamic: bool) -> (m: &'static str)
    ensures
        m@ == register_method_spec(dynamic),
{
    if dynamic { "thing.dynamic_register" } else { "thing.register" }
}

/// The reply to a registration: no ids, the method, the device, `null`
/// data; code `1` with the refusal reason, or code `200` and `success`.
pub fn register_response(method: &str, product_key: &str, device_id: &str, refusal: Option<&str>) -> (r: CommonTopicResponse<serde_json::Value>)
    ensures
        r.tid is None && r.bid is None,
        r.version@ == protocol_version(),
        r.timestamp matches Some(t) && is_clock_millis(t),
        r.method matches Some(m) && m@ == method@,
        r.product_key matches Some(p) && p@ == product_key@,
        r.device_id matches Some(d) && d@ == device_id@,
        json_is_null(r.data),
        match refusal {
            Some(why) => (r.code matches Some(c) && c@ == refuse_code())
                && (r.message matches Some(m) && m@ == why@),
            None => (r.code matches Some(c) && c@ == success_code())
                && (r.message matches Some(m) && m@ == "success"@),
        },
{
    let (code, message) = match refusal {
        Some(why) => (owned(ResponseCode::REFUSE), owned(why)),
        None => (owned(ResponseCode::SUCCESS), owned("success")),
    };
    CommonTopicResponse {
        tid: None,
        bid: None,
        version: default_version(),
        timestamp: Some(now_millis()),
        method: Some(owned(method)),
        product_key: Some(owned(product_key)),
        device_id: Some(owned(device_id)),
        data: json_null(),
        code: Some(code),
        message: Some(message),
    }
}

/// A device created by dynamic registration: its keys, its name if given and
/// its secret, not yet activated.
pub fn new_dynamic_device(product_key: &str, device_id: &str, device_name: Option<&str>, secret: String) -> (d: Device)
    ensures
        d.product_key@ == product_key@,
        d.device_id@ == device_id@,
        match device_name {
            Some(n) => d.device_name matches Some(m) && m@ == n@,
            None => d.device_name is None,
        },
        d.device_secret == Some(secret),
        d.device_status == crate::domain::device::DeviceStatus::NotActive,
{
    let mut device = Device::new(owned(product_key), owned(device_id));
    device.device_name = owned_opt(device_name);
    device.device_secret = Some(secret);
    device
}

} // verus!
