//! Wall-clock time and random identifiers.
//!
//! Both depend on the machine (the clock, the random source), so their
//! contracts only state what holds of every outcome.

use vstd::prelude::*;

verus! {

/// A point in time of the system clock.
#[verifier::external_type_specification]
#[verifier::external_body]
pub struct ExSystemTime(std::time::SystemTime);

/// A universally unique identifier.
#[verifier::external_type_specification]
#[verifier::external_body]
pub struct ExUuid(uuid::Uuid);

/// The current time of the system clock (`SystemTime::now`). Nothing is
/// stated of it: it is the machine's time.
#[verifier::external_body]
fn system_now() -> (t: std::time::SystemTime) {
    std::time::SystemTime::now()
}

/// How long after the Unix epoch a time lies, `None` before it.
pub uninterp spec fn since_epoch(t: std::time::SystemTime) -> Option<core::time::Duration>;

/// `SystemTime::duration_since(UNIX_EPOCH)`, `None` where the time lies
/// before the epoch.
#[verifier::external_body]
fn duration_since_epoch(t: &std::time::SystemTime) -> (d: Option<core::time::Duration>)
    ensures
        d == since_epoch(*t),
{
    t.duration_since(std::time::UNIX_EPOCH).ok()
}

/// The whole milliseconds of a duration.
pub uninterp spec fn millis_of(d: core::time::Duration) -> u128;

/// `Duration::as_millis`.
#[verifier::external_body]
fn duration_millis(d: &core::time::Duration) -> (ms: u128)
    ensures
        ms == millis_of(*d),
{
    d.as_millis()
}

/// What a reading of the system clock gives in milliseconds since the Unix
/// epoch: `None` for a time before the epoch.
pub open spec fn epoch_reading(t: std::time::SystemTime) -> Option<u128> {
    match since_epoch(t) {
        Some(d) => Some(millis_of(d)),
        None => None,
    }
}

/// A clock reading as signed milliseconds (truncated to 64 bits), `0` before
/// the epoch.
pub open spec fn epoch_millis_i64(t: std::time::SystemTime) -> i64 {
    match epoch_reading(t) {
        Some(ms) => ms as i64,
        None => 0,
    }
}

/// A clock reading as unsigned milliseconds (truncated to 64 bits), `0`
/// before the epoch.
pub open spec fn epoch_millis_u64(t: std::time::SystemTime) -> u64 {
    match epoch_reading(t) {
        Some(ms) => ms as u64,
        None => 0,
    }
}

/// Milliseconds since the Unix epoch by the system clock, or `None` when the
/// clock stands before the epoch.
pub(crate) fn epoch_millis() -> (r: Option<u128>)
    ensures
        exists|t: std::time::SystemTime| r == #[trigger] epoch_reading(t),
{
    let t = system_now();
    match duration_since_epoch(&t) {
        Some(d) => {
            let ms = duration_millis(&d);
            assert(Some(ms) == epoch_reading(t));
            Some(ms)
        },
        None => {
            assert(None::<u128> == epoch_reading(t));
            None
        },
    }
}

/// Whether `s` is the text of a UUID in its hyphenated lower-case form:
/// 36 characters, `-` at positions 8, 13, 18 and 23, lower-case hex digits
/// everywhere else.
pub open spec fn is_uuid_text(s: Seq<char>) -> bool {
    &&& s.len() == 36
    &&& forall|i: int| 0 <= i < 36 ==> {
        if i == 8 || i == 13 || i == 18 || i == 23 {
            #[trigger] s[i] == '-'
        } else {
            ('0' <= s[i] && s[i] <= '9') || ('a' <= s[i] && s[i] <= 'f')
        }
    }
}

/// A random (version 4) UUID (`Uuid::new_v4`). Nothing is stated of it: it
/// is random.
#[verifier::external_body]
fn uuid_v4() -> (u: uuid::Uuid) {
    uuid::Uuid::new_v4()
}

/// The text the `Display` impl of `Uuid` writes.
pub uninterp spec fn uuid_display(u: uuid::Uuid) -> Seq<char>;

/// `Uuid::to_string`: `Display` writes the hyphenated form in lower-case
/// hexadecimal digits (it forwards to `LowerHex` of `as_hyphenated`).
#[verifier::external_body]
fn uuid_text(u: &uuid::Uuid) -> (s: String)
    ensures
        s@ == uuid_display(*u),
        is_uuid_text(s@),
{
    u.to_string()
}

/// A fresh random UUID as text, in its hyphenated lower-case form.
pub(crate) fn new_uuid_text() -> (s: String)
    ensures
        is_uuid_text(s@),
{
    let u = uuid_v4();
    uuid_text(&u)
}

/// Whether `t` is what `now_millis` gives for some reading of the system
/// clock: the milliseconds since the Unix epoch of that reading (truncated to
/// 64 bits), or `0` for a reading before the epoch.
pub open spec fn is_clock_millis(t: i64) -> bool {
    exists|st: std::time::SystemTime| t == #[trigger] epoch_millis_i64(st)
}

/// The unsigned form of `is_clock_millis`.
pub open spec fn is_clock_millis_u64(t: u64) -> bool {
    exists|st: std::time::SystemTime| t == #[trigger] epoch_millis_u64(st)
}

/// The current time in milliseconds since the Unix epoch, `0` when the clock
/// stands before the epoch.
pub fn now_millis() -> (t: i64)
    ensures
        is_clock_millis(t),
{
    let r = epoch_millis();
    let ghost st = choose|st: std::time::SystemTime| r == #[trigger] epoch_reading(st);
    let t: i64 = match r {
        Some(ms) => ms as i64,
        None => 0,
    };
    assert(t == epoch_millis_i64(st));
    t
}

/// The current time in milliseconds since the Unix epoch, `0` when the clock
/// stands before the epoch (the timestamp of a message).
pub fn chrono_timestamp_ms() -> (t: i64)
    ensures
        is_clock_millis(t),
{
    now_millis()
}

} // verus!
