//! Multi-link routing: which link of a device a message goes over and the
//! device id that names it in topics.

use vstd::prelude::*;
use crate::text::{concat3, owned};

verus! {

/// Weight added to a link per message received on it.
pub const WEIGHT_INCREMENT: u32 = 1;

/// The link a message arrived on, if it names one (a non-empty suffix).
pub open spec fn checked_link(link_suffix: Option<Seq<char>>) -> Option<Seq<char>> {
    match link_suffix {
        Some(s) => if s.len() > 0 { Some(s) } else { None },
        None => None,
    }
}

/// The device id that names a link in topics: `{did}_{link}`, or the bare
/// id for a single-link device.
pub open spec fn target_device_id_spec(did: Seq<char>, link: Option<Seq<char>>) -> Seq<char> {
    match link {
        Some(l) => did + "_"@ + l,
        None => did,
    }
}

/// The link a message arrived on, whose weight is then raised; `None` when
/// the message names no link.
pub fn check_link(link_suffix: Option<&str>) -> (r: Option<String>)
    ensures
        match link_suffix {
            Some(s) => match r {
                Some(t) => checked_link(Some(s@)) == Some(t@),
                None => checked_link(Some(s@)) is None,
            },
            None => r is None,
        },
{
    match link_suffix {
        Some(s) => if !s.is_empty() { Some(owned(s)) } else { None },
        None => None,
    }
}

/// What selecting a link does after looking up the manually set active link:
/// finish with a result, or go on to look up the link with the highest
/// weight.
#[derive(Debug)]
pub enum LinkStep<E> {
    /// Selecting is over with this result
    Done(Result<Option<String>, E>),
    /// Look up the highest-weight link and hand its result to
    /// `select_link_with_best`
    LookUpBest,
}

/// The first step of choosing the link to send over, given the lookup of
/// the manually set active link: an active link is used (the best link is
/// not looked up); a failed lookup ends with its error; with no active link
/// the highest-weight link is looked up next.
pub fn select_link<E>(active: Result<Option<String>, E>) -> (s: LinkStep<E>)
    ensures
        match active {
            Ok(Some(a)) => s == LinkStep::<E>::Done(Ok(Some(a))),
            Ok(None) => s is LookUpBest,
            Err(e) => s == LinkStep::<E>::Done(Err(e)),
        },
{
    match active {
        Ok(Some(a)) => LinkStep::Done(Ok(Some(a))),
        Ok(None) => LinkStep::LookUpBest,
        Err(e) => LinkStep::Done(Err(e)),
    }
}

/// The second step, after the highest-weight link was looked up because no
/// link was set active: that link is used; none found means a single-link
/// device (`Ok(None)`); a failed lookup ends with its error.
pub fn select_link_with_best<E>(best: Result<Option<String>, E>) -> (r: Result<Option<String>, E>)
    ensures
        match best {
            Ok(Some(b)) => r == Ok::<Option<String>, E>(Some(b)),
            Ok(None) => r == Ok::<Option<String>, E>(None),
            Err(e) => r == Err::<Option<String>, E>(e),
        },
{
    match best {
        Ok(Some(b)) => Ok(Some(b)),
        Ok(None) => Ok(None),
        Err(e) => Err(e),
    }
}

/// The device id segment of a topic for the chosen link.
pub fn resolve_target_device_id(device_id: &str, link: Option<&str>) -> (t: String)
    ensures
        t@ == target_device_id_spec(device_id@, match link { Some(l) => Some(l@), None => None }),
{
    match link {
        Some(l) => concat3(device_id, "_", l),
        None => owned(device_id),
    }
}

/// The device id segment to publish to: the one multi-link routing
/// resolved, or the plain device id when there is no routing or it failed.
pub fn target_or_plain(resolved: Option<String>, device_id: &str) -> (t: String)
    ensures
        match resolved {
            Some(r) => t == r,
            None => t@ == device_id@,
        },
{
    match resolved {
        Some(r) => r,
        None => owned(device_id),
    }
}

} // verus!
