//! What the device side and the platform side agree on: the topics the
//! platform publishes to reach a device are the ones the device subscribes to
//! from the start, and the device id of a link is the one topics carry.

use vstd::prelude::*;
use crate::adapter::{has_char, lemma_split_append, lemma_split_single};
use crate::application::event_service::event_reply_topic_spec;
use crate::application::link_service::target_device_id_spec;
use crate::application::thing_service::property_set_topic_spec;
use crate::channel::default_topics_spec;
use crate::client::device_service_topic_spec;
use crate::domain::topic::full_device_id_spec;
use crate::enums::{event_type_text, EventType};
use crate::text::split_spec;

verus! {

/// Whether one segment of a topic filter admits a topic segment: a `+`
/// admits any segment, any other segment only itself.
pub open spec fn segment_matches(filter_segment: Seq<char>, topic_segment: Seq<char>) -> bool {
    filter_segment == "+"@ || filter_segment == topic_segment
}

/// Whether a topic filter made of literal segments and single-level `+`
/// wildcards matches a topic: as many `/`-segments, each admitted.
pub open spec fn filter_matches(filter: Seq<char>, topic: Seq<char>) -> bool {
    let fs = split_spec(filter, '/');
    let ts = split_spec(topic, '/');
    &&& fs.len() == ts.len()
    &&& forall|i: int| 0 <= i < fs.len() ==> segment_matches(#[trigger] fs[i], ts[i])
}

/// Seven segments without `/` joined by `/`.
pub open spec fn join7(
    a: Seq<char>, b: Seq<char>, c: Seq<char>, d: Seq<char>, e: Seq<char>, f: Seq<char>, g: Seq<char>,
) -> Seq<char> {
    a + seq!['/'] + b + seq!['/'] + c + seq!['/'] + d + seq!['/'] + e + seq!['/'] + f + seq!['/'] + g
}

/// Splitting seven segments without `/` joined by `/` gives them back.
pub proof fn lemma_split7(
    a: Seq<char>, b: Seq<char>, c: Seq<char>, d: Seq<char>, e: Seq<char>, f: Seq<char>, g: Seq<char>,
)
    requires
        !has_char(a, '/'), !has_char(b, '/'), !has_char(c, '/'), !has_char(d, '/'),
        !has_char(e, '/'), !has_char(f, '/'), !has_char(g, '/'),
    ensures
        split_spec(join7(a, b, c, d, e, f, g), '/') == seq![a, b, c, d, e, f, g],
{
    let p1 = a + seq!['/'] + b;
    let p2 = p1 + seq!['/'] + c;
    let p3 = p2 + seq!['/'] + d;
    let p4 = p3 + seq!['/'] + e;
    let p5 = p4 + seq!['/'] + f;
    lemma_split_single(a, '/');
    lemma_split_append(a, b, '/');
    lemma_split_append(p1, c, '/');
    lemma_split_append(p2, d, '/');
    lemma_split_append(p3, e, '/');
    lemma_split_append(p4, f, '/');
    lemma_split_append(p5, g, '/');
    assert(split_spec(join7(a, b, c, d, e, f, g), '/') =~= seq![a, b, c, d, e, f, g]);
}

proof fn lemma_literals()
    ensures
        !has_char("sys"@, '/'),
        !has_char("thing"@, '/'),
        !has_char("service"@, '/'),
        !has_char("event"@, '/'),
        !has_char("post"@, '/'),
        !has_char("+"@, '/'),
        !has_char("info_reply"@, '/'),
        !has_char("warning_reply"@, '/'),
        !has_char("error_reply"@, '/'),
        "info"@ + "_reply"@ == "info_reply"@,
        "warning"@ + "_reply"@ == "warning_reply"@,
        "error"@ + "_reply"@ == "error_reply"@,
        "+"@ != "sys"@,
{
    reveal_strlit("sys");
    reveal_strlit("thing");
    reveal_strlit("service");
    reveal_strlit("event");
    reveal_strlit("post");
    reveal_strlit("+");
    reveal_strlit("info_reply");
    reveal_strlit("warning_reply");
    reveal_strlit("error_reply");
    reveal_strlit("info");
    reveal_strlit("warning");
    reveal_strlit("error");
    reveal_strlit("_reply");
    assert("info"@ + "_reply"@ =~= "info_reply"@);
    assert("warning"@ + "_reply"@ =~= "warning_reply"@);
    assert("error"@ + "_reply"@ =~= "error_reply"@);
}

/// A property-set command the platform sends to a device goes to the first
/// topic the device subscribes to.
pub proof fn law_property_set_reaches_device(pk: Seq<char>, did: Seq<char>)
    ensures
        default_topics_spec(pk, did)[0] == property_set_topic_spec(pk, did),
{
}

/// A service call the platform sends to a device (on the device's own id)
/// matches the device's subscription `sys/{pk}/{did}/thing/service/+/post`,
/// for keys and a method without `/`.
pub proof fn law_service_call_reaches_device(pk: Seq<char>, did: Seq<char>, method: Seq<char>)
    requires
        !has_char(pk, '/'),
        !has_char(did, '/'),
        !has_char(method, '/'),
    ensures
        filter_matches(default_topics_spec(pk, did)[1], device_service_topic_spec(method, pk, did)),
{
    lemma_literals();
    reveal_strlit("sys");
    reveal_strlit("thing");
    reveal_strlit("service");
    reveal_strlit("event");
    reveal_strlit("post");
    reveal_strlit("+");
    reveal_strlit("info_reply");
    reveal_strlit("warning_reply");
    reveal_strlit("error_reply");
    reveal_strlit("sys/");
    reveal_strlit("/");
    reveal_strlit("/thing/service/+/post");
    reveal_strlit("/thing/service/");
    reveal_strlit("/post");
    let filter = default_topics_spec(pk, did)[1];
    let topic = device_service_topic_spec(method, pk, did);
    assert(filter =~= join7("sys"@, pk, did, "thing"@, "service"@, "+"@, "post"@));
    assert(topic =~= join7("sys"@, pk, did, "thing"@, "service"@, method, "post"@));
    lemma_split7("sys"@, pk, did, "thing"@, "service"@, "+"@, "post"@);
    lemma_split7("sys"@, pk, did, "thing"@, "service"@, method, "post"@);
}

/// The acknowledgement the platform sends for a device's event matches the
/// device's subscription `sys/{pk}/{did}/thing/event/+/{level}_reply` for
/// that event's level, for keys and an event name without `/`.
pub proof fn law_event_ack_reaches_device(pk: Seq<char>, did: Seq<char>, name: Seq<char>, level: EventType)
    requires
        !has_char(pk, '/'),
        !has_char(did, '/'),
        !has_char(name, '/'),
    ensures
        filter_matches(
            default_topics_spec(pk, did)[match level { EventType::Info => 4int, EventType::Warning => 5int, EventType::Error => 6int }],
            event_reply_topic_spec(pk, did, name, event_type_text(level)),
        ),
{
    lemma_literals();
    reveal_strlit("sys");
    reveal_strlit("thing");
    reveal_strlit("service");
    reveal_strlit("event");
    reveal_strlit("post");
    reveal_strlit("+");
    reveal_strlit("info_reply");
    reveal_strlit("warning_reply");
    reveal_strlit("error_reply");
    reveal_strlit("sys/");
    reveal_strlit("/");
    reveal_strlit("/thing/event/");
    reveal_strlit("_reply");
    reveal_strlit("/thing/event/+/info_reply");
    reveal_strlit("/thing/event/+/warning_reply");
    reveal_strlit("/thing/event/+/error_reply");
    let i: int = match level { EventType::Info => 4int, EventType::Warning => 5int, EventType::Error => 6int };
    let tail: Seq<char> = match level {
        EventType::Info => "info_reply"@,
        EventType::Warning => "warning_reply"@,
        EventType::Error => "error_reply"@,
    };
    let filter = default_topics_spec(pk, did)[i];
    let topic = event_reply_topic_spec(pk, did, name, event_type_text(level));
    assert(event_type_text(level) + "_reply"@ == tail);
    assert(filter =~= join7("sys"@, pk, did, "thing"@, "event"@, "+"@, tail));
    assert(topic =~= join7("sys"@, pk, did, "thing"@, "event"@, name, tail));
    assert(!has_char(tail, '/'));
    lemma_split7("sys"@, pk, did, "thing"@, "event"@, "+"@, tail);
    lemma_split7("sys"@, pk, did, "thing"@, "event"@, name, tail);
}

/// The device id the platform addresses a link by is the full device id of a
/// topic that carries that link's suffix.
pub proof fn law_link_target_is_full_device_id(did: Seq<char>, link: String)
    ensures
        target_device_id_spec(did, Some(link@)) == full_device_id_spec(did, Some(link)),
        target_device_id_spec(did, None) == full_device_id_spec(did, None),
{
}

} // verus!
