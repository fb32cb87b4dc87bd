//! Routing of incoming device-protocol messages to registered executors and
//! reply handlers.
//!
//! The adapter keeps three registries: executors by method name, one unified
//! (fallback) executor, and reply handlers by transaction id. Incoming service
//! calls are routed to the most specific executor; replies are routed to the
//! handler of their transaction, which is then forgotten.

use vstd::prelude::*;
use crate::clock::{is_clock_millis, now_millis};
use crate::outside::{json_bytes, json_string, json_string_value, value_to_bytes};
use crate::enums::CommunicationChannel;
use crate::sdk_message::{CommonMessage, ReplyMessage};
use crate::service::{DeviceServiceRequest, DeviceServiceResponse, PlatformServiceResponse};
use crate::table::KeyedTable;
use crate::text::{
    concat2, concat3, contains_seq, contains_str, ends_with, equal_str, has_suffix, lossy_utf8,
    owned, split_char, split_spec, utf8_lossy, views,
};

verus! {

// ---------------------------------------------------------------------------
// Specifications of the routing rules
// ---------------------------------------------------------------------------

/// The method named by a topic: `service.{id}.post` for a topic
/// `sys/{pk}/{did}/thing/service/{id}/post` (at least seven segments with
/// `service` fifth), `thing.properties.set` for a topic that contains
/// `properties/set`, and the topic itself otherwise.
pub open spec fn method_from_topic(topic: Seq<char>) -> Seq<char> {
    let parts = split_spec(topic, '/');
    if parts.len() >= 7 && parts[4] == "service"@ {
        "service."@ + parts[5] + ".post"@
    } else if contains_seq(topic, "properties/set"@) {
        "thing.properties.set"@
    } else {
        topic
    }
}

/// The service identifier inside a method name: the third `.`-segment of a
/// `platform.…` method, else the second segment, else the whole method.
pub open spec fn service_identifier_of(method: Seq<char>) -> Seq<char> {
    let parts = split_spec(method, '.');
    if parts.len() >= 3 && parts[0] == "platform"@ {
        parts[2]
    } else if parts.len() >= 2 {
        parts[1]
    } else {
        method
    }
}

/// The service identifier inside a reply topic: its sixth `/`-segment, or
/// empty when there are fewer than six.
pub open spec fn identifier_from_topic(topic: Seq<char>) -> Seq<char> {
    let parts = split_spec(topic, '/');
    if parts.len() >= 6 {
        parts[5]
    } else {
        Seq::<char>::empty()
    }
}

/// The topic a reply to a request on `topic` is published on.
pub open spec fn reply_topic_of(topic: Seq<char>) -> Seq<char> {
    if has_suffix(topic, "/post"@) {
        topic + "_reply"@
    } else {
        topic + "/reply"@
    }
}

/// The method a message is routed by: its own method when it has one, else
/// the method named by its topic.
pub open spec fn effective_method(msg_method: Seq<char>, topic: Seq<char>) -> Seq<char> {
    if msg_method.len() != 0 {
        msg_method
    } else {
        method_from_topic(topic)
    }
}

/// The key a specific executor for service `id` is registered under.
pub open spec fn service_key(id: Seq<char>) -> Seq<char> {
    "service."@ + id + ".post"@
}

/// The executor a call is routed to: the one registered for the exact method,
/// else for `service.{method}.post`, else for `service.{identifier}.post`,
/// else the unified executor.
pub open spec fn select_executor<E>(
    executors: Map<Seq<char>, E>,
    unified: Option<E>,
    method: Seq<char>,
    identifier: Seq<char>,
) -> Option<E> {
    if executors.dom().contains(method) {
        Some(executors[method])
    } else if executors.dom().contains(service_key(method)) {
        Some(executors[service_key(method)])
    } else if executors.dom().contains(service_key(identifier)) {
        Some(executors[service_key(identifier)])
    } else {
        unified
    }
}

/// How a service call is routed: to the executor registered under the exact
/// method if there is one; otherwise under `service.{method}.post`;
/// otherwise under `service.{identifier}.post`; only when none of the three
/// is registered does it fall to the unified executor (or to none).
pub proof fn law_executor_lookup_order<E>(
    executors: Map<Seq<char>, E>,
    unified: Option<E>,
    method: Seq<char>,
    identifier: Seq<char>,
)
    ensures
        executors.dom().contains(method)
            ==> select_executor(executors, unified, method, identifier) == Some(executors[method]),
        !executors.dom().contains(method) && executors.dom().contains("service."@ + method + ".post"@)
            ==> select_executor(executors, unified, method, identifier)
                == Some(executors["service."@ + method + ".post"@]),
        !executors.dom().contains(method) && !executors.dom().contains("service."@ + method + ".post"@)
            && executors.dom().contains("service."@ + identifier + ".post"@)
            ==> select_executor(executors, unified, method, identifier)
                == Some(executors["service."@ + identifier + ".post"@]),
        !executors.dom().contains(method) && !executors.dom().contains("service."@ + method + ".post"@)
            && !executors.dom().contains("service."@ + identifier + ".post"@)
            ==> select_executor(executors, unified, method, identifier) == unified,
        (exists|k: Seq<char>| #[trigger] executors.dom().contains(k)
            && (k == method || k == "service."@ + method + ".post"@ || k == "service."@ + identifier + ".post"@))
            ==> select_executor(executors, unified, method, identifier) is Some,
{
}

/// The text of a reply's status for a result code.
pub open spec fn reply_status_text(code: i32) -> Seq<char> {
    if code == 0 { "success"@ } else { "error"@ }
}

// ---------------------------------------------------------------------------
// Lemmas about splitting
// ---------------------------------------------------------------------------

/// Whether `c` occurs in `s`.
pub open spec fn has_char(s: Seq<char>, c: char) -> bool {
    exists|i: int| 0 <= i < s.len() && s[i] == c
}

/// A sequence without the separator splits into itself.
pub proof fn lemma_split_single(s: Seq<char>, sep: char)
    requires
        !has_char(s, sep),
    ensures
        split_spec(s, sep) == seq![s],
    decreases s.len(),
{
    if s.len() > 0 {
        let p = s.drop_last();
        assert(!has_char(p, sep)) by {
            if has_char(p, sep) {
                let i = choose|i: int| 0 <= i < p.len() && p[i] == sep;
                assert(s[i] == sep);
            }
        }
        lemma_split_single(p, sep);
        assert(s.last() != sep);
        assert(p.push(s.last()) =~= s);
        assert(split_spec(s, sep) =~= seq![s]);
    } else {
        assert(s =~= Seq::<char>::empty());
    }
}

/// Splitting `a`, a separator, then `b` gives the pieces of `a` followed by
/// the pieces of `b`.
pub proof fn lemma_split_join(a: Seq<char>, b: Seq<char>, sep: char)
    ensures
        split_spec(a + seq![sep] + b, sep) == split_spec(a, sep) + split_spec(b, sep),
    decreases b.len(),
{
    crate::text::lemma_split_nonempty(a, sep);
    crate::text::lemma_split_nonempty(b, sep);
    let s = a + seq![sep] + b;
    if b.len() == 0 {
        assert(s.drop_last() =~= a);
        assert(s.last() == sep);
        assert(split_spec(s, sep) =~= split_spec(a, sep) + split_spec(b, sep));
    } else {
        let b0 = b.drop_last();
        lemma_split_join(a, b0, sep);
        crate::text::lemma_split_nonempty(b0, sep);
        assert(s.drop_last() =~= a + seq![sep] + b0);
        assert(s.last() == b.last());
        let prev = split_spec(a + seq![sep] + b0, sep);
        if b.last() == sep {
            assert(split_spec(s, sep) =~= split_spec(a, sep) + split_spec(b, sep));
        } else {
            let pa = split_spec(a, sep);
            let pb0 = split_spec(b0, sep);
            assert(prev.last() == pb0.last());
            assert(split_spec(s, sep) =~= pa + split_spec(b, sep));
        }
    }
}

/// Splitting `x`, a separator, then a piece without the separator gives the
/// pieces of `x` followed by that piece.
pub proof fn lemma_split_append(x: Seq<char>, b: Seq<char>, sep: char)
    requires
        !has_char(b, sep),
    ensures
        split_spec(x + seq![sep] + b, sep) == split_spec(x, sep).push(b),
{
    lemma_split_join(x, b, sep);
    lemma_split_single(b, sep);
    assert(split_spec(x, sep) + seq![b] =~= split_spec(x, sep).push(b));
}

// ---------------------------------------------------------------------------
// Laws of the routing rules
// ---------------------------------------------------------------------------

/// The identifier of a service is recovered from the method a call to it is
/// routed by: from `service.{id}.post` and from `platform.service.{id}.post`,
/// for an identifier without a dot.
pub proof fn law_identifier_round_trip(id: Seq<char>)
    requires
        !has_char(id, '.'),
    ensures
        service_identifier_of(service_key(id)) == id,
        service_identifier_of("platform.service."@ + id + ".post"@) == id,
{
    reveal_strlit("service");
    reveal_strlit("service.");
    reveal_strlit("post");
    reveal_strlit(".post");
    reveal_strlit("platform");
    reveal_strlit("platform.service.");
    assert(!has_char("service"@, '.'));
    assert(!has_char("post"@, '.'));
    assert(!has_char("platform"@, '.'));
    lemma_split_single("service"@, '.');
    lemma_split_append("service"@, id, '.');
    lemma_split_append("service"@ + seq!['.'] + id, "post"@, '.');
    assert(service_key(id) =~= "service"@ + seq!['.'] + id + seq!['.'] + "post"@);
    let pl = "platform"@ + seq!['.'] + "service"@;
    lemma_split_single("platform"@, '.');
    lemma_split_append("platform"@, "service"@, '.');
    lemma_split_append(pl, id, '.');
    lemma_split_append(pl + seq!['.'] + id, "post"@, '.');
    assert("platform.service."@ + id + ".post"@ =~= pl + seq!['.'] + id + seq!['.'] + "post"@);
    assert("service"@ != "platform"@);
}

/// An executor registered under a method takes every call routed by that
/// method, whatever else is registered and whether a unified executor is set.
pub proof fn law_specific_executor_wins<E>(
    executors: Map<Seq<char>, E>,
    unified: Option<E>,
    method: Seq<char>,
    identifier: Seq<char>,
    executor: E,
)
    ensures
        select_executor(executors.insert(method, executor), unified, method, identifier)
            == Some(executor),
{
}

/// A call for which no executor is registered under its method, under
/// `service.{method}.post` or under `service.{identifier}.post` goes to the
/// unified executor, or to none when there is none.
pub proof fn law_unified_fallback<E>(
    executors: Map<Seq<char>, E>,
    unified: Option<E>,
    method: Seq<char>,
    identifier: Seq<char>,
)
    requires
        !executors.dom().contains(method),
        !executors.dom().contains(service_key(method)),
        !executors.dom().contains(service_key(identifier)),
    ensures
        select_executor(executors, unified, method, identifier) == unified,
{
}

/// A reply is delivered to its handler at most once: handling it forgets the
/// handler, so the same transaction finds none the next time.
pub proof fn law_reply_delivered_at_most_once<H>(handlers: Map<Seq<char>, H>, tid: Seq<char>)
    ensures
        !handlers.remove(tid).dom().contains(tid),
        forall|k: Seq<char>| k != tid ==> (#[trigger] handlers.remove(tid).dom().contains(k)
            <==> handlers.dom().contains(k)),
{
}

// ---------------------------------------------------------------------------
// Executable routing rules
// ---------------------------------------------------------------------------

/// The method named by a topic (see `method_from_topic`).
pub fn extract_method_from_topic(topic: &str) -> (m: String)
    ensures
        m@ == method_from_topic(topic@),
{
    let parts = split_char(topic, '/');
    proof {
        assert(views(parts@).len() == parts@.len());
    }
    if parts.len() >= 7 && equal_str(parts[4].as_str(), "service") {
        proof {
            assert(views(parts@)[4] == parts@[4]@);
            assert(views(parts@)[5] == parts@[5]@);
        }
        concat3("service.", parts[5].as_str(), ".post")
    } else if contains_str(topic, "properties/set") {
        proof {
            assert(parts.len() >= 7 ==> views(parts@)[4] == parts@[4]@);
        }
        owned("thing.properties.set")
    } else {
        proof {
            assert(parts.len() >= 7 ==> views(parts@)[4] == parts@[4]@);
        }
        owned(topic)
    }
}

/// The service identifier inside a method name (see `service_identifier_of`).
pub fn extract_service_identifier(method: &str) -> (id: String)
    ensures
        id@ == service_identifier_of(method@),
{
    let parts = split_char(method, '.');
    proof {
        assert(views(parts@).len() == parts@.len());
    }
    if parts.len() >= 3 && equal_str(parts[0].as_str(), "platform") {
        proof {
            assert(views(parts@)[0] == parts@[0]@);
            assert(views(parts@)[2] == parts@[2]@);
        }
        parts[2].clone()
    } else if parts.len() >= 2 {
        proof {
            assert(parts.len() >= 3 ==> views(parts@)[0] == parts@[0]@);
            assert(views(parts@)[1] == parts@[1]@);
        }
        parts[1].clone()
    } else {
        owned(method)
    }
}

/// The service identifier inside a reply topic (see `identifier_from_topic`).
pub fn extract_service_identifier_from_topic(topic: &str) -> (id: String)
    ensures
        id@ == identifier_from_topic(topic@),
{
    let parts = split_char(topic, '/');
    proof {
        assert(views(parts@).len() == parts@.len());
    }
    if parts.len() >= 6 {
        proof {
            assert(views(parts@)[5] == parts@[5]@);
        }
        parts[5].clone()
    } else {
        String::new()
    }
}

/// The topic a reply to a request on `topic` is published on.
pub fn get_reply_topic(topic: &str) -> (r: String)
    ensures
        r@ == reply_topic_of(topic@),
{
    if ends_with(topic, "/post") {
        concat2(topic, "_reply")
    } else {
        concat2(topic, "/reply")
    }
}

/// The method a message on `topic` is routed by.
pub fn resolve_method(msg_method: &str, topic: &str) -> (m: String)
    ensures
        m@ == effective_method(msg_method@, topic@),
{
    if !msg_method.is_empty() {
        owned(msg_method)
    } else {
        extract_method_from_topic(topic)
    }
}

/// The reply message for a finished service call: the call's ids, the result
/// code, `success` or `error`, and the reply bytes as a JSON string.
pub fn build_service_reply(tid: &str, bid: &str, result_code: i32, data: &[u8]) -> (r: ReplyMessage)
    ensures
        r.tid@ == tid@,
        r.bid@ == bid@,
        r.code == result_code,
        r.message@ == reply_status_text(result_code),
        r.data == Some(json_string_value(lossy_utf8(data@))),
{
    let message = if result_code == 0 { owned("success") } else { owned("error") };
    ReplyMessage {
        tid: owned(tid),
        bid: owned(bid),
        code: result_code,
        message,
        data: Some(json_string(utf8_lossy(data))),
    }
}

// ---------------------------------------------------------------------------
// The adapter
// ---------------------------------------------------------------------------

/// A reply handler: either a platform response callback or a device
/// response callback.
#[derive(Clone)]
pub enum ReplyHandler<P, D> {
    Platform(P),
    Device(D),
}

/// A reply routed to its handler, with the response the handler receives.
pub enum ReplyDelivery<P, D> {
    Platform(P, PlatformServiceResponse),
    Device(D, DeviceServiceResponse),
}

/// A service call routed to an executor: the request for the executor and
/// what is needed to send its reply.
#[derive(Debug)]
pub struct ServiceCall {
    /// The method the call was routed by
    pub method: String,
    /// The request handed to the executor
    pub request: DeviceServiceRequest,
    /// Topic the reply goes to
    pub reply_topic: String,
    /// Transaction id of the call
    pub tid: String,
    /// Batch id of the call
    pub bid: String,
}

/// The routing of a message received on `topic`: its method, the service
/// identifier in that method, its reply topic and its ids.
pub open spec fn call_matches(call: ServiceCall, topic: Seq<char>, msg: CommonMessage) -> bool {
    &&& call.method@ == effective_method(msg.method@, topic)
    &&& call.request.service_identifier@ == service_identifier_of(call.method@)
    &&& call.request.channel == CommunicationChannel::All
    &&& call.request.param_data@ == json_bytes(msg.data)
    &&& call.request.service_timestamp_ms == msg.timestamp
    &&& call.reply_topic@ == reply_topic_of(topic)
    &&& call.tid == msg.tid
    &&& call.bid == msg.bid
}

/// Prepares the routing of a service call received on `topic`.
pub fn prepare_service_call(topic: &str, msg: &CommonMessage) -> (call: ServiceCall)
    ensures
        call_matches(call, topic@, *msg),
{
    let method = resolve_method(msg.method.as_str(), topic);
    let service_identifier = extract_service_identifier(method.as_str());
    let request = DeviceServiceRequest {
        channel: CommunicationChannel::default(),
        service_identifier,
        param_data: value_to_bytes(&msg.data),
        service_timestamp_ms: msg.timestamp,
    };
    ServiceCall {
        method,
        request,
        reply_topic: get_reply_topic(topic),
        tid: msg.tid.clone(),
        bid: msg.bid.clone(),
    }
}

/// Routes incoming messages to registered callbacks.
///
/// `E` is the executor type, `P` and `D` the platform and device reply
/// callbacks, `S` the reply sender.
pub struct MessageAdapter<E, P, D, S> {
    service_executors: KeyedTable<E>,
    unified_executor: Option<E>,
    reply_handlers: KeyedTable<ReplyHandler<P, D>>,
    reply_sender: Option<S>,
}

impl<E, P, D, S> MessageAdapter<E, P, D, S> {
    /// Executors by method name.
    pub closed spec fn executors(&self) -> Map<Seq<char>, E> {
        self.service_executors@
    }

    /// The unified (fallback) executor.
    pub closed spec fn unified(&self) -> Option<E> {
        self.unified_executor
    }

    /// Reply handlers by transaction id.
    pub closed spec fn handlers(&self) -> Map<Seq<char>, ReplyHandler<P, D>> {
        self.reply_handlers@
    }

    /// The reply sender.
    pub closed spec fn sender(&self) -> Option<S> {
        self.reply_sender
    }

    /// An adapter with nothing registered.
    pub fn new() -> (a: Self)
        ensures
            a.executors() == Map::<Seq<char>, E>::empty(),
            a.unified() is None,
            a.handlers() == Map::<Seq<char>, ReplyHandler<P, D>>::empty(),
            a.sender() is None,
    {
        MessageAdapter {
            service_executors: KeyedTable::new(),
            unified_executor: None,
            reply_handlers: KeyedTable::new(),
            reply_sender: None,
        }
    }

    /// Sets the reply sender.
    pub fn set_reply_sender(&mut self, sender: S)
        ensures
            final(self).sender() == Some(sender),
            final(self).executors() == old(self).executors(),
            final(self).unified() == old(self).unified(),
            final(self).handlers() == old(self).handlers(),
    {
        self.reply_sender = Some(sender);
    }

    /// The reply sender, if set.
    pub fn reply_sender(&self) -> (s: Option<&S>)
        ensures
            match s { Some(x) => self.sender() == Some(*x), None => self.sender() is None },
    {
        match &self.reply_sender {
            Some(x) => Some(x),
            None => None,
        }
    }

    /// Registers an executor for a specific method.
    pub fn add_service_executor(&mut self, method: &str, executor: E)
        ensures
            final(self).executors() == old(self).executors().insert(method@, executor),
            final(self).unified() == old(self).unified(),
            final(self).handlers() == old(self).handlers(),
            final(self).sender() == old(self).sender(),
    {
        self.service_executors.insert(owned(method), executor);
    }

    /// Registers the unified (fallback) executor.
    pub fn set_unified_executor(&mut self, executor: E)
        ensures
            final(self).unified() == Some(executor),
            final(self).executors() == old(self).executors(),
            final(self).handlers() == old(self).handlers(),
            final(self).sender() == old(self).sender(),
    {
        self.unified_executor = Some(executor);
    }

    /// Registers a reply handler for a transaction.
    pub fn add_reply_handler(&mut self, tid: &str, handler: ReplyHandler<P, D>)
        ensures
            final(self).handlers() == old(self).handlers().insert(tid@, handler),
            final(self).executors() == old(self).executors(),
            final(self).unified() == old(self).unified(),
            final(self).sender() == old(self).sender(),
    {
        self.reply_handlers.insert(owned(tid), handler);
    }

    /// Removes and hands back the reply handler of a transaction.
    pub fn remove_reply_handler(&mut self, tid: &str) -> (h: Option<ReplyHandler<P, D>>)
        ensures
            final(self).handlers() == old(self).handlers().remove(tid@),
            h is Some == old(self).handlers().dom().contains(tid@),
            h matches Some(x) ==> x == old(self).handlers()[tid@],
            final(self).executors() == old(self).executors(),
            final(self).unified() == old(self).unified(),
            final(self).sender() == old(self).sender(),
    {
        self.reply_handlers.remove(tid)
    }

    /// Whether an executor is registered for exactly this method.
    pub fn has_service_executor(&self, method: &str) -> (b: bool)
        ensures
            b == self.executors().dom().contains(method@),
    {
        self.service_executors.contains_key(method)
    }

    /// The executor a call with this method and service identifier goes to.
    pub fn find_executor(&self, method: &str, service_identifier: &str) -> (r: Option<&E>)
        ensures
            match r {
                Some(e) => select_executor(self.executors(), self.unified(), method@, service_identifier@) == Some(*e),
                None => select_executor(self.executors(), self.unified(), method@, service_identifier@) is None,
            },
    {
        match self.service_executors.get(method) {
            Some(e) => return Some(e),
            None => {},
        }
        let alt_key = concat3("service.", method, ".post");
        match self.service_executors.get(alt_key.as_str()) {
            Some(e) => return Some(e),
            None => {},
        }
        let alt_key2 = concat3("service.", service_identifier, ".post");
        match self.service_executors.get(alt_key2.as_str()) {
            Some(e) => return Some(e),
            None => {},
        }
        match &self.unified_executor {
            Some(e) => Some(e),
            None => None,
        }
    }

    /// Routes a service call received on `topic`: the executor it goes to, if
    /// any, and the prepared call.
    pub fn handle_common_message(&self, topic: &str, msg: &CommonMessage) -> (r: (Option<&E>, ServiceCall))
        ensures
            call_matches(r.1, topic@, *msg),
            match r.0 {
                Some(e) => select_executor(self.executors(), self.unified(), r.1.method@,
                    r.1.request.service_identifier@) == Some(*e),
                None => select_executor(self.executors(), self.unified(), r.1.method@,
                    r.1.request.service_identifier@) is None,
            },
    {
        let call = prepare_service_call(topic, msg);
        let executor = self.find_executor(call.method.as_str(), call.request.service_identifier.as_str());
        (executor, call)
    }

    /// Routes a reply received on `topic` to the handler of its transaction,
    /// which is removed; `None` when no handler waits for it.
    pub fn handle_reply_message(&mut self, topic: &str, reply: &ReplyMessage) -> (r: Option<ReplyDelivery<P, D>>)
        ensures
            final(self).handlers() == old(self).handlers().remove(reply.tid@),
            r is Some == old(self).handlers().dom().contains(reply.tid@),
            r matches Some(d) ==> match d {
                ReplyDelivery::Platform(p, resp) => {
                    &&& old(self).handlers()[reply.tid@] == ReplyHandler::<P, D>::Platform(p)
                    &&& resp.service_identifier@ == identifier_from_topic(topic@)
                    &&& resp.result == reply.code
                    &&& resp.channel == CommunicationChannel::All
                    &&& resp.param_data@ == match reply.data {
                        Some(v) => json_bytes(v),
                        None => Seq::<u8>::empty(),
                    }
                    &&& is_clock_millis(resp.service_timestamp_ms)
                },
                ReplyDelivery::Device(dv, resp) => {
                    &&& old(self).handlers()[reply.tid@] == ReplyHandler::<P, D>::Device(dv)
                    &&& resp.service_identifier@ == identifier_from_topic(topic@)
                    &&& resp.result == reply.code
                    &&& resp.channel == CommunicationChannel::All
                    &&& resp.param_data@ == match reply.data {
                        Some(v) => json_bytes(v),
                        None => Seq::<u8>::empty(),
                    }
                    &&& is_clock_millis(resp.service_timestamp_ms)
                },
            },
            final(self).executors() == old(self).executors(),
            final(self).unified() == old(self).unified(),
            final(self).sender() == old(self).sender(),
    {
        match self.remove_reply_handler(reply.tid.as_str()) {
            Some(handler) => {
                let param_data = match &reply.data {
                    Some(v) => value_to_bytes(v),
                    None => Vec::new(),
                };
                let identifier = extract_service_identifier_from_topic(topic);
                match handler {
                    ReplyHandler::Platform(cb) => {
                        let resp = PlatformServiceResponse {
                            channel: CommunicationChannel::default(),
                            service_identifier: identifier,
                            result: reply.code,
                            param_data,
                            service_timestamp_ms: now_millis(),
                        };
                        Some(ReplyDelivery::Platform(cb, resp))
                    },
                    ReplyHandler::Device(cb) => {
                        let resp = DeviceServiceResponse {
                            channel: CommunicationChannel::default(),
                            service_identifier: identifier,
                            result: reply.code,
                            param_data,
                            service_timestamp_ms: now_millis(),
                        };
                        Some(ReplyDelivery::Device(cb, resp))
                    },
                }
            },
            None => None,
        }
    }

    /// Forgets every executor, handler and the reply sender.
    pub fn release(&mut self)
        ensures
            final(self).executors() == Map::<Seq<char>, E>::empty(),
            final(self).unified() is None,
            final(self).handlers() == Map::<Seq<char>, ReplyHandler<P, D>>::empty(),
            final(self).sender() is None,
    {
        self.service_executors.clear();
        self.unified_executor = None;
        self.reply_handlers.clear();
        self.reply_sender = None;
    }
}

} // verus!
