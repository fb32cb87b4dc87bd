//! Enumerations of the device SDK: event levels, delivery guarantees and
//! communication channels.

use vstd::prelude::*;

verus! {

/// Level of a thing event.
#[derive(Debug, Clone, Copy, PartialEq, Eq, Structural)]
pub enum EventType {
    /// Informational event
    Info,
    /// Warning event
    Warning,
    /// Error event
    Error,
}

/// The name of an event level as it appears in topics and methods.
pub open spec fn event_type_text(t: EventType) -> Seq<char> {
    match t {
        EventType::Info => "info"@,
        EventType::Warning => "warning"@,
        EventType::Error => "error"@,
    }
}

impl EventType {
    /// The string value for the event type (used in topics).
    pub fn as_str(&self) -> (s: &'static str)
        ensures
            s@ == event_type_text(*self),
    {
        match self {
            EventType::Info => "info",
            EventType::Warning => "warning",
            EventType::Error => "error",
        }
    }
}

/// Message delivery guarantee.
#[derive(Debug, Clone, Copy, PartialEq, Eq, Structural)]
pub enum QoS {
    /// At most once delivery
    AtMostOnce,
    /// At least once delivery
    AtLeastOnce,
    /// Exactly once delivery
    ExactlyOnce,
}

/// The MQTT level number of a delivery guarantee.
pub open spec fn qos_level_spec(q: QoS) -> u8 {
    match q {
        QoS::AtMostOnce => 0,
        QoS::AtLeastOnce => 1,
        QoS::ExactlyOnce => 2,
    }
}

impl QoS {
    /// The MQTT level number (0, 1 or 2).
    pub fn level(&self) -> (l: u8)
        ensures
            l == qos_level_spec(*self),
    {
        match self {
            QoS::AtMostOnce => 0,
            QoS::AtLeastOnce => 1,
            QoS::ExactlyOnce => 2,
        }
    }
}

impl Default for QoS {
    fn default() -> (q: QoS)
        ensures
            q == QoS::AtMostOnce,
    {
        QoS::AtMostOnce
    }
}

/// Which channel(s) a message is published or subscribed on.
#[derive(Debug, Clone, Copy, PartialEq, Eq, Structural)]
pub enum CommunicationChannel {
    /// All channels - publish/subscribe to both MQTT and IPC
    All,
    /// Remote channel only - MQTT for cloud communication
    Remote,
    /// IPC channel only - local inter-process communication
    Ipc,
}

/// The name of a channel selection.
pub open spec fn channel_text(c: CommunicationChannel) -> Seq<char> {
    match c {
        CommunicationChannel::All => "all"@,
        CommunicationChannel::Remote => "remote"@,
        CommunicationChannel::Ipc => "ipc"@,
    }
}

/// Whether a channel selection uses MQTT.
pub open spec fn uses_mqtt(c: CommunicationChannel) -> bool {
    c == CommunicationChannel::All || c == CommunicationChannel::Remote
}

/// Whether a channel selection uses IPC.
pub open spec fn uses_ipc(c: CommunicationChannel) -> bool {
    c == CommunicationChannel::All || c == CommunicationChannel::Ipc
}

impl CommunicationChannel {
    /// The string representation of the channel.
    pub fn as_str(&self) -> (s: &'static str)
        ensures
            s@ == channel_text(*self),
    {
        match self {
            CommunicationChannel::All => "all",
            CommunicationChannel::Remote => "remote",
            CommunicationChannel::Ipc => "ipc",
        }
    }

    /// Whether this channel includes MQTT.
    pub fn includes_mqtt(&self) -> (b: bool)
        ensures
            b == uses_mqtt(*self),
    {
        match self {
            CommunicationChannel::All => true,
            CommunicationChannel::Remote => true,
            CommunicationChannel::Ipc => false,
        }
    }

    /// Whether this channel includes IPC.
    pub fn includes_ipc(&self) -> (b: bool)
        ensures
            b == uses_ipc(*self),
    {
        match self {
            CommunicationChannel::All => true,
            CommunicationChannel::Remote => false,
            CommunicationChannel::Ipc => true,
        }
    }
}

impl Default for CommunicationChannel {
    fn default() -> (c: CommunicationChannel)
        ensures
            c == CommunicationChannel::All,
    {
        CommunicationChannel::All
    }
}

/// Every channel selection reaches at least one transport, and only `All`
/// reaches both.
pub proof fn law_channel_coverage(c: CommunicationChannel)
    ensures
        uses_mqtt(c) || uses_ipc(c),
        (uses_mqtt(c) && uses_ipc(c)) <==> c == CommunicationChannel::All,
{
}

} // verus!
