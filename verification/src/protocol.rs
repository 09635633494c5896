//! What a session is told and what it asks for.

use crate::config::ServiceDescriptor;
use crate::config::ServiceId;
use crate::envelope::EnvelopeView;
use crate::envelope::ResponseEnvelope;
use crate::measurement::Measurement;
use core::time::Duration;
use vstd::prelude::*;

verus! {

/// Why a session ended. Every one of these is final.
#[derive(Clone, Copy, Debug, PartialEq, Eq, Structural)]
pub enum Reason {
    /// The daemon could not be reached within the connect timeout.
    ConnectFailed,
    /// The service could not be resolved.
    LookupFailed,
    /// The subscription feed ended because the channel closed.
    ChannelClosed,
    /// The transport failed while subscribing or while receiving.
    TransportError,
    /// A publish request was refused or lost.
    PublishFailed,
}

/// A failure that costs one envelope or one tick, never the session.
#[derive(Clone, Copy, Debug, PartialEq, Eq, Structural)]
pub enum Fault {
    /// A payload was not a well-formed record.
    DecodeError,
    /// The sensor gave no reading.
    SampleError,
    /// A reading could not be put into the payload format.
    EncodeError,
}

/// The tag that says what kind of data a published payload holds.
#[derive(Clone, Copy, Debug, PartialEq, Eq, Structural)]
pub enum DataKind {
    /// Generic application data.
    Generic,
    /// Data in the daemon's format for sensor networks.
    Iot,
}

/// What the outside world reports back to a session: the outcome of the
/// request that the session last issued.
#[derive(Debug, PartialEq, Eq)]
pub enum Event {
    /// The transport handle is established.
    Connected,
    /// The connection was refused or timed out.
    ConnectFailed,
    /// The lookup resolved the service.
    Located(ServiceDescriptor),
    /// The lookup failed.
    LookupFailed,
    /// The daemon accepted the subscription.
    Subscribed,
    /// The feed delivered its next envelope.
    Envelope(ResponseEnvelope),
    /// The feed ended: the channel closed.
    ChannelClosed,
    /// The transport failed.
    TransportError,
    /// The payload handed out for decoding held this record.
    Decoded(Measurement),
    /// The payload handed out for decoding was not a record.
    DecodeFailed,
    /// The sensor gave this reading.
    Sampled(Measurement),
    /// The sensor gave no reading.
    SampleFailed,
    /// The record handed out for encoding has these payload bytes.
    Encoded(Vec<u8>),
    /// The record handed out for encoding has no payload form.
    EncodeFailed,
    /// The daemon acknowledged the published data.
    Published,
    /// The publish request failed.
    PublishFailed,
    /// One period has passed.
    TickElapsed,
}

/// Mathematical value of an [`Event`].
pub enum EventView {
    Connected,
    ConnectFailed,
    Located(ServiceDescriptor),
    LookupFailed,
    Subscribed,
    Envelope(EnvelopeView),
    ChannelClosed,
    TransportError,
    Decoded(Measurement),
    DecodeFailed,
    Sampled(Measurement),
    SampleFailed,
    Encoded(Seq<u8>),
    EncodeFailed,
    Published,
    PublishFailed,
    TickElapsed,
}

impl View for Event {
    type V = EventView;

    open spec fn view(&self) -> EventView {
        match *self {
            Event::Connected => EventView::Connected,
            Event::ConnectFailed => EventView::ConnectFailed,
            Event::Located(service) => EventView::Located(service),
            Event::LookupFailed => EventView::LookupFailed,
            Event::Subscribed => EventView::Subscribed,
            Event::Envelope(envelope) => EventView::Envelope(envelope@),
            Event::ChannelClosed => EventView::ChannelClosed,
            Event::TransportError => EventView::TransportError,
            Event::Decoded(measurement) => EventView::Decoded(measurement),
            Event::DecodeFailed => EventView::DecodeFailed,
            Event::Sampled(measurement) => EventView::Sampled(measurement),
            Event::SampleFailed => EventView::SampleFailed,
            Event::Encoded(payload) => EventView::Encoded(payload@),
            Event::EncodeFailed => EventView::EncodeFailed,
            Event::Published => EventView::Published,
            Event::PublishFailed => EventView::PublishFailed,
            Event::TickElapsed => EventView::TickElapsed,
        }
    }
}

/// What a session asks of the outside world. The first nine are requests:
/// each is answered by exactly one event. The last three are notices and
/// are answered by none.
#[derive(Debug, PartialEq, Eq)]
pub enum Action {
    /// Connect to the daemon at `address`, giving up after `timeout`.
    Connect { address: String, timeout: Duration },
    /// Resolve the service `id`.
    Locate { id: ServiceId },
    /// Subscribe to the data of `service`.
    Subscribe { service: ServiceDescriptor },
    /// Wait for the next envelope of the feed.
    Pull,
    /// Decode `payload` into a record.
    Decode { payload: Vec<u8> },
    /// Take one reading from the sensor.
    Sample,
    /// Put `measurement` into the payload format.
    Encode { measurement: Measurement },
    /// Publish `payload` to `service` under the tag `kind`.
    Publish { service: ServiceDescriptor, kind: DataKind, payload: Vec<u8> },
    /// Sleep for `period`.
    Wait { period: Duration },
    /// Hand `measurement` to the application.
    Emit { measurement: Measurement },
    /// Log `fault`; the session goes on.
    Report { fault: Fault },
    /// The session has ended for `reason`.
    Stop { reason: Reason },
}

/// Mathematical value of an [`Action`].
pub enum ActionView {
    Connect { address: Seq<char>, timeout: Duration },
    Locate { id: ServiceId },
    Subscribe { service: ServiceDescriptor },
    Pull,
    Decode { payload: Seq<u8> },
    Sample,
    Encode { measurement: Measurement },
    Publish { service: ServiceDescriptor, kind: DataKind, payload: Seq<u8> },
    Wait { period: Duration },
    Emit { measurement: Measurement },
    Report { fault: Fault },
    Stop { reason: Reason },
}

impl View for Action {
    type V = ActionView;

    open spec fn view(&self) -> ActionView {
        match *self {
            Action::Connect { address, timeout } => ActionView::Connect { address: address@, timeout },
            Action::Locate { id } => ActionView::Locate { id },
            Action::Subscribe { service } => ActionView::Subscribe { service },
            Action::Pull => ActionView::Pull,
            Action::Decode { payload } => ActionView::Decode { payload: payload@ },
            Action::Sample => ActionView::Sample,
            Action::Encode { measurement } => ActionView::Encode { measurement },
            Action::Publish { service, kind, payload } => ActionView::Publish {
                service,
                kind,
                payload: payload@,
            },
            Action::Wait { period } => ActionView::Wait { period },
            Action::Emit { measurement } => ActionView::Emit { measurement },
            Action::Report { fault } => ActionView::Report { fault },
            Action::Stop { reason } => ActionView::Stop { reason },
        }
    }
}

impl ActionView {
    /// Whether the action is a request, to be answered by an event.
    pub open spec fn is_request(self) -> bool {
        !(self is Emit || self is Report || self is Stop)
    }
}

/// The values of a sequence of events.
pub open spec fn events_view(events: Seq<Event>) -> Seq<EventView> {
    events.map_values(|e: Event| e@)
}

/// The values of a sequence of actions.
pub open spec fn actions_view(actions: Seq<Action>) -> Seq<ActionView> {
    actions.map_values(|a: Action| a@)
}

impl Reason {
    /// Whether the session ended in failure. A feed that ends because the
    /// channel closed is the one orderly end.
    pub open spec fn failure(self) -> bool {
        self != Reason::ChannelClosed
    }

    /// Tells whether the session ended in failure.
    pub fn is_failure(self) -> (b: bool)
        ensures
            b == self.failure(),
    {
        match self {
            Reason::ChannelClosed => false,
            _ => true,
        }
    }

    /// The status with which the process leaves: 0 after an orderly end, 1
    /// after a failure.
    pub fn exit_code(self) -> (code: u8)
        ensures
            code == if self.failure() { 1u8 } else { 0u8 },
    {
        if self.is_failure() {
            1
        } else {
            0
        }
    }
}

impl Action {
    /// Tells whether the action is a request, to be answered by an event.
    pub fn is_request(&self) -> (b: bool)
        ensures
            b == self@.is_request(),
    {
        match self {
            Action::Emit { .. } | Action::Report { .. } | Action::Stop { .. } => false,
            _ => true,
        }
    }
}

} // verus!
