//! The transitions of a session, as mathematics: what every session does,
//! stated over the values of its settings, events and actions.

use crate::config::ConfigView;
use crate::config::Role;
use crate::config::ServiceDescriptor;
use crate::protocol::ActionView;
use crate::protocol::DataKind;
use crate::protocol::EventView;
use crate::protocol::Fault;
use crate::protocol::Reason;
use core::time::Duration;
use vstd::prelude::*;

verus! {

/// Where a session stands. Each stage but the last names the request that
/// the session has issued and whose outcome it waits for.
pub enum StageView {
    /// Waiting for the connection to the daemon.
    Connecting,
    /// Waiting for the lookup of the service.
    Locating,
    /// Subscriber: waiting for the daemon to accept the subscription.
    Subscribing { service: ServiceDescriptor },
    /// Subscriber: waiting for the next envelope.
    Pulling { service: ServiceDescriptor },
    /// Subscriber: waiting for one payload to be decoded; `pending` are the
    /// payloads of the same envelope that follow it.
    Decoding { service: ServiceDescriptor, pending: Seq<Seq<u8>> },
    /// Publisher: waiting for the sensor.
    Sampling { service: ServiceDescriptor, period: Duration },
    /// Publisher: waiting for the payload bytes of a reading.
    Encoding { service: ServiceDescriptor, period: Duration },
    /// Publisher: waiting for the daemon's acknowledgement.
    Publishing { service: ServiceDescriptor, period: Duration },
    /// Publisher: waiting for the period to pass.
    Waiting { service: ServiceDescriptor, period: Duration },
    /// The session has ended.
    Terminated { reason: Reason },
}

/// Mathematical value of a session: its settings and its stage.
pub struct SessionView {
    pub config: ConfigView,
    pub stage: StageView,
}

impl StageView {
    /// The service that the session is attached to: the one its lookup
    /// resolved. There is none before the lookup and none after the end.
    pub open spec fn service(self) -> Option<ServiceDescriptor> {
        match self {
            StageView::Subscribing { service } => Some(service),
            StageView::Pulling { service } => Some(service),
            StageView::Decoding { service, .. } => Some(service),
            StageView::Sampling { service, .. } => Some(service),
            StageView::Encoding { service, .. } => Some(service),
            StageView::Publishing { service, .. } => Some(service),
            StageView::Waiting { service, .. } => Some(service),
            _ => None,
        }
    }

    /// Whether `request` is the request that a session at this stage waits
    /// on. A session that has ended waits on none.
    pub open spec fn awaits(self, request: ActionView) -> bool {
        match self {
            StageView::Connecting => request is Connect,
            StageView::Locating => request is Locate,
            StageView::Subscribing { service } => request == (ActionView::Subscribe { service }),
            StageView::Pulling { .. } => request is Pull,
            StageView::Decoding { .. } => request is Decode,
            StageView::Sampling { .. } => request is Sample,
            StageView::Encoding { .. } => request is Encode,
            StageView::Publishing { service, .. } => {
                &&& request matches ActionView::Publish { service: target, kind, .. }
                &&& target == service
                &&& kind == DataKind::Generic
            },
            StageView::Waiting { period, .. } => request == (ActionView::Wait { period }),
            StageView::Terminated { .. } => false,
        }
    }
}

impl SessionView {
    /// A session that has just been begun.
    pub open spec fn initial(config: ConfigView) -> SessionView {
        SessionView { config, stage: StageView::Connecting }
    }

    /// The request with which a session begins.
    pub open spec fn opening(config: ConfigView) -> ActionView {
        ActionView::Connect { address: config.daemon_address, timeout: config.connect_timeout }
    }

    /// The same session at another stage.
    pub open spec fn at(self, stage: StageView) -> SessionView {
        SessionView { config: self.config, stage }
    }

    /// Whether the session has ended.
    pub open spec fn terminated(self) -> bool {
        self.stage is Terminated
    }

    /// An event that is not the outcome of the request in flight changes
    /// nothing and asks for nothing.
    pub open spec fn ignore(self) -> (SessionView, Seq<ActionView>) {
        (self, Seq::empty())
    }

    /// The session ends.
    pub open spec fn stop(self, reason: Reason) -> (SessionView, Seq<ActionView>) {
        (self.at(StageView::Terminated { reason }), seq![ActionView::Stop { reason }])
    }

    /// After the notices `done`, a subscriber with the settings `config`
    /// turns to the first payload of `queue`, or to the feed if `queue` is
    /// empty.
    pub open spec fn decode_next(
        config: ConfigView,
        service: ServiceDescriptor,
        queue: Seq<Seq<u8>>,
        done: Seq<ActionView>,
    ) -> (SessionView, Seq<ActionView>) {
        if queue.len() == 0 {
            (
                SessionView { config, stage: StageView::Pulling { service } },
                done.push(ActionView::Pull),
            )
        } else {
            (
                SessionView {
                    config,
                    stage: StageView::Decoding { service, pending: queue.drop_first() },
                },
                done.push(ActionView::Decode { payload: queue.first() }),
            )
        }
    }

    /// The publisher gives up the current tick over `fault` and sleeps one
    /// period.
    pub open spec fn skip_tick(self, service: ServiceDescriptor, period: Duration, fault: Fault) -> (
        SessionView,
        Seq<ActionView>,
    ) {
        (
            self.at(StageView::Waiting { service, period }),
            seq![ActionView::Report { fault }, ActionView::Wait { period }],
        )
    }

    /// One transition: the session after `event`, and the actions that the
    /// transition asks for, in the order in which they are to be performed.
    pub open spec fn step(self, event: EventView) -> (SessionView, Seq<ActionView>) {
        match self.stage {
            StageView::Connecting => match event {
                EventView::Connected => (
                    self.at(StageView::Locating),
                    seq![ActionView::Locate { id: self.config.service_id }],
                ),
                EventView::ConnectFailed => self.stop(Reason::ConnectFailed),
                _ => self.ignore(),
            },
            StageView::Locating => match event {
                EventView::Located(service) => match self.config.role {
                    Role::Subscriber => (
                        self.at(StageView::Subscribing { service }),
                        seq![ActionView::Subscribe { service }],
                    ),
                    Role::Publisher { period } => (
                        self.at(StageView::Sampling { service, period }),
                        seq![ActionView::Sample],
                    ),
                },
                EventView::LookupFailed => self.stop(Reason::LookupFailed),
                _ => self.ignore(),
            },
            StageView::Subscribing { service } => match event {
                EventView::Subscribed => (
                    self.at(StageView::Pulling { service }),
                    seq![ActionView::Pull],
                ),
                EventView::TransportError => self.stop(Reason::TransportError),
                _ => self.ignore(),
            },
            StageView::Pulling { service } => match event {
                EventView::Envelope(envelope) => SessionView::decode_next(
                    self.config,
                    service,
                    envelope.payloads(),
                    Seq::empty(),
                ),
                EventView::ChannelClosed => self.stop(Reason::ChannelClosed),
                EventView::TransportError => self.stop(Reason::TransportError),
                _ => self.ignore(),
            },
            StageView::Decoding { service, pending } => match event {
                EventView::Decoded(measurement) => if measurement.well_formed() {
                    SessionView::decode_next(
                        self.config,
                        service,
                        pending,
                        seq![ActionView::Emit { measurement }],
                    )
                } else {
                    SessionView::decode_next(
                        self.config,
                        service,
                        pending,
                        seq![ActionView::Report { fault: Fault::DecodeError }],
                    )
                },
                EventView::DecodeFailed => SessionView::decode_next(
                    self.config,
                    service,
                    pending,
                    seq![ActionView::Report { fault: Fault::DecodeError }],
                ),
                _ => self.ignore(),
            },
            StageView::Sampling { service, period } => match event {
                EventView::Sampled(measurement) => if measurement.well_formed() {
                    (
                        self.at(StageView::Encoding { service, period }),
                        seq![ActionView::Encode { measurement }],
                    )
                } else {
                    self.skip_tick(service, period, Fault::EncodeError)
                },
                EventView::SampleFailed => self.skip_tick(service, period, Fault::SampleError),
                _ => self.ignore(),
            },
            StageView::Encoding { service, period } => match event {
                EventView::Encoded(payload) => (
                    self.at(StageView::Publishing { service, period }),
                    seq![ActionView::Publish { service, kind: DataKind::Generic, payload }],
                ),
                EventView::EncodeFailed => self.skip_tick(service, period, Fault::EncodeError),
                _ => self.ignore(),
            },
            StageView::Publishing { service, period } => match event {
                EventView::Published => (
                    self.at(StageView::Waiting { service, period }),
                    seq![ActionView::Wait { period }],
                ),
                EventView::PublishFailed => self.stop(Reason::PublishFailed),
                _ => self.ignore(),
            },
            StageView::Waiting { service, period } => match event {
                EventView::TickElapsed => (
                    self.at(StageView::Sampling { service, period }),
                    seq![ActionView::Sample],
                ),
                _ => self.ignore(),
            },
            StageView::Terminated { .. } => self.ignore(),
        }
    }

    /// A whole run: the session after all of `events`, and every action
    /// asked for on the way, in order.
    pub open spec fn run(self, events: Seq<EventView>) -> (SessionView, Seq<ActionView>)
        decreases events.len(),
    {
        if events.len() == 0 {
            (self, Seq::empty())
        } else {
            let (next, first) = self.step(events.first());
            let (last, rest) = next.run(events.drop_first());
            (last, first + rest)
        }
    }
}

} // verus!
