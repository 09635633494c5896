//! The session: a state machine that decides, and leaves the doing to its
//! caller.

use crate::config::Role;
use crate::config::ServiceDescriptor;
use crate::config::SessionConfig;
use crate::envelope::payloads;
use crate::envelope::payloads_view;
use crate::model::SessionView;
use crate::model::StageView;
use crate::protocol::actions_view;
use crate::protocol::events_view;
use crate::protocol::Action;
use crate::protocol::ActionView;
use crate::protocol::DataKind;
use crate::protocol::Event;
use crate::protocol::Fault;
use crate::protocol::Reason;
use core::time::Duration;
use vstd::prelude::*;

verus! {

/// The four states of a session as its operator sees them.
#[derive(Clone, Copy, Debug, PartialEq, Eq, Structural)]
pub enum State {
    Connecting,
    Locating,
    Active,
    Terminated(Reason),
}

/// The state that a stage belongs to.
pub open spec fn state_of(stage: StageView) -> State {
    match stage {
        StageView::Connecting => State::Connecting,
        StageView::Locating => State::Locating,
        StageView::Terminated { reason } => State::Terminated(reason),
        _ => State::Active,
    }
}

/// Where a session stands, with what it has to remember there.
#[derive(Debug)]
enum Stage {
    Connecting,
    Locating,
    Subscribing { service: ServiceDescriptor },
    Pulling { service: ServiceDescriptor },
    Decoding { service: ServiceDescriptor, pending: Vec<Vec<u8>> },
    Sampling { service: ServiceDescriptor, period: Duration },
    Encoding { service: ServiceDescriptor, period: Duration },
    Publishing { service: ServiceDescriptor, period: Duration },
    Waiting { service: ServiceDescriptor, period: Duration },
    Terminated { reason: Reason },
}

impl View for Stage {
    type V = StageView;

    closed spec fn view(&self) -> StageView {
        match *self {
            Stage::Connecting => StageView::Connecting,
            Stage::Locating => StageView::Locating,
            Stage::Subscribing { service } => StageView::Subscribing { service },
            Stage::Pulling { service } => StageView::Pulling { service },
            Stage::Decoding { service, pending } => StageView::Decoding {
                service,
                pending: payloads_view(pending@),
            },
            Stage::Sampling { service, period } => StageView::Sampling { service, period },
            Stage::Encoding { service, period } => StageView::Encoding { service, period },
            Stage::Publishing { service, period } => StageView::Publishing { service, period },
            Stage::Waiting { service, period } => StageView::Waiting { service, period },
            Stage::Terminated { reason } => StageView::Terminated { reason },
        }
    }
}

/// One telemetry client session: a state machine that is told what happened
/// and answers with what to do next. It performs no input or output itself.
#[derive(Debug)]
pub struct Session {
    config: SessionConfig,
    stage: Stage,
}

impl View for Session {
    type V = SessionView;

    closed spec fn view(&self) -> SessionView {
        SessionView { config: self.config@, stage: self.stage@ }
    }
}

/// A list of one action.
fn one(action: Action) -> (actions: Vec<Action>)
    ensures
        actions_view(actions@) == seq![action@],
{
    let mut actions: Vec<Action> = Vec::new();
    actions.push(action);
    assert(actions_view(actions@) =~= seq![action@]);
    actions
}

/// A list of two actions.
fn two(first: Action, second: Action) -> (actions: Vec<Action>)
    ensures
        actions_view(actions@) == seq![first@, second@],
{
    let mut actions: Vec<Action> = Vec::new();
    actions.push(first);
    actions.push(second);
    assert(actions_view(actions@) =~= seq![first@, second@]);
    actions
}

/// No action.
fn nothing() -> (actions: Vec<Action>)
    ensures
        actions_view(actions@) == Seq::<ActionView>::empty(),
{
    let actions: Vec<Action> = Vec::new();
    assert(actions_view(actions@) =~= Seq::<ActionView>::empty());
    actions
}

impl Session {
    /// Begins a session: it is `Connecting`, and the request to connect to
    /// the configured daemon is the first thing to perform.
    pub fn begin(config: SessionConfig) -> (r: (Session, Action))
        ensures
            r.0@ == SessionView::initial(config@),
            r.1@ == SessionView::opening(config@),
    {
        let first = Action::Connect {
            address: config.daemon_address.clone(),
            timeout: config.connect_timeout,
        };
        (Session { config, stage: Stage::Connecting }, first)
    }

    /// The settings the session was begun with.
    pub fn config(&self) -> (c: &SessionConfig)
        ensures
            c@ == self@.config,
    {
        &self.config
    }

    /// The state of the session.
    pub fn state(&self) -> (s: State)
        ensures
            s == state_of(self@.stage),
    {
        match &self.stage {
            Stage::Connecting => State::Connecting,
            Stage::Locating => State::Locating,
            Stage::Terminated { reason } => State::Terminated(*reason),
            _ => State::Active,
        }
    }

    /// Tells whether the session has ended.
    pub fn is_terminated(&self) -> (b: bool)
        ensures
            b == self@.terminated(),
    {
        match &self.stage {
            Stage::Terminated { .. } => true,
            _ => false,
        }
    }

    /// Tells the session, one after the other, all that happened, and
    /// collects what it asked for on the way. This replays a recorded run:
    /// the result is that of calling [`Session::step`] for each event in
    /// turn.
    pub fn feed(self, events: Vec<Event>) -> (r: (Session, Vec<Action>))
        ensures
            (r.0@, actions_view(r.1@)) == self@.run(events_view(events@)),
    {
        let ghost whole = self@.run(events_view(events@));
        let mut session = self;
        let mut rest = events;
        let mut asked: Vec<Action> = nothing();
        while rest.len() > 0
            invariant
                whole == (
                    session@.run(events_view(rest@)).0,
                    actions_view(asked@) + session@.run(events_view(rest@)).1,
                ),
            decreases rest.len(),
        {
            let ghost before = events_view(rest@);
            let ghost so_far = actions_view(asked@);
            let ghost tail = session@.run(before).1;
            let event = rest.remove(0);
            assert(event@ == before.first());
            assert(events_view(rest@) =~= before.drop_first());
            let (next, mut actions) = session.step(event);
            let ghost first = actions_view(actions@);
            asked.append(&mut actions);
            assert(actions_view(asked@) =~= so_far + first);
            session = next;
            assert(tail == first + session@.run(events_view(rest@)).1);
            assert(so_far + tail =~= actions_view(asked@) + session@.run(events_view(rest@)).1);
        }
        assert(actions_view(asked@) + Seq::<ActionView>::empty() =~= actions_view(asked@));
        (session, asked)
    }

    /// The session ends for `reason`.
    fn stop(config: SessionConfig, reason: Reason) -> (r: (Session, Vec<Action>))
        ensures
            r.0@.config == config@,
            r.0@.stage == (StageView::Terminated { reason }),
            actions_view(r.1@) == seq![ActionView::Stop { reason }],
    {
        (Session { config, stage: Stage::Terminated { reason } }, one(Action::Stop { reason }))
    }

    /// The publisher gives up the current tick over `fault`.
    fn skip_tick(
        config: SessionConfig,
        service: ServiceDescriptor,
        period: Duration,
        fault: Fault,
    ) -> (r: (Session, Vec<Action>))
        ensures
            r.0@.config == config@,
            r.0@.stage == (StageView::Waiting { service, period }),
            actions_view(r.1@) == seq![ActionView::Report { fault }, ActionView::Wait { period }],
    {
        (
            Session { config, stage: Stage::Waiting { service, period } },
            two(Action::Report { fault }, Action::Wait { period }),
        )
    }

    /// The subscriber turns to the first payload of `queue`, or to the feed
    /// if there is none; `done` holds the notices that come before.
    fn decode_next(
        config: SessionConfig,
        service: ServiceDescriptor,
        queue: Vec<Vec<u8>>,
        done: Vec<Action>,
    ) -> (r: (Session, Vec<Action>))
        ensures
            (r.0@, actions_view(r.1@)) == SessionView::decode_next(
                config@,
                service,
                payloads_view(queue@),
                actions_view(done@),
            ),
    {
        let mut queue = queue;
        let mut actions = done;
        let ghost before = actions_view(actions@);
        let ghost waiting = payloads_view(queue@);
        if queue.len() == 0 {
            actions.push(Action::Pull);
            assert(actions_view(actions@) =~= before.push(ActionView::Pull));
            (Session { config, stage: Stage::Pulling { service } }, actions)
        } else {
            let payload = queue.remove(0);
            assert(payloads_view(queue@) =~= waiting.drop_first());
            assert(payload@ == waiting.first());
            actions.push(Action::Decode { payload });
            assert(actions_view(actions@) =~= before.push(
                ActionView::Decode { payload: waiting.first() },
            ));
            (Session { config, stage: Stage::Decoding { service, pending: queue } }, actions)
        }
    }

    /// Tells the session what happened and learns what to do next.
    ///
    /// `event` is the outcome of the request that the session issued last.
    /// The result is the session after the event, and the actions to perform
    /// now, in order. An event that is no outcome of the request in flight,
    /// and every event after the session has ended, leaves the session as it
    /// is and asks for nothing.
    pub fn step(self, event: Event) -> (r: (Session, Vec<Action>))
        ensures
            (r.0@, actions_view(r.1@)) == self@.step(event@),
            r.0@.config == self@.config,
            self@.terminated() ==> r.0@ == self@ && r.1@.len() == 0,
    {
        let Session { config, stage } = self;
        match stage {
            Stage::Connecting => match event {
                Event::Connected => {
                    let actions = one(Action::Locate { id: config.service_id });
                    (Session { config, stage: Stage::Locating }, actions)
                },
                Event::ConnectFailed => Session::stop(config, Reason::ConnectFailed),
                _ => (Session { config, stage: Stage::Connecting }, nothing()),
            },
            Stage::Locating => match event {
                Event::Located(service) => match config.role {
                    Role::Subscriber => (
                        Session { config, stage: Stage::Subscribing { service } },
                        one(Action::Subscribe { service }),
                    ),
                    Role::Publisher { period } => (
                        Session { config, stage: Stage::Sampling { service, period } },
                        one(Action::Sample),
                    ),
                },
                Event::LookupFailed => Session::stop(config, Reason::LookupFailed),
                _ => (Session { config, stage: Stage::Locating }, nothing()),
            },
            Stage::Subscribing { service } => match event {
                Event::Subscribed => (
                    Session { config, stage: Stage::Pulling { service } },
                    one(Action::Pull),
                ),
                Event::TransportError => Session::stop(config, Reason::TransportError),
                _ => (Session { config, stage: Stage::Subscribing { service } }, nothing()),
            },
            Stage::Pulling { service } => match event {
                Event::Envelope(envelope) => {
                    let queue = payloads(&envelope);
                    Session::decode_next(config, service, queue, nothing())
                },
                Event::ChannelClosed => Session::stop(config, Reason::ChannelClosed),
                Event::TransportError => Session::stop(config, Reason::TransportError),
                _ => (Session { config, stage: Stage::Pulling { service } }, nothing()),
            },
            Stage::Decoding { service, pending } => match event {
                Event::Decoded(measurement) => {
                    let notice = if measurement.is_well_formed() {
                        Action::Emit { measurement }
                    } else {
                        Action::Report { fault: Fault::DecodeError }
                    };
                    Session::decode_next(config, service, pending, one(notice))
                },
                Event::DecodeFailed => Session::decode_next(
                    config,
                    service,
                    pending,
                    one(Action::Report { fault: Fault::DecodeError }),
                ),
                _ => (Session { config, stage: Stage::Decoding { service, pending } }, nothing()),
            },
            Stage::Sampling { service, period } => match event {
                Event::Sampled(measurement) => {
                    if measurement.is_well_formed() {
                        (
                            Session { config, stage: Stage::Encoding { service, period } },
                            one(Action::Encode { measurement }),
                        )
                    } else {
                        Session::skip_tick(config, service, period, Fault::EncodeError)
                    }
                },
                Event::SampleFailed => Session::skip_tick(
                    config,
                    service,
                    period,
                    Fault::SampleError,
                ),
                _ => (Session { config, stage: Stage::Sampling { service, period } }, nothing()),
            },
            Stage::Encoding { service, period } => match event {
                Event::Encoded(payload) => (
                    Session { config, stage: Stage::Publishing { service, period } },
                    one(Action::Publish { service, kind: DataKind::Generic, payload }),
                ),
                Event::EncodeFailed => Session::skip_tick(
                    config,
                    service,
                    period,
                    Fault::EncodeError,
                ),
                _ => (Session { config, stage: Stage::Encoding { service, period } }, nothing()),
            },
            Stage::Publishing { service, period } => match event {
                Event::Published => (
                    Session { config, stage: Stage::Waiting { service, period } },
                    one(Action::Wait { period }),
                ),
                Event::PublishFailed => Session::stop(config, Reason::PublishFailed),
                _ => (Session { config, stage: Stage::Publishing { service, period } }, nothing()),
            },
            Stage::Waiting { service, period } => match event {
                Event::TickElapsed => (
                    Session { config, stage: Stage::Sampling { service, period } },
                    one(Action::Sample),
                ),
                _ => (Session { config, stage: Stage::Waiting { service, period } }, nothing()),
            },
            Stage::Terminated { reason } => (
                Session { config, stage: Stage::Terminated { reason } },
                nothing(),
            ),
        }
    }
}

} // verus!
