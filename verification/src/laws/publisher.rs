//! Laws of the publisher: what a tick asks for, and when data is sent.

use crate::config::ServiceDescriptor;
use crate::laws::lifecycle::ended_by_first;
use crate::laws::lifecycle::run_concatenates;
use crate::measurement::Measurement;
use crate::model::SessionView;
use crate::model::StageView;
use crate::protocol::ActionView;
use crate::protocol::DataKind;
use crate::protocol::EventView;
use crate::protocol::Fault;
use crate::protocol::Reason;
use core::time::Duration;
use vstd::prelude::*;

verus! {

/// How one tick of a publisher goes, short of a failed publish request.
pub enum Tick {
    /// The sensor gives no reading.
    NoReading,
    /// The sensor gives a reading for which there are no payload bytes:
    /// either it is not well formed, or encoding it fails.
    NoPayload { reading: Measurement },
    /// The sensor gives a well-formed reading, it is encoded as `payload`,
    /// and the daemon acknowledges it.
    Sent { reading: Measurement, payload: Seq<u8> },
}

impl Tick {
    /// Whether the tick can go this way: what is sent is well formed.
    pub open spec fn possible(self) -> bool {
        self matches Tick::Sent { reading, .. } ==> reading.well_formed()
    }

    /// What the session is told in the course of the tick.
    pub open spec fn events(self) -> Seq<EventView> {
        match self {
            Tick::NoReading => seq![EventView::SampleFailed],
            Tick::NoPayload { reading } => if reading.well_formed() {
                seq![EventView::Sampled(reading), EventView::EncodeFailed]
            } else {
                seq![EventView::Sampled(reading)]
            },
            Tick::Sent { reading, payload } => seq![
                EventView::Sampled(reading),
                EventView::Encoded(payload),
                EventView::Published,
            ],
        }
    }

    /// What the session asks for in the course of the tick, after it has
    /// asked for the sample.
    pub open spec fn actions(self, service: ServiceDescriptor, period: Duration) -> Seq<ActionView> {
        match self {
            Tick::NoReading => seq![
                ActionView::Report { fault: Fault::SampleError },
                ActionView::Wait { period },
            ],
            Tick::NoPayload { reading } => if reading.well_formed() {
                seq![
                    ActionView::Encode { measurement: reading },
                    ActionView::Report { fault: Fault::EncodeError },
                    ActionView::Wait { period },
                ]
            } else {
                seq![ActionView::Report { fault: Fault::EncodeError }, ActionView::Wait { period }]
            },
            Tick::Sent { reading, payload } => seq![
                ActionView::Encode { measurement: reading },
                ActionView::Publish { service, kind: DataKind::Generic, payload },
                ActionView::Wait { period },
            ],
        }
    }

    /// The number of publish requests of the tick.
    pub open spec fn publishes(self) -> nat {
        if self is Sent {
            1
        } else {
            0
        }
    }
}

/// The events of a stretch of ticks: those of each tick in turn, and after
/// each the end of the period.
pub open spec fn ticks_events(ticks: Seq<Tick>) -> Seq<EventView>
    decreases ticks.len(),
{
    if ticks.len() == 0 {
        Seq::empty()
    } else {
        ticks.first().events().push(EventView::TickElapsed) + ticks_events(ticks.drop_first())
    }
}

/// What a publisher asks for over a stretch of ticks: the actions of each
/// tick in turn, and after each the next sample.
pub open spec fn ticks_actions(
    ticks: Seq<Tick>,
    service: ServiceDescriptor,
    period: Duration,
) -> Seq<ActionView>
    decreases ticks.len(),
{
    if ticks.len() == 0 {
        Seq::empty()
    } else {
        ticks.first().actions(service, period).push(ActionView::Sample) + ticks_actions(
            ticks.drop_first(),
            service,
            period,
        )
    }
}

/// The number of ticks of a stretch on which data is sent.
pub open spec fn ticks_sent(ticks: Seq<Tick>) -> nat
    decreases ticks.len(),
{
    if ticks.len() == 0 {
        0
    } else {
        ticks.first().publishes() + ticks_sent(ticks.drop_first())
    }
}

/// The number of publish requests among `actions`.
pub open spec fn publish_count(actions: Seq<ActionView>) -> nat
    decreases actions.len(),
{
    if actions.len() == 0 {
        0
    } else {
        publish_count(actions.drop_last()) + if actions.last() is Publish {
            1nat
        } else {
            0nat
        }
    }
}

/// One tick, whichever way it goes, ends with the session waiting one
/// period; the session has then asked for what [`Tick::actions`] says.
pub proof fn tick_ends_in_wait(session: SessionView, tick: Tick)
    requires
        session.stage is Sampling,
        tick.possible(),
    ensures
        session.run(tick.events()) == (
            session.at(
                StageView::Waiting {
                    service: session.stage->Sampling_service,
                    period: session.stage->Sampling_period,
                },
            ),
            tick.actions(session.stage->Sampling_service, session.stage->Sampling_period),
        ),
{
    let service = session.stage->Sampling_service;
    let period = session.stage->Sampling_period;
    let events = tick.events();
    let nothing = Seq::<EventView>::empty();
    let waiting = session.at(StageView::Waiting { service, period });
    assert(waiting.run(nothing) == (waiting, Seq::<ActionView>::empty()));
    match tick {
        Tick::NoReading => {
            assert(events.drop_first() =~= nothing);
            assert(session.run(events).1 =~= tick.actions(service, period));
        },
        Tick::NoPayload { reading } => {
            if reading.well_formed() {
                let encoding = session.at(StageView::Encoding { service, period });
                let e1 = seq![EventView::EncodeFailed];
                assert(events.drop_first() =~= e1);
                assert(e1.drop_first() =~= nothing);
                assert(encoding.run(e1).1 =~= seq![
                    ActionView::Report { fault: Fault::EncodeError },
                    ActionView::Wait { period },
                ]);
                assert(session.run(events).1 =~= tick.actions(service, period));
            } else {
                assert(events.drop_first() =~= nothing);
                assert(session.run(events).1 =~= tick.actions(service, period));
            }
        },
        Tick::Sent { reading, payload } => {
            let encoding = session.at(StageView::Encoding { service, period });
            let publishing = session.at(StageView::Publishing { service, period });
            let e2 = seq![EventView::Published];
            let e1 = seq![EventView::Encoded(payload), EventView::Published];
            assert(events.drop_first() =~= e1);
            assert(e1.drop_first() =~= e2);
            assert(e2.drop_first() =~= nothing);
            assert(publishing.run(e2).1 =~= seq![ActionView::Wait { period }]);
            assert(encoding.run(e1).1 =~= seq![
                ActionView::Publish { service, kind: DataKind::Generic, payload },
                ActionView::Wait { period },
            ]);
            assert(session.run(events).1 =~= tick.actions(service, period));
        },
    }
}

/// When the period is over, the publisher samples again.
proof fn next_tick_begins(session: SessionView)
    requires
        session.stage is Sampling,
    ensures
        session.at(
            StageView::Waiting {
                service: session.stage->Sampling_service,
                period: session.stage->Sampling_period,
            },
        ).run(seq![EventView::TickElapsed]) == (session, seq![ActionView::Sample]),
{
    let service = session.stage->Sampling_service;
    let period = session.stage->Sampling_period;
    let waiting = session.at(StageView::Waiting { service, period });
    let over = seq![EventView::TickElapsed];
    assert(over.drop_first() =~= Seq::<EventView>::empty());
    assert(session.run(Seq::<EventView>::empty()).1 =~= Seq::<ActionView>::empty());
    assert(waiting.step(EventView::TickElapsed).0 == session);
    assert(seq![ActionView::Sample] + Seq::<ActionView>::empty() =~= seq![ActionView::Sample]);
}

/// Over any stretch of ticks the publisher waits one period after every
/// tick, whether the tick failed or not, and only then samples again; and
/// what it asks for is exactly what [`ticks_actions`] says.
pub proof fn ticks_follow_the_period(session: SessionView, ticks: Seq<Tick>)
    requires
        session.stage is Sampling,
        forall|i: int| 0 <= i < ticks.len() ==> (#[trigger] ticks[i]).possible(),
    ensures
        session.run(ticks_events(ticks)) == (
            session,
            ticks_actions(
                ticks,
                session.stage->Sampling_service,
                session.stage->Sampling_period,
            ),
        ),
    decreases ticks.len(),
{
    if ticks.len() > 0 {
        let service = session.stage->Sampling_service;
        let period = session.stage->Sampling_period;
        let tick = ticks.first();
        let over = seq![EventView::TickElapsed];
        assert(ticks[0].possible());
        tick_ends_in_wait(session, tick);
        next_tick_begins(session);
        run_concatenates(session, tick.events(), over);
        assert(tick.events() + over =~= tick.events().push(EventView::TickElapsed));
        assert(tick.actions(service, period) + seq![ActionView::Sample] =~= tick.actions(
            service,
            period,
        ).push(ActionView::Sample));
        assert forall|i: int| 0 <= i < ticks.drop_first().len() implies (
        #[trigger] ticks.drop_first()[i]).possible() by {
            assert(ticks[i + 1].possible());
        }
        ticks_follow_the_period(session, ticks.drop_first());
        run_concatenates(
            session,
            tick.events().push(EventView::TickElapsed),
            ticks_events(ticks.drop_first()),
        );
    }
}

/// A tick on which the sensor fails is given up without a publish request,
/// and the period is waited out all the same. The tick that follows it, on
/// which sampling and encoding succeed, makes exactly one publish request,
/// with the encoded payload, and waits one period again.
pub proof fn failed_sample_skips_publish(
    session: SessionView,
    measurement: Measurement,
    payload: Seq<u8>,
)
    requires
        session.stage is Sampling,
        measurement.well_formed(),
    ensures
        session.run(
            seq![
                EventView::SampleFailed,
                EventView::TickElapsed,
                EventView::Sampled(measurement),
                EventView::Encoded(payload),
                EventView::Published,
            ],
        ) == (
            session.at(
                StageView::Waiting {
                    service: session.stage->Sampling_service,
                    period: session.stage->Sampling_period,
                },
            ),
            seq![
                ActionView::Report { fault: Fault::SampleError },
                ActionView::Wait { period: session.stage->Sampling_period },
                ActionView::Sample,
                ActionView::Encode { measurement },
                ActionView::Publish {
                    service: session.stage->Sampling_service,
                    kind: DataKind::Generic,
                    payload,
                },
                ActionView::Wait { period: session.stage->Sampling_period },
            ],
        ),
{
    let service = session.stage->Sampling_service;
    let period = session.stage->Sampling_period;
    let waiting = session.at(StageView::Waiting { service, period });
    let failed = Tick::NoReading;
    let sent = Tick::Sent { reading: measurement, payload };
    let over = seq![EventView::TickElapsed];
    tick_ends_in_wait(session, failed);
    tick_ends_in_wait(session, sent);
    next_tick_begins(session);
    run_concatenates(waiting, over, sent.events());
    run_concatenates(session, failed.events(), over + sent.events());
    assert(failed.events() + (over + sent.events()) =~= seq![
        EventView::SampleFailed,
        EventView::TickElapsed,
        EventView::Sampled(measurement),
        EventView::Encoded(payload),
        EventView::Published,
    ]);
    assert(failed.actions(service, period) + (seq![ActionView::Sample] + sent.actions(
        service,
        period,
    )) =~= seq![
        ActionView::Report { fault: Fault::SampleError },
        ActionView::Wait { period },
        ActionView::Sample,
        ActionView::Encode { measurement },
        ActionView::Publish { service, kind: DataKind::Generic, payload },
        ActionView::Wait { period },
    ]);
}

/// If a publish request fails, the session ends with `PublishFailed`: no
/// further tick is begun, whatever the session is told afterwards.
pub proof fn publish_failure_ends_session(session: SessionView, later: Seq<EventView>)
    requires
        session.stage is Publishing,
    ensures
        session.run(seq![EventView::PublishFailed] + later) == (
            session.at(StageView::Terminated { reason: Reason::PublishFailed }),
            seq![ActionView::Stop { reason: Reason::PublishFailed }],
        ),
{
    ended_by_first(session, EventView::PublishFailed, later);
}

/// A payload is published only in answer to its encoding, to the service
/// that the lookup resolved for this session, and as generic data.
pub proof fn publish_only_what_was_encoded(session: SessionView, event: EventView, i: int)
    requires
        0 <= i < session.step(event).1.len(),
        session.step(event).1[i] is Publish,
    ensures
        session.stage is Encoding,
        event is Encoded,
        session.step(event).1[i] == (ActionView::Publish {
            service: session.stage->Encoding_service,
            kind: DataKind::Generic,
            payload: event->Encoded_0,
        }),
{
}

/// Counting publish requests over two stretches of actions adds up.
proof fn publish_count_adds(first: Seq<ActionView>, second: Seq<ActionView>)
    ensures
        publish_count(first + second) == publish_count(first) + publish_count(second),
    decreases second.len(),
{
    if second.len() == 0 {
        assert(first + second =~= first);
    } else {
        assert((first + second).drop_last() =~= first + second.drop_last());
        assert((first + second).last() == second.last());
        publish_count_adds(first, second.drop_last());
    }
}

/// The publisher makes exactly one publish request for every tick on which
/// sampling and encoding succeed, and none for any other tick.
pub proof fn one_publish_per_good_tick(
    ticks: Seq<Tick>,
    service: ServiceDescriptor,
    period: Duration,
)
    ensures
        publish_count(ticks_actions(ticks, service, period)) == ticks_sent(ticks),
    decreases ticks.len(),
{
    if ticks.len() > 0 {
        let tick = ticks.first();
        let head = tick.actions(service, period).push(ActionView::Sample);
        one_publish_per_good_tick(ticks.drop_first(), service, period);
        publish_count_adds(head, ticks_actions(ticks.drop_first(), service, period));
        assert(publish_count(head) == tick.publishes()) by {
            reveal_with_fuel(publish_count, 5);
            let acts = tick.actions(service, period);
            assert(head.drop_last() =~= acts);
            if acts.len() == 2 {
                assert(acts.drop_last() =~= seq![acts[0]]);
                assert(seq![acts[0]].drop_last() =~= Seq::<ActionView>::empty());
            } else {
                assert(acts.drop_last() =~= seq![acts[0], acts[1]]);
                assert(seq![acts[0], acts[1]].drop_last() =~= seq![acts[0]]);
                assert(seq![acts[0]].drop_last() =~= Seq::<ActionView>::empty());
            }
        }
    }
}

} // verus!
