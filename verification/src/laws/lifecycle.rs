//! Laws of the whole life of a session: how it ends, what it keeps, and that
//! it has one request in flight at a time.

use crate::config::ConfigView;
use crate::config::ServiceDescriptor;
use crate::model::SessionView;
use crate::model::StageView;
use crate::protocol::ActionView;
use crate::protocol::EventView;
use crate::protocol::Reason;
use vstd::prelude::*;

verus! {

/// A session that has ended stays as it is and asks for nothing, whatever
/// it is told afterwards.
pub proof fn terminated_is_final(session: SessionView, events: Seq<EventView>)
    requires
        session.terminated(),
    ensures
        session.run(events) == (session, Seq::<ActionView>::empty()),
    decreases events.len(),
{
    if events.len() > 0 {
        terminated_is_final(session, events.drop_first());
        assert(Seq::<ActionView>::empty() + Seq::<ActionView>::empty() =~= Seq::<
            ActionView,
        >::empty());
    }
}

/// A run whose first event ends the session consists of that one
/// transition.
pub(crate) proof fn ended_by_first(session: SessionView, first: EventView, later: Seq<EventView>)
    requires
        session.step(first).0.terminated(),
    ensures
        session.run(seq![first] + later) == session.step(first),
{
    let events = seq![first] + later;
    assert(events.first() == first);
    assert(events.drop_first() =~= later);
    let (next, actions) = session.step(first);
    terminated_is_final(next, later);
    assert(actions + Seq::<ActionView>::empty() =~= actions);
}

/// A run over two stretches of events is the run over the first, followed
/// by the run over the second from where the first ended.
pub proof fn run_concatenates(session: SessionView, first: Seq<EventView>, second: Seq<EventView>)
    ensures
        session.run(first + second) == ({
            let (middle, early) = session.run(first);
            let (last, late) = middle.run(second);
            (last, early + late)
        }),
    decreases first.len(),
{
    let (middle, early) = session.run(first);
    let (last, late) = middle.run(second);
    if first.len() == 0 {
        assert(first + second =~= second);
        assert(early + late =~= late);
    } else {
        let (next, head) = session.step(first.first());
        let (mid, tail) = next.run(first.drop_first());
        let (end, rest) = mid.run(second);
        assert((first + second).first() == first.first());
        assert((first + second).drop_first() =~= first.drop_first() + second);
        run_concatenates(next, first.drop_first(), second);
        assert(head + (tail + rest) =~= (head + tail) + rest);
    }
}

/// If the connection fails, the session ends with `ConnectFailed` and never
/// asks for anything but to stop.
pub proof fn connect_failure_ends_session(config: ConfigView, later: Seq<EventView>)
    ensures
        SessionView::initial(config).run(seq![EventView::ConnectFailed] + later) == (
            SessionView::initial(config).at(
                StageView::Terminated { reason: Reason::ConnectFailed },
            ),
            seq![ActionView::Stop { reason: Reason::ConnectFailed }],
        ),
{
    ended_by_first(SessionView::initial(config), EventView::ConnectFailed, later);
}

/// If the lookup fails, the session ends with `LookupFailed`. From its
/// beginning to whatever it is told afterwards it has asked for the lookup
/// and then to stop: never to subscribe, to publish or to sample.
pub proof fn lookup_failure_ends_session(config: ConfigView, later: Seq<EventView>)
    ensures
        SessionView::initial(config).run(
            seq![EventView::Connected, EventView::LookupFailed] + later,
        ) == (
            SessionView::initial(config).at(StageView::Terminated { reason: Reason::LookupFailed }),
            seq![
                ActionView::Locate { id: config.service_id },
                ActionView::Stop { reason: Reason::LookupFailed },
            ],
        ),
{
    let start = SessionView::initial(config);
    let events = seq![EventView::Connected, EventView::LookupFailed] + later;
    let locating = start.at(StageView::Locating);
    assert(events.first() == EventView::Connected);
    assert(events.drop_first() =~= seq![EventView::LookupFailed] + later);
    ended_by_first(locating, EventView::LookupFailed, later);
    assert(seq![ActionView::Locate { id: config.service_id }] + seq![
        ActionView::Stop { reason: Reason::LookupFailed },
    ] =~= seq![
        ActionView::Locate { id: config.service_id },
        ActionView::Stop { reason: Reason::LookupFailed },
    ]);
}

/// A transition either does nothing, or it ends with the one request that
/// the session then waits on, or it ends the session with a notice to stop.
/// Nothing before its last action is a request, so exactly one request is in
/// flight for as long as the session runs.
pub proof fn one_request_in_flight(session: SessionView, event: EventView)
    ensures
        ({
            let (next, actions) = session.step(event);
            if actions.len() == 0 {
                next == session
            } else {
                &&& !session.terminated()
                &&& forall|i: int| 0 <= i < actions.len() - 1 ==> !(#[trigger] actions[i]).is_request()
                &&& if next.terminated() {
                    actions.last() is Stop
                } else {
                    actions.last().is_request() && next.stage.awaits(actions.last())
                }
            }
        }),
{
}

/// The service that a session attaches to is the one that its lookup
/// resolved, whatever its role.
pub proof fn located_service_is_adopted(session: SessionView, service: ServiceDescriptor)
    requires
        session.stage is Locating,
    ensures
        session.step(EventView::Located(service)).0.stage.service() == Some(service),
        session.step(EventView::Located(service)).0.stage.awaits(
            session.step(EventView::Located(service)).1.last(),
        ),
{
}

/// The settings of a session never change, and once its lookup has resolved
/// a service the session stays with that service until it ends.
pub proof fn settings_and_service_are_kept(session: SessionView, event: EventView)
    ensures
        session.step(event).0.config == session.config,
        session.stage.service() is Some ==> {
            ||| session.step(event).0.stage.service() == session.stage.service()
            ||| session.step(event).0.terminated()
        },
{
}

} // verus!
