//! Laws of the subscriber: what is decoded, in which order, and what
//! reaches the application.

use crate::config::ServiceDescriptor;
use crate::envelope::cleartext_is_passed;
use crate::envelope::BodyView;
use crate::envelope::EnvelopeView;
use crate::laws::lifecycle::run_concatenates;
use crate::measurement::Measurement;
use crate::model::SessionView;
use crate::model::StageView;
use crate::protocol::ActionView;
use crate::protocol::EventView;
use crate::protocol::Fault;
use vstd::prelude::*;

verus! {

/// What the application is told about one decoded payload: the record if it
/// is well formed, a decode fault in every other case.
pub open spec fn notice_for(result: EventView) -> ActionView {
    match result {
        EventView::Decoded(measurement) if measurement.well_formed() => ActionView::Emit {
            measurement,
        },
        _ => ActionView::Report { fault: Fault::DecodeError },
    }
}

/// Whether an event is the outcome of a request to decode.
pub open spec fn is_decode_result(event: EventView) -> bool {
    event is Decoded || event is DecodeFailed
}

/// The actions by which a subscriber works through `payloads` when the
/// decoder answers with `results`: each payload is handed out for decoding,
/// and the notice for its result follows before the next payload is.
pub open spec fn decode_trace(payloads: Seq<Seq<u8>>, results: Seq<EventView>) -> Seq<ActionView>
    decreases payloads.len(),
{
    if payloads.len() == 0 {
        Seq::empty()
    } else {
        seq![ActionView::Decode { payload: payloads.first() }, notice_for(results.first())]
            + decode_trace(payloads.drop_first(), results.drop_first())
    }
}

/// Working through a queue of payloads: once the notices `done` and the
/// first request are out, the decoder's `results` bring the session back
/// to the feed, and the actions on the way are those of [`decode_trace`].
proof fn queue_is_drained(
    session: SessionView,
    service: ServiceDescriptor,
    queue: Seq<Seq<u8>>,
    done: Seq<ActionView>,
    results: Seq<EventView>,
)
    requires
        results.len() == queue.len(),
        forall|i: int| 0 <= i < results.len() ==> is_decode_result(#[trigger] results[i]),
    ensures
        ({
            let (next, first) = SessionView::decode_next(session.config, service, queue, done);
            let (last, rest) = next.run(results);
            &&& last == session.at(StageView::Pulling { service })
            &&& first + rest == done + decode_trace(queue, results).push(ActionView::Pull)
        }),
    decreases queue.len(),
{
    let (next, first) = SessionView::decode_next(session.config, service, queue, done);
    let (last, rest) = next.run(results);
    if queue.len() == 0 {
        assert(first + rest =~= done + decode_trace(queue, results).push(ActionView::Pull));
    } else {
        let result = results.first();
        let notice = seq![notice_for(result)];
        assert(is_decode_result(results[0]));
        assert(next.step(result) == SessionView::decode_next(
            session.config,
            service,
            queue.drop_first(),
            notice,
        ));
        queue_is_drained(session, service, queue.drop_first(), notice, results.drop_first());
        let (then, second) = SessionView::decode_next(
            session.config,
            service,
            queue.drop_first(),
            notice,
        );
        let (end, tail) = then.run(results.drop_first());
        assert(rest == second + tail);
        assert(first + rest =~= done + decode_trace(queue, results).push(ActionView::Pull));
    }
}

/// The subscriber hands out the cleartext payloads of an envelope for
/// decoding one by one, in the order of the envelope's items, and nothing
/// else. After each it tells the application the record, if the payload held
/// a well-formed one, or a decode fault, and goes on either way. When the
/// last is done it is back at the feed and asks for the next envelope. An
/// envelope without cleartext payload is passed over at once.
pub proof fn envelope_is_decoded_in_order(
    session: SessionView,
    envelope: EnvelopeView,
    results: Seq<EventView>,
)
    requires
        session.stage is Pulling,
        results.len() == envelope.payloads().len(),
        forall|i: int| 0 <= i < results.len() ==> is_decode_result(#[trigger] results[i]),
    ensures
        session.run(seq![EventView::Envelope(envelope)] + results) == (
            session,
            decode_trace(envelope.payloads(), results).push(ActionView::Pull),
        ),
{
    let service = session.stage->Pulling_service;
    let events = seq![EventView::Envelope(envelope)] + results;
    assert(events.first() == EventView::Envelope(envelope));
    assert(events.drop_first() =~= results);
    queue_is_drained(session, service, envelope.payloads(), Seq::empty(), results);
    assert(Seq::<ActionView>::empty() + decode_trace(envelope.payloads(), results).push(
        ActionView::Pull,
    ) =~= decode_trace(envelope.payloads(), results).push(ActionView::Pull));
}

/// The bytes of a data envelope's cleartext body reach the decoder
/// unchanged, and the well-formed record that the decoder finds in them
/// reaches the application unchanged.
pub proof fn cleartext_record_reaches_application(
    session: SessionView,
    bytes: Seq<u8>,
    measurement: Measurement,
)
    requires
        session.stage is Pulling,
        measurement.well_formed(),
    ensures
        session.run(
            seq![
                EventView::Envelope(EnvelopeView::Data(seq![BodyView::Cleartext(bytes)])),
                EventView::Decoded(measurement),
            ],
        ) == (
            session,
            seq![
                ActionView::Decode { payload: bytes },
                ActionView::Emit { measurement },
                ActionView::Pull,
            ],
        ),
{
    let envelope = EnvelopeView::Data(seq![BodyView::Cleartext(bytes)]);
    let results = seq![EventView::Decoded(measurement)];
    cleartext_is_passed(bytes);
    assert(envelope.payloads() == seq![bytes]);
    envelope_is_decoded_in_order(session, envelope, results);
    assert(seq![EventView::Envelope(envelope)] + results =~= seq![
        EventView::Envelope(envelope),
        EventView::Decoded(measurement),
    ]);
    reveal_with_fuel(decode_trace, 3);
    assert(seq![bytes].drop_first().len() == 0);
    assert(decode_trace(seq![bytes], results).push(ActionView::Pull) =~= seq![
        ActionView::Decode { payload: bytes },
        ActionView::Emit { measurement },
        ActionView::Pull,
    ]);
}

/// A record reaches the application only in answer to its decoding, and only
/// if it is well formed.
pub proof fn emit_only_what_was_decoded(session: SessionView, event: EventView, i: int)
    requires
        0 <= i < session.step(event).1.len(),
        session.step(event).1[i] is Emit,
    ensures
        session.stage is Decoding,
        event is Decoded,
        event->Decoded_0.well_formed(),
        session.step(event).1[i] == (ActionView::Emit { measurement: event->Decoded_0 }),
{
}

/// The events of a feed: each envelope in turn, followed by what the decoder
/// makes of its payloads.
pub open spec fn feed_events(envelopes: Seq<EnvelopeView>, results: Seq<Seq<EventView>>) -> Seq<
    EventView,
>
    decreases envelopes.len(),
{
    if envelopes.len() == 0 {
        Seq::empty()
    } else {
        seq![EventView::Envelope(envelopes.first())] + results.first() + feed_events(
            envelopes.drop_first(),
            results.drop_first(),
        )
    }
}

/// What a subscriber asks for over a feed: for each envelope in turn the
/// actions of [`decode_trace`], and then the next envelope.
pub open spec fn feed_trace(envelopes: Seq<EnvelopeView>, results: Seq<Seq<EventView>>) -> Seq<
    ActionView,
>
    decreases envelopes.len(),
{
    if envelopes.len() == 0 {
        Seq::empty()
    } else {
        decode_trace(envelopes.first().payloads(), results.first()).push(ActionView::Pull)
            + feed_trace(envelopes.drop_first(), results.drop_first())
    }
}

/// Whether `results` holds, for each envelope, one decoder result for each
/// of its cleartext payloads.
pub open spec fn results_fit(envelopes: Seq<EnvelopeView>, results: Seq<Seq<EventView>>) -> bool {
    &&& results.len() == envelopes.len()
    &&& forall|i: int|
        0 <= i < envelopes.len() ==> (#[trigger] results[i]).len() == envelopes[i].payloads().len()
    &&& forall|i: int, j: int|
        0 <= i < results.len() && 0 <= j < results[i].len() ==> is_decode_result(
            #[trigger] results[i][j],
        )
}

/// Over a whole feed the subscriber keeps the order in which the daemon
/// sent: envelope after envelope, and within each its cleartext payloads in
/// the order of its items. No payload is dropped, none is decoded twice, and
/// no failure to decode keeps the later ones from being handled.
pub proof fn feed_is_decoded_in_order(
    session: SessionView,
    envelopes: Seq<EnvelopeView>,
    results: Seq<Seq<EventView>>,
)
    requires
        session.stage is Pulling,
        results_fit(envelopes, results),
    ensures
        session.run(feed_events(envelopes, results)) == (session, feed_trace(envelopes, results)),
    decreases envelopes.len(),
{
    if envelopes.len() > 0 {
        let head = seq![EventView::Envelope(envelopes.first())] + results.first();
        let tail = feed_events(envelopes.drop_first(), results.drop_first());
        assert forall|j: int| 0 <= j < results.first().len() implies is_decode_result(
            #[trigger] results.first()[j],
        ) by {
            assert(is_decode_result(results[0][j]));
        }
        envelope_is_decoded_in_order(session, envelopes.first(), results.first());
        assert(results_fit(envelopes.drop_first(), results.drop_first())) by {
            let es = envelopes.drop_first();
            let rs = results.drop_first();
            assert forall|i: int| 0 <= i < es.len() implies (#[trigger] rs[i]).len()
                == es[i].payloads().len() by {
                assert(rs[i] == results[i + 1]);
                assert(es[i] == envelopes[i + 1]);
            }
            assert forall|i: int, j: int|
                0 <= i < rs.len() && 0 <= j < rs[i].len() implies is_decode_result(
                #[trigger] rs[i][j],
            ) by {
                assert(rs[i] == results[i + 1]);
                assert(is_decode_result(results[i + 1][j]));
            }
        }
        feed_is_decoded_in_order(session, envelopes.drop_first(), results.drop_first());
        run_concatenates(session, head, tail);
    }
}

} // verus!
