//! Laws of the exchange between a publisher and a subscriber of one
//! service.

use crate::envelope::BodyView;
use crate::envelope::EnvelopeView;
use crate::laws::publisher::tick_ends_in_wait;
use crate::laws::publisher::Tick;
use crate::laws::subscriber::cleartext_record_reaches_application;
use crate::measurement::Measurement;
use crate::model::SessionView;
use crate::protocol::ActionView;
use crate::protocol::DataKind;
use crate::protocol::EventView;
use vstd::prelude::*;

verus! {

/// What a subscriber is told when the decoder has found `found` in a
/// payload.
pub open spec fn decode_result(found: Option<Measurement>) -> EventView {
    match found {
        Some(measurement) => EventView::Decoded(measurement),
        None => EventView::DecodeFailed,
    }
}

/// A reading that one session publishes reaches the application of the
/// session that receives it, unchanged, provided that the two use a codec
/// whose decoder gives back what its encoder was given.
///
/// The publisher hands the encoder's bytes to the daemon as they are. When
/// the daemon delivers them as the cleartext body of a data envelope, the
/// subscriber hands the same bytes to the decoder, and what the decoder
/// finds is what the application is given.
pub proof fn published_reading_is_received(
    publisher: SessionView,
    subscriber: SessionView,
    reading: Measurement,
    encode: spec_fn(Measurement) -> Seq<u8>,
    decode: spec_fn(Seq<u8>) -> Option<Measurement>,
)
    requires
        publisher.stage is Sampling,
        subscriber.stage is Pulling,
        reading.well_formed(),
        decode(encode(reading)) == Some(reading),
    ensures
        publisher.run(
            seq![
                EventView::Sampled(reading),
                EventView::Encoded(encode(reading)),
                EventView::Published,
            ],
        ).1 == seq![
            ActionView::Encode { measurement: reading },
            ActionView::Publish {
                service: publisher.stage->Sampling_service,
                kind: DataKind::Generic,
                payload: encode(reading),
            },
            ActionView::Wait { period: publisher.stage->Sampling_period },
        ],
        subscriber.run(
            seq![
                EventView::Envelope(
                    EnvelopeView::Data(seq![BodyView::Cleartext(encode(reading))]),
                ),
                decode_result(decode(encode(reading))),
            ],
        ) == (
            subscriber,
            seq![
                ActionView::Decode { payload: encode(reading) },
                ActionView::Emit { measurement: reading },
                ActionView::Pull,
            ],
        ),
{
    tick_ends_in_wait(publisher, Tick::Sent { reading, payload: encode(reading) });
    cleartext_record_reaches_application(subscriber, encode(reading), reading);
}

} // verus!
