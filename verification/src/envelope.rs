//! The messages of the daemon's response feed, and the filter that finds
//! the application payloads in them.

use vstd::prelude::*;

verus! {

/// The body of one data item, as the daemon delivers it.
#[derive(Debug, PartialEq, Eq)]
pub enum Body {
    /// Application bytes, readable as they are.
    Cleartext(Vec<u8>),
    /// Application bytes under encryption; never decoded here.
    Encrypted(Vec<u8>),
    /// No body at all.
    Empty,
}

/// Mathematical value of a [`Body`].
pub enum BodyView {
    Cleartext(Seq<u8>),
    Encrypted(Seq<u8>),
    Empty,
}

impl View for Body {
    type V = BodyView;

    open spec fn view(&self) -> BodyView {
        match *self {
            Body::Cleartext(bytes) => BodyView::Cleartext(bytes@),
            Body::Encrypted(bytes) => BodyView::Encrypted(bytes@),
            Body::Empty => BodyView::Empty,
        }
    }
}

impl BodyView {
    /// The application payload of a body: its bytes if it is cleartext,
    /// nothing in every other case.
    pub open spec fn payload(self) -> Option<Seq<u8>> {
        match self {
            BodyView::Cleartext(bytes) => Some(bytes),
            _ => None,
        }
    }
}

/// One message of the daemon's response feed.
#[derive(Debug, PartialEq, Eq)]
pub enum ResponseEnvelope {
    /// Published data: the bodies of its items, in the order sent.
    Data(Vec<Body>),
    /// A status report.
    Status,
    /// A control message (an acknowledgement, a listing, a notice of
    /// registration and the like).
    Control,
    /// An error reported by the daemon.
    Error,
    /// A kind this client does not know.
    Unrecognised,
}

/// Mathematical value of a [`ResponseEnvelope`].
pub enum EnvelopeView {
    Data(Seq<BodyView>),
    Status,
    Control,
    Error,
    Unrecognised,
}

/// The values of a sequence of bodies.
pub open spec fn bodies_view(items: Seq<Body>) -> Seq<BodyView> {
    items.map_values(|b: Body| b@)
}

/// The values of a sequence of byte vectors.
pub open spec fn payloads_view(payloads: Seq<Vec<u8>>) -> Seq<Seq<u8>> {
    payloads.map_values(|p: Vec<u8>| p@)
}

impl View for ResponseEnvelope {
    type V = EnvelopeView;

    open spec fn view(&self) -> EnvelopeView {
        match *self {
            ResponseEnvelope::Data(items) => EnvelopeView::Data(bodies_view(items@)),
            ResponseEnvelope::Status => EnvelopeView::Status,
            ResponseEnvelope::Control => EnvelopeView::Control,
            ResponseEnvelope::Error => EnvelopeView::Error,
            ResponseEnvelope::Unrecognised => EnvelopeView::Unrecognised,
        }
    }
}

impl EnvelopeView {
    /// The cleartext payloads that an envelope carries, in the order of its
    /// items. An envelope that is not data carries none.
    pub open spec fn payloads(self) -> Seq<Seq<u8>> {
        match self {
            EnvelopeView::Data(items) => items.filter_map(|b: BodyView| b.payload()),
            _ => Seq::empty(),
        }
    }

    /// Whether this is a data envelope none of whose bodies is cleartext.
    pub open spec fn has_no_cleartext(self) -> bool {
        &&& self matches EnvelopeView::Data(items)
        &&& forall|i: int| 0 <= i < items.len() ==> !(#[trigger] items[i] is Cleartext)
    }

    /// What the envelope filter lets through: the cleartext payloads, if
    /// there is at least one.
    pub open spec fn filtered(self) -> Option<Seq<Seq<u8>>> {
        if self.payloads().len() == 0 {
            None
        } else {
            Some(self.payloads())
        }
    }
}

impl Body {
    /// The bytes of a cleartext body; `None` for a body of any other kind.
    pub fn cleartext(&self) -> (r: Option<&Vec<u8>>)
        ensures
            self@.payload() == match r {
                Some(bytes) => Some(bytes@),
                None => None,
            },
    {
        match self {
            Body::Cleartext(bytes) => Some(bytes),
            _ => None,
        }
    }
}

/// Collects the cleartext payloads of an envelope, in the order of its
/// items. Envelopes of other kinds, and bodies that are not cleartext, give
/// nothing.
pub fn payloads(envelope: &ResponseEnvelope) -> (r: Vec<Vec<u8>>)
    ensures
        payloads_view(r@) == envelope@.payloads(),
{
    let mut out: Vec<Vec<u8>> = Vec::new();
    match envelope {
        ResponseEnvelope::Data(items) => {
            let ghost f = |b: BodyView| b.payload();
            let mut i: usize = 0;
            while i < items.len()
                invariant
                    i <= items.len(),
                    f == (|b: BodyView| b.payload()),
                    payloads_view(out@) == bodies_view(items@).take(i as int).filter_map(f),
                decreases items.len() - i,
            {
                proof {
                    bodies_view(items@).lemma_filter_map_take_succ(f, i as int);
                }
                let ghost before = payloads_view(out@);
                match items[i].cleartext() {
                    Some(bytes) => {
                        let copy = bytes.clone();
                        assert(copy@ =~= bytes@);
                        out.push(copy);
                        assert(payloads_view(out@) =~= before + seq![bytes@]);
                    },
                    None => {},
                }
                i += 1;
            }
            assert(bodies_view(items@).take(i as int) =~= bodies_view(items@));
        },
        _ => {},
    }
    out
}

/// The envelope filter. Gives the cleartext payloads of a data envelope, in
/// the order of its items, and `None` where there is nothing to decode: for
/// every envelope that is not data, and for a data envelope none of whose
/// bodies is cleartext.
pub fn filter(envelope: &ResponseEnvelope) -> (r: Option<Vec<Vec<u8>>>)
    ensures
        envelope@.filtered() == match r {
            Some(found) => Some(payloads_view(found@)),
            None => None,
        },
        !(envelope@ is Data) ==> r is None,
        envelope@.has_no_cleartext() ==> r is None,
{
    proof {
        if envelope@.has_no_cleartext() {
            no_cleartext_is_filtered(envelope@);
        }
    }
    let found = payloads(envelope);
    if found.len() == 0 {
        None
    } else {
        Some(found)
    }
}

/// The filter lets no envelope through that is not data.
pub proof fn non_data_is_filtered(envelope: EnvelopeView)
    requires
        !(envelope is Data),
    ensures
        envelope.filtered() is None,
{
}

/// The filter lets no data envelope through whose bodies are all other than
/// cleartext.
pub proof fn no_cleartext_is_filtered(envelope: EnvelopeView)
    requires
        envelope.has_no_cleartext(),
    ensures
        envelope.filtered() is None,
    decreases envelope->Data_0.len(),
{
    let items = envelope->Data_0;
    if items.len() > 0 {
        let rest = EnvelopeView::Data(items.drop_last());
        assert(rest.has_no_cleartext());
        no_cleartext_is_filtered(rest);
    }
}

/// Whatever the filter lets through is the bytes of a cleartext body of the
/// envelope: nothing encrypted and nothing made up reaches a decoder.
pub proof fn payloads_come_from_cleartext(envelope: EnvelopeView, k: int)
    requires
        0 <= k < envelope.payloads().len(),
    ensures
        envelope is Data,
        envelope->Data_0.contains(BodyView::Cleartext(envelope.payloads()[k])),
{
    let items = envelope->Data_0;
    let bytes = envelope.payloads()[k];
    let f = |b: BodyView| b.payload();
    assert(items.filter_map(f).contains(bytes));
    items.lemma_filter_map_contains(f, bytes);
    let body = choose|body: BodyView| #[trigger] items.contains(body) && f(body) == Some(bytes);
    assert(body == BodyView::Cleartext(bytes));
}

/// The filter hands on the bytes of a data envelope's single cleartext
/// body, unchanged.
pub proof fn cleartext_is_passed(bytes: Seq<u8>)
    ensures
        EnvelopeView::Data(seq![BodyView::Cleartext(bytes)]).filtered() == Some(seq![bytes]),
{
    Seq::lemma_filter_map_singleton(BodyView::Cleartext(bytes), |b: BodyView| b.payload());
}

} // verus!
