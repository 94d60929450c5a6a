//! The event stream of one subscription.

use crate::event::{Event, StreamType};
use crate::vendor::{events_of, lemma_events_of_empty, lemma_events_of_push, VendorItem};
use vstd::prelude::*;

verus! {

/// The adapter between one vendor subscription and its consumer.
///
/// It starts out streaming. Each delivery pulled from the vendor is handed to
/// [`EventStream::next_event`], which yields the event for it at once. When the
/// vendor's delivery ends, the stream has ended for good: a new subscription
/// takes a new stream.
pub struct EventStream {
    ty: StreamType,
    ended: bool,
    delivered: Ghost<Seq<VendorItem>>,
    yielded: Ghost<Seq<Event>>,
}

impl EventStream {
    /// The feed this stream was opened for.
    pub closed spec fn selector(&self) -> StreamType {
        self.ty
    }

    /// Whether the vendor's delivery has ended.
    pub closed spec fn ended(&self) -> bool {
        self.ended
    }

    /// The items taken from the vendor so far, oldest first.
    pub closed spec fn delivered(&self) -> Seq<VendorItem> {
        self.delivered@
    }

    /// The events handed to the consumer so far, oldest first.
    pub closed spec fn yielded(&self) -> Seq<Event> {
        self.yielded@
    }

    /// What holds of a stream in every state: it has taken only items of its own
    /// feed, and what it has yielded is the image of what it has taken.
    #[verifier::type_invariant]
    pub open spec fn wf(&self) -> bool {
        &&& self.yielded() == events_of(self.delivered())
        &&& forall|i: int|
            0 <= i < self.delivered().len() ==> (#[trigger] self.delivered()[i]).kind()
                == self.selector()
    }

    /// A stream for a subscription that was just opened.
    pub fn open(ty: StreamType) -> (stream: EventStream)
        ensures
            stream.wf(),
            stream.selector() == ty,
            !stream.ended(),
            stream.delivered() == Seq::<VendorItem>::empty(),
            stream.yielded() == Seq::<Event>::empty(),
    {
        proof {
            lemma_events_of_empty();
        }
        EventStream { ty, ended: false, delivered: Ghost(Seq::empty()), yielded: Ghost(Seq::empty()) }
    }

    /// The feed this stream was opened for.
    pub fn stream_type(&self) -> (ty: StreamType)
        ensures
            ty == self.selector(),
    {
        self.ty
    }

    /// Whether the stream has ended.
    pub fn has_ended(&self) -> (ended: bool)
        ensures
            ended == self.ended(),
    {
        self.ended
    }

    /// Takes the outcome of one pull from the vendor, `None` when its delivery
    /// has ended, and gives what the consumer sees for it.
    ///
    /// While the stream is live an item yields its event, and the end of
    /// delivery ends the stream. An ended stream yields nothing more,
    /// whatever it is handed.
    pub fn next_event(&mut self, pulled: Option<VendorItem>) -> (event: Option<Event>)
        requires
            pulled matches Some(item) ==> item.kind() == old(self).selector(),
        ensures
            final(self).wf(),
            final(self).selector() == old(self).selector(),
            old(self).ended() ==> {
                &&& event is None
                &&& final(self).ended()
                &&& final(self).delivered() == old(self).delivered()
                &&& final(self).yielded() == old(self).yielded()
            },
            !old(self).ended() ==> match pulled {
                Some(item) => {
                    &&& event == Some(item.event())
                    &&& !final(self).ended()
                    &&& final(self).delivered() == old(self).delivered().push(item)
                    &&& final(self).yielded() == old(self).yielded().push(item.event())
                },
                None => {
                    &&& event is None
                    &&& final(self).ended()
                    &&& final(self).delivered() == old(self).delivered()
                    &&& final(self).yielded() == old(self).yielded()
                },
            },
    {
        proof {
            use_type_invariant(&*self);
        }
        if self.ended {
            return None;
        }
        match pulled {
            Some(item) => {
                let ghost delivered = self.delivered@.push(item);
                let ghost yielded = self.yielded@.push(item.event());
                proof {
                    lemma_events_of_push(self.delivered@, item);
                }
                *self = EventStream {
                    ty: self.ty,
                    ended: false,
                    delivered: Ghost(delivered),
                    yielded: Ghost(yielded),
                };
                Some(item.into_event())
            },
            None => {
                self.ended = true;
                None
            },
        }
    }
}

/// A stream yields exactly one event for each item it has taken, and the event
/// in each place is the one for the item in the same place. So of two items,
/// the event of the one delivered first is yielded first.
pub proof fn lemma_order_preserved(stream: EventStream, i: int, j: int)
    requires
        stream.wf(),
        0 <= i < j < stream.delivered().len(),
    ensures
        stream.yielded().len() == stream.delivered().len(),
        stream.yielded()[i] == stream.delivered()[i].event(),
        stream.yielded()[j] == stream.delivered()[j].event(),
{
}

/// Every event that a stream has yielded carries the variant of the feed the
/// stream was opened for.
pub proof fn lemma_single_variant(stream: EventStream, i: int)
    requires
        stream.wf(),
        0 <= i < stream.yielded().len(),
    ensures
        stream.yielded()[i].kind() == stream.selector(),
{
    assert(stream.yielded()[i] == stream.delivered()[i].event());
}

} // verus!
