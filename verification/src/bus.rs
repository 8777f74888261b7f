//! Message bus: a queue that carries notifications from workers to the one thread that
//! owns the window, in the order in which they were posted.

use crate::message::{Message, MessageView};
use std::collections::VecDeque;
use vstd::prelude::*;

verus! {

/// A message together with the worker that produced it.
#[derive(Clone, Debug, PartialEq, Eq)]
pub struct Envelope {
    pub producer: usize,
    pub message: Message,
}

/// What an `Envelope` holds, with its texts as sequences of characters.
pub struct EnvelopeView {
    pub producer: usize,
    pub message: MessageView,
}

impl View for Envelope {
    type V = EnvelopeView;

    open spec fn view(&self) -> EnvelopeView {
        EnvelopeView { producer: self.producer, message: self.message@ }
    }
}

/// The queue after `envelope` was posted to an open bus that held `pending`.
pub open spec fn after_post(pending: Seq<EnvelopeView>, envelope: EnvelopeView) -> Seq<
    EnvelopeView,
> {
    pending.push(envelope)
}

/// The queue after the oldest envelope of `pending` was taken.
pub open spec fn after_take(pending: Seq<EnvelopeView>) -> Seq<EnvelopeView> {
    pending.drop_first()
}

/// The messages inside `envelopes`, in the same order.
pub open spec fn messages_of(envelopes: Seq<EnvelopeView>) -> Seq<MessageView> {
    envelopes.map_values(|e: EnvelopeView| e.message)
}

/// The envelopes of `envelopes` that `producer` posted, in their order.
pub open spec fn from_producer(envelopes: Seq<EnvelopeView>, producer: usize) -> Seq<
    EnvelopeView,
> {
    envelopes.filter(|e: EnvelopeView| e.producer == producer)
}

/// Queue of envelopes on their way to the window.
///
/// Any number of workers post; the thread that owns the window takes. Once the bus is
/// closed, which the window does when it is destroyed, it holds nothing and accepts
/// nothing.
pub struct MessageBus {
    queue: VecDeque<Envelope>,
    open: bool,
}

impl MessageBus {
    /// The envelopes posted and not yet taken, oldest first.
    pub closed spec fn pending(&self) -> Seq<EnvelopeView> {
        self.queue@.map_values(|e: Envelope| e@)
    }

    /// Whether the bus still accepts envelopes.
    pub closed spec fn is_open(&self) -> bool {
        self.open
    }

    /// A closed bus holds nothing.
    pub closed spec fn wf(&self) -> bool {
        !self.open ==> self.queue@.len() == 0
    }

    /// An open bus that holds nothing.
    pub fn new() -> (bus: Self)
        ensures
            bus.wf(),
            bus.is_open(),
            bus.pending() == Seq::<EnvelopeView>::empty(),
    {
        let bus = MessageBus { queue: VecDeque::new(), open: true };
        assert(bus.pending() =~= Seq::<EnvelopeView>::empty());
        bus
    }

    /// Whether the bus still accepts envelopes.
    pub fn accepts(&self) -> (b: bool)
        ensures
            b == self.is_open(),
    {
        self.open
    }

    /// Number of envelopes posted and not yet taken.
    pub fn len(&self) -> (n: usize)
        ensures
            n == self.pending().len(),
    {
        self.queue.len()
    }

    /// Whether no envelope waits.
    pub fn is_empty(&self) -> (b: bool)
        ensures
            b == (self.pending().len() == 0),
    {
        self.queue.len() == 0
    }

    /// Posts `message` for `producer`. An open bus queues it behind all that wait and
    /// answers `true`; a closed bus drops it, stays as it is and answers `false`.
    pub fn post(&mut self, producer: usize, message: Message) -> (accepted: bool)
        requires
            old(self).wf(),
        ensures
            final(self).wf(),
            accepted == old(self).is_open(),
            final(self).is_open() == old(self).is_open(),
            final(self).pending() == if old(self).is_open() {
                after_post(
                    old(self).pending(),
                    EnvelopeView { producer, message: message@ },
                )
            } else {
                old(self).pending()
            },
    {
        if self.open {
            let ghost before = self.queue@;
            let envelope = Envelope { producer, message };
            self.queue.push_back(envelope);
            assert(self.pending() =~= after_post(
                before.map_values(|e: Envelope| e@),
                EnvelopeView { producer, message: message@ },
            ));
            true
        } else {
            false
        }
    }

    /// Takes the oldest envelope that waits, if one does. A closed bus hands out
    /// nothing.
    pub fn take(&mut self) -> (taken: Option<Envelope>)
        requires
            old(self).wf(),
        ensures
            final(self).wf(),
            final(self).is_open() == old(self).is_open(),
            !old(self).is_open() ==> taken is None,
            match taken {
                Some(envelope) => {
                    &&& old(self).pending().len() > 0
                    &&& envelope@ == old(self).pending()[0]
                    &&& final(self).pending() == after_take(old(self).pending())
                },
                None => {
                    &&& old(self).pending().len() == 0
                    &&& final(self).pending() == old(self).pending()
                },
            },
    {
        let ghost before = self.queue@;
        let taken = self.queue.pop_front();
        proof {
            if taken.is_some() {
                assert(self.pending() =~= after_take(before.map_values(|e: Envelope| e@)));
            } else {
                assert(self.pending() =~= before.map_values(|e: Envelope| e@));
            }
        }
        taken
    }

    /// Closes the bus: what waits is dropped, and nothing is accepted any more.
    pub fn close(&mut self)
        ensures
            final(self).wf(),
            !final(self).is_open(),
            final(self).pending() == Seq::<EnvelopeView>::empty(),
    {
        self.queue = VecDeque::new();
        self.open = false;
        assert(self.pending() =~= Seq::<EnvelopeView>::empty());
    }
}

/// One use of the bus: a worker posts, or the window's thread takes.
pub enum BusOp {
    Post(EnvelopeView),
    Take,
}

/// The history of an open bus: all that was posted, all that was delivered, and what
/// still waits.
pub struct BusHistory {
    pub posted: Seq<EnvelopeView>,
    pub delivered: Seq<EnvelopeView>,
    pub pending: Seq<EnvelopeView>,
}

/// The history after one more use of the bus.
pub open spec fn history_step(h: BusHistory, op: BusOp) -> BusHistory {
    match op {
        BusOp::Post(envelope) => BusHistory {
            posted: h.posted.push(envelope),
            delivered: h.delivered,
            pending: after_post(h.pending, envelope),
        },
        BusOp::Take => if h.pending.len() > 0 {
            BusHistory {
                posted: h.posted,
                delivered: h.delivered.push(h.pending[0]),
                pending: after_take(h.pending),
            }
        } else {
            h
        },
    }
}

/// The history of a bus that started empty and was used as `ops` says, in that order.
pub open spec fn history(ops: Seq<BusOp>) -> BusHistory
    decreases ops.len(),
{
    if ops.len() == 0 {
        BusHistory {
            posted: Seq::<EnvelopeView>::empty(),
            delivered: Seq::<EnvelopeView>::empty(),
            pending: Seq::<EnvelopeView>::empty(),
        }
    } else {
        history_step(history(ops.drop_last()), ops.last())
    }
}

/// Whatever the order of posts and takes, what was delivered followed by what waits is
/// what was posted, in the order of posting.
pub proof fn lemma_fifo(ops: Seq<BusOp>)
    ensures
        history(ops).delivered + history(ops).pending == history(ops).posted,
        history(ops).delivered.is_prefix_of(history(ops).posted),
    decreases ops.len(),
{
    if ops.len() > 0 {
        lemma_fifo(ops.drop_last());
        let h = history(ops.drop_last());
        match ops.last() {
            BusOp::Post(envelope) => {
                assert(h.delivered + h.pending.push(envelope) =~= (h.delivered
                    + h.pending).push(envelope));
            },
            BusOp::Take => {
                if h.pending.len() > 0 {
                    assert(h.delivered.push(h.pending[0]) + h.pending.drop_first() =~= h.delivered
                        + h.pending);
                }
            },
        }
    }
    assert(history(ops).delivered + history(ops).pending =~= history(ops).posted);
}

/// The messages of one producer are delivered in the order in which that producer posted
/// them, however the posts of other producers and the takes fall between them: what was
/// delivered of its messages, followed by what waits of them, is what it posted.
pub proof fn lemma_per_producer_fifo(ops: Seq<BusOp>, producer: usize)
    ensures
        from_producer(history(ops).delivered, producer) + from_producer(
            history(ops).pending,
            producer,
        ) == from_producer(history(ops).posted, producer),
        from_producer(history(ops).delivered, producer).is_prefix_of(
            from_producer(history(ops).posted, producer),
        ),
{
    lemma_fifo(ops);
    let h = history(ops);
    Seq::filter_distributes_over_add(
        h.delivered,
        h.pending,
        |e: EnvelopeView| e.producer == producer,
    );
    assert(from_producer(h.delivered, producer) + from_producer(h.pending, producer)
        =~= from_producer(h.posted, producer));
}

/// If one producer posted `a` before `b` and `b` has been delivered, then `a` was
/// delivered before it.
pub proof fn lemma_delivery_order(ops: Seq<BusOp>, i: int, j: int)
    requires
        0 <= i < j < history(ops).posted.len(),
        history(ops).posted[i].producer == history(ops).posted[j].producer,
        j < history(ops).delivered.len(),
    ensures
        i < history(ops).delivered.len(),
        history(ops).delivered[i] == history(ops).posted[i],
        history(ops).delivered[j] == history(ops).posted[j],
{
    lemma_fifo(ops);
}

} // verus!
