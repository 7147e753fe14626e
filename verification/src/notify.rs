//! Fan-out of change events to subscribers.
//!
//! Delivery is fire-and-forget per subscriber: an event is appended to every
//! subscriber queue that still has room and is lost for a queue that is full
//! (at-most-once, no replay, no blocking of the publisher). Within one
//! queue, events are received in the order they were published.

use vstd::prelude::*;
use vstd::pervasive::VecAdditionalExecFns;

use crate::record::DeviceInfo;
use crate::record::DeviceInfoView;

verus! {

/// One change published after a successful registry mutation, carrying the
/// full current record (for a removal: the record that was removed).
#[derive(Debug, PartialEq)]
pub enum ChangeEvent {
    Added(DeviceInfo),
    Updated(DeviceInfo),
    Removed(DeviceInfo),
}

/// Mathematical model of a [`ChangeEvent`].
pub enum ChangeEventView {
    Added(DeviceInfoView),
    Updated(DeviceInfoView),
    Removed(DeviceInfoView),
}

impl View for ChangeEvent {
    type V = ChangeEventView;

    open spec fn view(&self) -> ChangeEventView {
        match self {
            ChangeEvent::Added(rec) => ChangeEventView::Added(rec@),
            ChangeEvent::Updated(rec) => ChangeEventView::Updated(rec@),
            ChangeEvent::Removed(rec) => ChangeEventView::Removed(rec@),
        }
    }
}

impl Clone for ChangeEvent {
    fn clone(&self) -> (r: Self)
        ensures
            r == *self,
    {
        match self {
            ChangeEvent::Added(rec) => ChangeEvent::Added(rec.clone()),
            ChangeEvent::Updated(rec) => ChangeEvent::Updated(rec.clone()),
            ChangeEvent::Removed(rec) => ChangeEvent::Removed(rec.clone()),
        }
    }
}

/// One subscriber's bounded queue of not-yet-consumed events.
struct Channel {
    buf: Vec<ChangeEvent>,
    cap: usize,
}

impl View for Channel {
    type V = (Seq<ChangeEventView>, nat);

    closed spec fn view(&self) -> (Seq<ChangeEventView>, nat) {
        (Seq::new(self.buf@.len(), |i: int| self.buf@[i]@), self.cap as nat)
    }
}

/// The queues after publishing `e`: `e` is appended to every queue with
/// room and lost for every full queue; capacities never change.
pub open spec fn spec_publish(
    chs: Seq<(Seq<ChangeEventView>, nat)>,
    e: ChangeEventView,
) -> Seq<(Seq<ChangeEventView>, nat)> {
    Seq::new(
        chs.len(),
        |i: int|
            if chs[i].0.len() < chs[i].1 {
                (chs[i].0.push(e), chs[i].1)
            } else {
                chs[i]
            },
    )
}

/// Fans change events out to zero or more subscriber queues.
pub struct ChangeNotifier {
    channels: Vec<Channel>,
}

impl View for ChangeNotifier {
    type V = Seq<(Seq<ChangeEventView>, nat)>;

    /// One (queue, capacity) pair per registered subscriber.
    closed spec fn view(&self) -> Seq<(Seq<ChangeEventView>, nat)> {
        Seq::new(self.channels@.len(), |i: int| self.channels@[i]@)
    }
}

impl ChangeNotifier {
    /// A notifier with no subscribers.
    pub fn new() -> (r: ChangeNotifier)
        ensures
            r@ == Seq::<(Seq<ChangeEventView>, nat)>::empty(),
    {
        let r = ChangeNotifier { channels: Vec::new() };
        proof {
            assert(r@ =~= Seq::<(Seq<ChangeEventView>, nat)>::empty());
        }
        r
    }

    /// Registers a subscriber with a queue of the given capacity and returns
    /// its handle.
    pub fn register(&mut self, capacity: usize) -> (h: usize)
        ensures
            final(self)@ == old(self)@.push((Seq::<ChangeEventView>::empty(), capacity as nat)),
            h == old(self)@.len(),
    {
        let h = self.channels.len();
        let ch = Channel { buf: Vec::new(), cap: capacity };
        proof {
            assert(ch@ == (Seq::<ChangeEventView>::empty(), capacity as nat)) by {
                assert(ch@.0 =~= Seq::<ChangeEventView>::empty());
            }
        }
        self.channels.push(ch);
        proof {
            assert(final(self)@ =~= old(self)@.push(
                (Seq::<ChangeEventView>::empty(), capacity as nat),
            ));
        }
        h
    }

    /// The number of registered subscribers.
    pub fn subscriber_count(&self) -> (n: usize)
        ensures
            n == self@.len(),
    {
        self.channels.len()
    }

    /// Publishes one event to every subscriber, dropping it for subscribers
    /// whose queue is full.
    pub fn publish(&mut self, event: &ChangeEvent)
        ensures
            final(self)@ == spec_publish(old(self)@, event@),
    {
        let ghost chs0 = self@;
        let mut i: usize = 0;
        while i < self.channels.len()
            invariant
                i <= self.channels.len(),
                self@.len() == chs0.len(),
                forall|j: int| i <= j < chs0.len() ==> self@[j] == chs0[j],
                forall|j: int| 0 <= j < i ==> self@[j] == spec_publish(chs0, event@)[j],
            decreases self.channels.len() - i,
        {
            let ghost before_iter = self@;
            let mut ch = Channel { buf: Vec::new(), cap: 0 };
            self.channels.set_and_swap(i, &mut ch);
            let ghost ch_before = ch@;
            proof {
                assert(ch_before == before_iter[i as int]);
            }
            let room = ch.buf.len() < ch.cap;
            if room {
                ch.buf.push(event.clone());
                proof {
                    assert(ch@.0 =~= ch_before.0.push(event@));
                }
            }
            self.channels.set_and_swap(i, &mut ch);
            proof {
                assert(self@.len() == before_iter.len());
                assert(self@[i as int] == spec_publish(chs0, event@)[i as int]);
                assert forall|j: int| 0 <= j < i + 1 implies self@[j] == spec_publish(
                    chs0,
                    event@,
                )[j] by {
                    if j < i {
                        assert(self@[j] == before_iter[j]);
                        assert(before_iter[j] == spec_publish(chs0, event@)[j]);
                    }
                }
            }
            i = i + 1;
        }
        proof {
            assert(final(self)@ =~= spec_publish(chs0, event@));
        }
    }

    /// Takes the oldest not-yet-consumed event from the subscriber queue
    /// behind `handle`, or `None` when the queue is empty.
    pub fn recv(&mut self, handle: usize) -> (r: Option<ChangeEvent>)
        requires
            handle < old(self)@.len(),
        ensures
            final(self)@.len() == old(self)@.len(),
            old(self)@[handle as int].0.len() == 0 ==> r is None && final(self)@ == old(self)@,
            old(self)@[handle as int].0.len() > 0 ==> (match r {
                Some(e) => e@ == old(self)@[handle as int].0[0],
                None => false,
            }) && final(self)@ == old(self)@.update(
                handle as int,
                (old(self)@[handle as int].0.drop_first(), old(self)@[handle as int].1),
            ),
    {
        let mut ch = Channel { buf: Vec::new(), cap: 0 };
        self.channels.set_and_swap(handle, &mut ch);
        let ghost ch_before = ch@;
        let r = if ch.buf.len() > 0 {
            let e = ch.buf.remove(0);
            proof {
                assert(ch@.0 =~= ch_before.0.drop_first());
            }
            Some(e)
        } else {
            None
        };
        self.channels.set_and_swap(handle, &mut ch);
        proof {
            if ch_before.0.len() == 0 {
                assert(final(self)@ =~= old(self)@);
            } else {
                assert(final(self)@ =~= old(self)@.update(
                    handle as int,
                    (ch_before.0.drop_first(), ch_before.1),
                ));
            }
        }
        r
    }
}

/// Per-subscriber ordering: two events published in order stand in the
/// subscriber's queue in that order. Publishing `e1` and then `e2` to a
/// queue with room for both leaves `e1` at an earlier position than `e2`.
pub proof fn lemma_publish_order(
    chs: Seq<(Seq<ChangeEventView>, nat)>,
    i: int,
    e1: ChangeEventView,
    e2: ChangeEventView,
)
    requires
        0 <= i < chs.len(),
        chs[i].0.len() + 2 <= chs[i].1,
    ensures
        ({
            let after = spec_publish(spec_publish(chs, e1), e2);
            &&& after[i].0[chs[i].0.len() as int] == e1
            &&& after[i].0[chs[i].0.len() as int + 1] == e2
            &&& chs[i].0.len() < chs[i].0.len() + 1
        }),
{
}

} // verus!
