//! The bounded FIFO queue of line levels between the interrupt path and a
//! button's task, held in an embassy-sync channel.
use vstd::prelude::*;
use embassy_sync::blocking_mutex::raw::CriticalSectionRawMutex;
use embassy_sync::channel::Channel;

verus! {

/// How many levels a queue holds before it drops new ones.
pub const QUEUE_CAPACITY: usize = 4;

/// What a queue holds after `value` is offered to one holding `s`: appended
/// when there is room, dropped when it is full.
pub open spec fn offered(s: Seq<bool>, value: bool) -> Seq<bool> {
    if s.len() < QUEUE_CAPACITY {
        s.push(value)
    } else {
        s
    }
}

/// What a queue holds after each of `values` is offered in turn.
pub open spec fn offered_all(s: Seq<bool>, values: Seq<bool>) -> Seq<bool>
    decreases values.len(),
{
    if values.len() == 0 {
        s
    } else {
        offered_all(offered(s, values[0]), values.drop_first())
    }
}

/// A queue of line levels that never blocks its producer: a level offered to a
/// full queue is dropped. It holds an embassy-sync `Channel` of capacity four.
#[verifier::external_body]
pub struct EventQueue {
    channel: Channel<CriticalSectionRawMutex, bool, 4>,
}

/// The levels a queue holds, oldest first.
pub uninterp spec fn queued(q: EventQueue) -> Seq<bool>;

impl View for EventQueue {
    type V = Seq<bool>;

    open spec fn view(&self) -> Seq<bool> {
        queued(*self)
    }
}

impl EventQueue {
    /// An empty queue.
    ///
    /// Relies on `Channel::new`: a new channel holds no value.
    #[verifier::external_body]
    pub(crate) fn new() -> (r: EventQueue)
        ensures
            queued(r) == Seq::<bool>::empty(),
    {
        EventQueue { channel: Channel::new() }
    }

    /// Offers a level; returns whether it was taken (false: the queue was full
    /// and the level is dropped).
    ///
    /// Relies on `Channel::try_send`: the value goes to the back of the
    /// channel's deque when it holds fewer than four; otherwise `Full` comes
    /// back and the channel is left as it was.
    #[verifier::external_body]
    pub(crate) fn try_send(&mut self, value: bool) -> (r: bool)
        ensures
            queued(*final(self)) == offered(queued(*old(self)), value),
            r == (queued(*old(self)).len() < QUEUE_CAPACITY),
    {
        self.channel.try_send(value).is_ok()
    }

    /// Takes the oldest level, if any.
    ///
    /// Relies on `Channel::try_receive`: the oldest value leaves the front of
    /// the channel's deque; an empty channel gives `Empty` and stays empty.
    #[verifier::external_body]
    pub(crate) fn try_receive(&mut self) -> (r: Option<bool>)
        ensures
            queued(*old(self)).len() == 0 ==> r is None && queued(*final(self)) == queued(*old(self)),
            queued(*old(self)).len() > 0 ==> r == Some(queued(*old(self))[0]) && queued(*final(self))
                == queued(*old(self)).drop_first(),
    {
        self.channel.try_receive().ok()
    }
}

/// Levels offered to a queue that is not over capacity come out in the order
/// they were offered: the queue keeps the oldest levels up to its capacity and
/// silently drops the rest.
pub proof fn lemma_queue_keeps_oldest(s: Seq<bool>, values: Seq<bool>)
    requires
        s.len() <= QUEUE_CAPACITY,
    ensures
        s.len() + values.len() <= QUEUE_CAPACITY ==> offered_all(s, values) == s + values,
        s.len() + values.len() > QUEUE_CAPACITY ==> offered_all(s, values) == (s + values).take(
            QUEUE_CAPACITY as int,
        ),
    decreases values.len(),
{
    if values.len() == 0 {
        assert(s + values =~= s);
    } else {
        let next = offered(s, values[0]);
        lemma_queue_keeps_oldest(next, values.drop_first());
        if s.len() < QUEUE_CAPACITY {
            assert(next + values.drop_first() =~= s + values);
        } else {
            assert((s + values.drop_first()).take(QUEUE_CAPACITY as int) =~= s);
            assert((s + values).take(QUEUE_CAPACITY as int) =~= s);
        }
    }
}

/// Five levels offered to an empty queue before anything is taken: the first
/// four are held in arrival order and the fifth is absent.
pub proof fn lemma_fifth_level_dropped(values: Seq<bool>)
    requires
        values.len() == 5,
    ensures
        offered_all(Seq::<bool>::empty(), values) == values.take(4),
{
    lemma_queue_keeps_oldest(Seq::<bool>::empty(), values);
    assert(Seq::<bool>::empty() + values =~= values);
}

} // verus!
