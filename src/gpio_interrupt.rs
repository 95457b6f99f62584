//! The registry of interrupt-driven input lines: each occupied slot owns one
//! line and feeds that line's levels into the slot's bounded queue.
use vstd::prelude::*;
use crate::event_queue::{EventQueue, offered};

verus! {

/// How many lines the registry can hold.
pub const MAX_HANDLERS: usize = 10;

/// Why a line could not be registered.
#[derive(Debug, Clone, Copy, PartialEq, Eq, Structural)]
pub enum GpioInterruptError {
    /// Every slot already holds a line.
    Full,
}

/// A hardware input line as the interrupt path uses it.
pub trait InputLine {
    /// Whether this line's pending-interrupt flag is set.
    fn is_interrupt_set(&mut self) -> bool;

    /// Whether the line reads logic low (a pressed, pulled-up button).
    fn is_low(&mut self) -> bool;

    /// Clears this line's pending-interrupt flag.
    fn clear_interrupt(&mut self);
}

/// The first empty slot at `from` or after it.
pub open spec fn first_free<L>(slots: Seq<Option<L>>, from: int) -> Option<int>
    decreases slots.len() - from,
{
    if from < 0 || from >= slots.len() {
        None
    } else if slots[from] is None {
        Some(from)
    } else {
        first_free(slots, from + 1)
    }
}

/// A fixed table of slots, each an optional line with its own event queue.
pub struct GpioRegistry<L> {
    inputs: Vec<Option<L>>,
    queues: Vec<EventQueue>,
}

impl<L> GpioRegistry<L> {
    /// The lines held, slot by slot.
    pub closed spec fn slots(&self) -> Seq<Option<L>> {
        self.inputs@
    }

    /// What each slot's queue holds, oldest first.
    pub closed spec fn queues(&self) -> Seq<Seq<bool>> {
        self.queues@.map_values(|q: EventQueue| q@)
    }

    /// The table has its fixed size.
    pub open spec fn wf(&self) -> bool {
        &&& self.slots().len() == MAX_HANDLERS
        &&& self.queues().len() == MAX_HANDLERS
    }

    /// A registry with every slot empty and every queue empty.
    pub fn new() -> (r: GpioRegistry<L>)
        ensures
            r.wf(),
            forall|i: int| 0 <= i < MAX_HANDLERS ==> r.slots()[i] is None,
            forall|i: int| 0 <= i < MAX_HANDLERS ==> r.queues()[i] == Seq::<bool>::empty(),
    {
        let mut inputs: Vec<Option<L>> = Vec::new();
        let mut queues: Vec<EventQueue> = Vec::new();
        let mut i: usize = 0;
        while i < MAX_HANDLERS
            invariant
                i <= MAX_HANDLERS,
                inputs@.len() == i,
                queues@.len() == i,
                forall|j: int| 0 <= j < i ==> inputs@[j] is None,
                forall|j: int| 0 <= j < i ==> queues@[j]@ == Seq::<bool>::empty(),
            decreases MAX_HANDLERS - i,
        {
            inputs.push(None);
            queues.push(EventQueue::new());
            i = i + 1;
        }
        GpioRegistry { inputs, queues }
    }

    /// Offers `active` to the queue of `slot` when that slot holds a line; an
    /// empty slot is left alone. A full queue drops the level.
    pub fn deliver(&mut self, slot: usize, active: bool)
        requires
            old(self).wf(),
            slot < MAX_HANDLERS,
        ensures
            final(self).wf(),
            final(self).slots() == old(self).slots(),
            old(self).slots()[slot as int] is Some ==> final(self).queues() == old(self).queues().update(
                slot as int,
                offered(old(self).queues()[slot as int], active),
            ),
            old(self).slots()[slot as int] is None ==> final(self).queues() == old(self).queues(),
    {
        if self.inputs[slot].is_some() {
            self.queues[slot].try_send(active);
            assert(self.queues() =~= old(self).queues().update(
                slot as int,
                offered(old(self).queues()[slot as int], active),
            ));
        }
    }

    /// Serves one interrupt: every occupied slot whose line has its
    /// pending-interrupt flag set gets the line's level (low is active)
    /// offered to its queue, and the flag cleared. Nothing waits: a full queue
    /// drops the level.
    pub fn dispatch(&mut self)
        where
            L: InputLine,
        requires
            old(self).wf(),
        ensures
            final(self).wf(),
            forall|i: int|
                0 <= i < MAX_HANDLERS ==> (final(self).slots()[i] is Some <==> old(self).slots()[i] is Some),
            forall|i: int|
                0 <= i < MAX_HANDLERS && old(self).slots()[i] is None ==> final(self).queues()[i] == old(self).queues()[i],
            forall|i: int|
                0 <= i < MAX_HANDLERS ==> final(self).queues()[i] == old(self).queues()[i] || exists|b: bool|
                    final(self).queues()[i] == offered(old(self).queues()[i], b),
    {
        let mut i: usize = 0;
        while i < MAX_HANDLERS
            invariant
                self.wf(),
                i <= MAX_HANDLERS,
                forall|j: int|
                    0 <= j < MAX_HANDLERS ==> (self.slots()[j] is Some <==> old(self).slots()[j] is Some),
                forall|j: int|
                    i <= j < MAX_HANDLERS ==> self.queues()[j] == old(self).queues()[j],
                forall|j: int|
                    0 <= j < i && old(self).slots()[j] is None ==> self.queues()[j] == old(self).queues()[j],
                forall|j: int|
                    0 <= j < i ==> self.queues()[j] == old(self).queues()[j] || exists|b: bool|
                        self.queues()[j] == offered(old(self).queues()[j], b),
            decreases MAX_HANDLERS - i,
        {
            let mut line: Option<L> = None;
            self.inputs.set_and_swap(i, &mut line);
            let mut fired: Option<bool> = None;
            if let Some(l) = &mut line {
                if l.is_interrupt_set() {
                    fired = Some(l.is_low());
                    l.clear_interrupt();
                }
            }
            self.inputs.set_and_swap(i, &mut line);
            if let Some(active) = fired {
                self.deliver(i, active);
            }
            i = i + 1;
        }
    }

    /// Takes the oldest level queued for `slot`, if any.
    pub fn try_receive(&mut self, slot: usize) -> (r: Option<bool>)
        requires
            old(self).wf(),
            slot < MAX_HANDLERS,
        ensures
            final(self).wf(),
            final(self).slots() == old(self).slots(),
            old(self).queues()[slot as int].len() == 0 ==> r is None && final(self).queues()
                == old(self).queues(),
            old(self).queues()[slot as int].len() > 0 ==> r == Some(old(self).queues()[slot as int][0])
                && final(self).queues() == old(self).queues().update(
                slot as int,
                old(self).queues()[slot as int].drop_first(),
            ),
    {
        let r = self.queues[slot].try_receive();
        assert(old(self).queues()[slot as int].len() == 0 ==> self.queues() =~= old(self).queues());
        assert(old(self).queues()[slot as int].len() > 0 ==> self.queues() =~= old(self).queues().update(
            slot as int,
            old(self).queues()[slot as int].drop_first(),
        ));
        r
    }
}

/// The registration of `input` into a table holding `slots`: the table after
/// it, and the slot handed out or the error.
pub open spec fn registration<L>(slots: Seq<Option<L>>, input: L) -> (Seq<Option<L>>, Result<usize, GpioInterruptError>) {
    match first_free(slots, 0) {
        Some(i) => (slots.update(i, Some(input)), Ok(i as usize)),
        None => (slots, Err(GpioInterruptError::Full)),
    }
}

proof fn lemma_first_free_skips<L>(slots: Seq<Option<L>>, from: int, to: int)
    requires
        0 <= from <= to <= slots.len(),
        forall|j: int| from <= j < to ==> slots[j] is Some,
    ensures
        first_free(slots, from) == first_free(slots, to),
    decreases to - from,
{
    if from < to {
        lemma_first_free_skips(slots, from + 1, to);
    }
}

/// Puts `input` in the first empty slot, slot 0 first, and hands out that
/// slot, whose queue then carries the line's levels; fails with `Full` when
/// every slot holds a line. Queues are not touched.
pub fn register_gpio_handler<L>(registry: &mut GpioRegistry<L>, input: L) -> (r: Result<usize, GpioInterruptError>)
    requires
        old(registry).wf(),
    ensures
        final(registry).wf(),
        (final(registry).slots(), r) == registration(old(registry).slots(), input),
        r is Err <==> forall|j: int| 0 <= j < MAX_HANDLERS ==> old(registry).slots()[j] is Some,
        final(registry).queues() == old(registry).queues(),
{
    let mut i: usize = 0;
    while i < MAX_HANDLERS
        invariant
            registry.wf(),
            *registry == *old(registry),
            i <= MAX_HANDLERS,
            forall|j: int| 0 <= j < i ==> registry.slots()[j] is Some,
        decreases MAX_HANDLERS - i,
    {
        if registry.inputs[i].is_none() {
            proof {
                lemma_first_free_skips(registry.slots(), 0, i as int);
            }
            registry.inputs.set(i, Some(input));
            return Ok(i);
        }
        i = i + 1;
    }
    proof {
        lemma_first_free_skips(registry.slots(), 0, MAX_HANDLERS as int);
    }
    Err(GpioInterruptError::Full)
}

/// The results of registering each of `inputs` in turn into a table holding
/// `slots`.
pub open spec fn registrations<L>(slots: Seq<Option<L>>, inputs: Seq<L>) -> Seq<Result<usize, GpioInterruptError>>
    decreases inputs.len(),
{
    if inputs.len() == 0 {
        Seq::empty()
    } else {
        let (next, r) = registration(slots, inputs[0]);
        seq![r] + registrations(next, inputs.drop_first())
    }
}

proof fn lemma_registrations_from<L>(slots: Seq<Option<L>>, k: int, inputs: Seq<L>)
    requires
        slots.len() == MAX_HANDLERS,
        0 <= k <= MAX_HANDLERS,
        forall|j: int| 0 <= j < k ==> slots[j] is Some,
        forall|j: int| k <= j < MAX_HANDLERS ==> slots[j] is None,
    ensures
        registrations(slots, inputs).len() == inputs.len(),
        forall|j: int|
            0 <= j < inputs.len() ==> registrations(slots, inputs)[j] == if k + j < MAX_HANDLERS {
                Ok::<usize, GpioInterruptError>((k + j) as usize)
            } else {
                Err(GpioInterruptError::Full)
            },
    decreases inputs.len(),
{
    if inputs.len() > 0 {
        lemma_first_free_skips(slots, 0, k);
        let (next, r) = registration(slots, inputs[0]);
        if k < MAX_HANDLERS {
            assert(r == Ok::<usize, GpioInterruptError>(k as usize));
            lemma_registrations_from(next, k + 1, inputs.drop_first());
        } else {
            assert(r == Err::<usize, GpioInterruptError>(GpioInterruptError::Full));
            assert(next == slots);
            lemma_registrations_from(next, k, inputs.drop_first());
        }
        let rest = registrations(next, inputs.drop_first());
        assert(registrations(slots, inputs) == seq![r] + rest);
        assert forall|j: int| 0 <= j < inputs.len() implies registrations(slots, inputs)[j]
            == if k + j < MAX_HANDLERS {
            Ok::<usize, GpioInterruptError>((k + j) as usize)
        } else {
            Err(GpioInterruptError::Full)
        } by {
            if j > 0 {
                assert(registrations(slots, inputs)[j] == rest[j - 1]);
            }
        }
    }
}

/// Into an empty table, the first `MAX_HANDLERS` registrations succeed with
/// the slots 0, 1, 2, ... in turn, so no two hand out the same queue; every
/// registration after them fails with `Full`.
pub proof fn lemma_registry_exhaustion<L>(slots: Seq<Option<L>>, inputs: Seq<L>)
    requires
        slots.len() == MAX_HANDLERS,
        forall|j: int| 0 <= j < MAX_HANDLERS ==> slots[j] is None,
    ensures
        registrations(slots, inputs).len() == inputs.len(),
        forall|j: int|
            0 <= j < inputs.len() && j < MAX_HANDLERS ==> registrations(slots, inputs)[j] == Ok::<
                usize,
                GpioInterruptError,
            >(j as usize),
        forall|j: int|
            MAX_HANDLERS <= j < inputs.len() ==> registrations(slots, inputs)[j] == Err::<
                usize,
                GpioInterruptError,
            >(GpioInterruptError::Full),
        forall|i: int, j: int|
            0 <= i < j < inputs.len() && registrations(slots, inputs)[i] is Ok && registrations(
                slots,
                inputs,
            )[j] is Ok ==> registrations(slots, inputs)[i] != registrations(slots, inputs)[j],
{
    lemma_registrations_from(slots, 0, inputs);
}

} // verus!
