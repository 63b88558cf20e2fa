use vstd::prelude::*;

verus! {

/// What the guard of a shared bus records: who took the bus and who gave it back.
#[derive(Clone, Copy, Debug, PartialEq, Eq, Structural)]
pub enum GuardEvent {
    Acquire(usize),
    Release(usize),
}

/// Why a request to the guard was turned down.
#[derive(Clone, Copy, Debug, PartialEq, Eq, Structural)]
pub enum BusError {
    /// Another task holds the bus.
    Busy,
}

/// The task named by an event.
pub open spec fn task_of(e: GuardEvent) -> usize {
    match e {
        GuardEvent::Acquire(t) => t,
        GuardEvent::Release(t) => t,
    }
}

/// A trace of the guard: acquisitions and releases alternate, and each
/// release is by the task that made the acquisition just before it.
pub open spec fn alternates(trace: Seq<GuardEvent>) -> bool {
    forall|i: int| 0 <= i < trace.len() ==> #[trigger] in_turn(trace, i)
}

/// Event `i` is an acquisition at an even position, and at an odd one the
/// release by the task of the event before.
pub open spec fn in_turn(trace: Seq<GuardEvent>, i: int) -> bool {
    if i % 2 == 0 {
        trace[i] is Acquire
    } else {
        trace[i] == GuardEvent::Release(task_of(trace[i - 1]))
    }
}

/// Mutual exclusion around one bus handle. The handle moves out to the task
/// that acquires it and comes back when that task releases it, so at most one
/// task can drive the bus at a time and a transaction cannot be split.
pub struct BusGuard<B> {
    bus: Option<B>,
    holder: Option<usize>,
    trace: Ghost<Seq<GuardEvent>>,
}

impl<B> BusGuard<B> {
    /// The task that holds the bus, if any.
    pub closed spec fn holder_spec(&self) -> Option<usize> {
        self.holder
    }

    /// Every acquisition and release so far, in order.
    pub closed spec fn trace(&self) -> Seq<GuardEvent> {
        self.trace@
    }

    pub closed spec fn wf(&self) -> bool {
        &&& alternates(self.trace@)
        &&& self.trace@.len() % 2 == 0 ==> self.holder is None && self.bus is Some
        &&& self.trace@.len() % 2 == 1 ==> self.holder == Option::Some(task_of(self.trace@.last())) && self.bus is None
    }

    pub fn new(bus: B) -> (r: BusGuard<B>)
        ensures
            r.wf(),
            r.holder_spec() is None,
            r.trace() == Seq::<GuardEvent>::empty(),
    {
        BusGuard { bus: Option::Some(bus), holder: Option::None, trace: Ghost(Seq::empty()) }
    }

    pub fn holder(&self) -> (r: Option<usize>)
        ensures
            r == self.holder_spec(),
    {
        self.holder
    }

    /// Hands the bus to `task` when nobody holds it.
    pub fn acquire(&mut self, task: usize) -> (r: Result<B, BusError>)
        requires
            old(self).wf(),
        ensures
            final(self).wf(),
            old(self).holder_spec() is Some ==> (r matches Err(BusError::Busy)) && final(self).holder_spec()
                == old(self).holder_spec() && final(self).trace() == old(self).trace(),
            old(self).holder_spec() is None ==> r is Ok && final(self).holder_spec() == Option::Some(task)
                && final(self).trace() == old(self).trace().push(GuardEvent::Acquire(task)),
    {
        if self.holder.is_some() {
            return Err(BusError::Busy);
        }
        let taken = self.bus.take();
        match taken {
            Option::Some(b) => {
                self.holder = Option::Some(task);
                self.trace = Ghost(self.trace@.push(GuardEvent::Acquire(task)));
                assert forall|i: int| 0 <= i < self.trace@.len() implies #[trigger] in_turn(self.trace@, i) by {
                    if i < old(self).trace@.len() {
                        assert(in_turn(old(self).trace@, i));
                        assert(self.trace@[i] == old(self).trace@[i]);
                        if i % 2 == 1 {
                            assert(self.trace@[i - 1] == old(self).trace@[i - 1]);
                        }
                    }
                }
                Ok(b)
            },
            Option::None => Err(BusError::Busy),
        }
    }

    /// Takes the bus back from `task`. Where `task` does not hold it, the
    /// handle is returned unused.
    pub fn release(&mut self, task: usize, bus: B) -> (r: Result<(), B>)
        requires
            old(self).wf(),
        ensures
            final(self).wf(),
            old(self).holder_spec() == Option::Some(task) ==> r is Ok && final(self).holder_spec() is None
                && final(self).trace() == old(self).trace().push(GuardEvent::Release(task)),
            old(self).holder_spec() != Option::Some(task) ==> r == Err::<(), B>(bus) && final(self).holder_spec()
                == old(self).holder_spec() && final(self).trace() == old(self).trace(),
    {
        match self.holder {
            Option::Some(h) => {
                if h != task {
                    return Err(bus);
                }
            },
            Option::None => {
                return Err(bus);
            },
        }
        self.bus = Option::Some(bus);
        self.holder = Option::None;
        self.trace = Ghost(self.trace@.push(GuardEvent::Release(task)));
        assert forall|i: int| 0 <= i < self.trace@.len() implies #[trigger] in_turn(self.trace@, i) by {
            if i < old(self).trace@.len() {
                assert(in_turn(old(self).trace@, i));
                assert(self.trace@[i] == old(self).trace@[i]);
                if i % 2 == 1 {
                    assert(self.trace@[i - 1] == old(self).trace@[i - 1]);
                }
            }
        }
        Ok(())
    }
}

/// Whatever order two or more tasks make their requests in, the guard's trace
/// never interleaves them: after a task acquires the bus, the next event is
/// that same task's release, so no other task can act on the bus in between.
pub proof fn lemma_holdings_not_interleaved<B>(g: BusGuard<B>, i: int)
    requires
        g.wf(),
        0 <= i,
        i + 1 < g.trace().len(),
        g.trace()[i] is Acquire,
    ensures
        g.trace()[i + 1] == GuardEvent::Release(task_of(g.trace()[i])),
{
    assert(in_turn(g.trace(), i));
    assert(in_turn(g.trace(), i + 1));
}

} // verus!
