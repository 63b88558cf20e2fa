use vstd::prelude::*;

verus! {

/// A level change reported by the interrupt handler of an input line.
#[derive(Clone, Copy, Debug, PartialEq, Eq, Structural)]
pub enum Edge {
    Rising,
    Falling,
}

/// Which edges a waiting task accepts.
#[derive(Clone, Copy, Debug, PartialEq, Eq, Structural)]
pub enum EdgeKind {
    Rising,
    Falling,
    Any,
}

/// The suspension condition of a task.
#[derive(Clone, Copy, Debug, PartialEq, Eq, Structural)]
pub enum Wait {
    /// Runnable now.
    Ready,
    /// Sleeping until the clock reaches `deadline` (milliseconds).
    Until { deadline: u64 },
    /// Waiting for an edge of `kind` on `line`.
    Edge { line: usize, kind: EdgeKind },
    /// Waiting for an edge of `kind` on either of two lines.
    EitherEdge { first: usize, second: usize, kind: EdgeKind },
}

/// Errors of the task table.
#[derive(Clone, Copy, Debug, PartialEq, Eq, Structural)]
pub enum SchedError {
    /// The task table would be empty.
    NoTasks,
    /// A wait names a line that has no latch.
    UnknownLine,
    /// The slot is not the task that is running.
    NotRunning,
}

pub open spec fn accepts(kind: EdgeKind, pending: Option<Edge>) -> bool {
    match pending {
        Option::None => false,
        Option::Some(Edge::Rising) => kind != EdgeKind::Falling,
        Option::Some(Edge::Falling) => kind != EdgeKind::Rising,
    }
}

/// Whether a wait names only lines below `n_lines`.
pub open spec fn wait_in_range(w: Wait, n_lines: nat) -> bool {
    match w {
        Wait::Edge { line, .. } => line < n_lines,
        Wait::EitherEdge { first, second, .. } => first < n_lines && second < n_lines,
        _ => true,
    }
}

/// Whether a task with wait `w` may resume at time `now` with the pending edges `latches`.
pub open spec fn wait_ready(w: Wait, now: u64, latches: Seq<Option<Edge>>) -> bool {
    match w {
        Wait::Ready => true,
        Wait::Until { deadline } => now >= deadline,
        Wait::Edge { line, kind } => accepts(kind, latches[line as int]),
        Wait::EitherEdge { first, second, kind } => accepts(kind, latches[first as int]) || accepts(
            kind,
            latches[second as int],
        ),
    }
}

/// The latches after a task with wait `w` resumes: each pending edge it accepted is consumed.
pub open spec fn consume(w: Wait, latches: Seq<Option<Edge>>) -> Seq<Option<Edge>> {
    match w {
        Wait::Edge { line, kind } => if accepts(kind, latches[line as int]) {
            latches.update(line as int, Option::None)
        } else {
            latches
        },
        Wait::EitherEdge { first, second, kind } => {
            let l1 = if accepts(kind, latches[first as int]) {
                latches.update(first as int, Option::None)
            } else {
                latches
            };
            if accepts(kind, latches[second as int]) {
                l1.update(second as int, Option::None)
            } else {
                l1
            }
        },
        _ => latches,
    }
}

/// Abstract state of the task table.
pub struct ExecutorModel {
    pub waits: Seq<Wait>,
    pub latches: Seq<Option<Edge>>,
    pub running: Option<nat>,
    pub cursor: nat,
    pub halted: bool,
}

impl ExecutorModel {
    pub open spec fn wf(self) -> bool {
        &&& self.waits.len() > 0
        &&& self.cursor < self.waits.len()
        &&& (self.running matches Option::Some(i) ==> i < self.waits.len())
        &&& forall|i: int| 0 <= i < self.waits.len() ==> wait_in_range(#[trigger] self.waits[i], self.latches.len())
    }

    /// The slot at offset `k` from the cursor, going round the table.
    pub open spec fn slot_at(self, k: int) -> int {
        if self.cursor + k < self.waits.len() {
            self.cursor + k
        } else {
            self.cursor + k - self.waits.len()
        }
    }

    /// The model after the task in `slot` is picked to run.
    pub open spec fn resumed(self, slot: int) -> ExecutorModel {
        ExecutorModel {
            waits: self.waits.update(slot, Wait::Ready),
            latches: consume(self.waits[slot], self.latches),
            running: Option::Some(slot as nat),
            cursor: if slot + 1 < self.waits.len() { (slot + 1) as nat } else { 0 },
            halted: self.halted,
        }
    }

    /// Whether `d` is the earliest deadline among the sleeping tasks.
    pub open spec fn earliest_deadline(self, d: u64) -> bool {
        &&& exists|i: int| 0 <= i < self.waits.len() && #[trigger] self.waits[i] == (Wait::Until { deadline: d })
        &&& forall|i: int| 0 <= i < self.waits.len() ==> (#[trigger] self.waits[i] matches Wait::Until { deadline } ==> d <= deadline)
    }

    pub open spec fn any_sleeping(self) -> bool {
        exists|i: int| 0 <= i < self.waits.len() && (#[trigger] self.waits[i] matches Wait::Until { .. })
    }

    pub open spec fn ready(self, i: int, now: u64) -> bool {
        wait_ready(self.waits[i], now, self.latches)
    }

    pub open spec fn any_ready(self, now: u64) -> bool {
        exists|i: int| 0 <= i < self.waits.len() && #[trigger] self.ready(i, now)
    }
}

/// A fixed table of tasks, each with its suspension condition, and one
/// single-slot edge latch per input line.
pub struct Executor {
    waits: Vec<Wait>,
    latches: Vec<Option<Edge>>,
    running: Option<usize>,
    cursor: usize,
    halted: bool,
}

impl View for Executor {
    type V = ExecutorModel;

    closed spec fn view(&self) -> ExecutorModel {
        ExecutorModel {
            waits: self.waits@,
            latches: self.latches@,
            running: match self.running {
                Option::Some(i) => Option::Some(i as nat),
                Option::None => Option::None,
            },
            cursor: self.cursor as nat,
            halted: self.halted,
        }
    }
}

fn accepts_exec(kind: EdgeKind, pending: Option<Edge>) -> (r: bool)
    ensures
        r == accepts(kind, pending),
{
    match pending {
        Option::None => false,
        Option::Some(Edge::Rising) => kind != EdgeKind::Falling,
        Option::Some(Edge::Falling) => kind != EdgeKind::Rising,
    }
}

fn wait_in_range_exec(w: Wait, n_lines: usize) -> (r: bool)
    ensures
        r == wait_in_range(w, n_lines as nat),
{
    match w {
        Wait::Edge { line, .. } => line < n_lines,
        Wait::EitherEdge { first, second, .. } => first < n_lines && second < n_lines,
        _ => true,
    }
}

impl Executor {
    /// Builds the task table from the initial waits of the tasks and the number of input lines.
    pub fn new(waits: Vec<Wait>, n_lines: usize) -> (r: Result<Executor, SchedError>)
        ensures
            waits@.len() == 0 ==> r == Err::<Executor, SchedError>(SchedError::NoTasks),
            waits@.len() > 0 && (exists|i: int| 0 <= i < waits@.len() && !wait_in_range(#[trigger] waits@[i], n_lines as nat))
                ==> r == Err::<Executor, SchedError>(SchedError::UnknownLine),
            waits@.len() > 0 && (forall|i: int| 0 <= i < waits@.len() ==> wait_in_range(#[trigger] waits@[i], n_lines as nat))
                ==> (r matches Ok(e) && e@.wf() && e@.waits == waits@ && e@.latches == Seq::new(n_lines as nat, |i: int| Option::<Edge>::None)
                    && e@.running == Option::<nat>::None && e@.cursor == 0 && !e@.halted),
    {
        if waits.len() == 0 {
            return Err(SchedError::NoTasks);
        }
        let mut i: usize = 0;
        while i < waits.len()
            invariant
                0 <= i <= waits@.len(),
                forall|j: int| 0 <= j < i ==> wait_in_range(#[trigger] waits@[j], n_lines as nat),
            decreases waits@.len() - i,
        {
            if !wait_in_range_exec(waits[i], n_lines) {
                return Err(SchedError::UnknownLine);
            }
            i = i + 1;
        }
        let mut latches: Vec<Option<Edge>> = Vec::new();
        let mut k: usize = 0;
        while k < n_lines
            invariant
                0 <= k <= n_lines,
                latches@ == Seq::new(k as nat, |i: int| Option::<Edge>::None),
            decreases n_lines - k,
        {
            latches.push(Option::None);
            k = k + 1;
            assert(latches@ =~= Seq::new(k as nat, |i: int| Option::<Edge>::None));
        }
        Ok(Executor { waits, latches, running: Option::None, cursor: 0, halted: false })
    }

    pub fn task_count(&self) -> (r: usize)
        ensures
            r == self@.waits.len(),
    {
        self.waits.len()
    }

    /// Latches an edge on `line`, as the interrupt handler does. A pending edge
    /// that nobody consumed yet is replaced. Returns false for an unknown line.
    pub fn signal(&mut self, line: usize, edge: Edge) -> (r: bool)
        requires
            old(self)@.wf(),
        ensures
            final(self)@.wf(),
            r == (line < old(self)@.latches.len()),
            r ==> final(self)@ == (ExecutorModel {
                latches: old(self)@.latches.update(line as int, Option::Some(edge)),
                ..old(self)@
            }),
            !r ==> final(self)@ == old(self)@,
    {
        if line >= self.latches.len() {
            return false;
        }
        self.latches.set(line, Option::Some(edge));
        true
    }

    fn consume_latches(&mut self, w: Wait)
        requires
            wait_in_range(w, old(self).latches@.len() as nat),
        ensures
            final(self).latches@ == consume(w, old(self).latches@),
            final(self).waits == old(self).waits,
            final(self).running == old(self).running,
            final(self).cursor == old(self).cursor,
            final(self).halted == old(self).halted,
    {
        match w {
            Wait::Edge { line, kind } => {
                if accepts_exec(kind, self.latches[line]) {
                    self.latches.set(line, Option::None);
                }
            },
            Wait::EitherEdge { first, second, kind } => {
                let take_second = accepts_exec(kind, self.latches[second]);
                if accepts_exec(kind, self.latches[first]) {
                    self.latches.set(first, Option::None);
                }
                if take_second {
                    self.latches.set(second, Option::None);
                }
            },
            _ => {},
        }
    }

    /// Picks the next task to run at time `now`, going round the table from the
    /// slot after the one picked last, so that every ready task gets its turn.
    /// Nothing is picked while a task runs: it must suspend first. The edges
    /// that the picked task waited for are consumed.
    pub fn pick(&mut self, now: u64) -> (r: Option<usize>)
        requires
            old(self)@.wf(),
        ensures
            final(self)@.wf(),
            old(self)@.halted || old(self)@.running is Some ==> r is None && final(self)@ == old(self)@,
            !old(self)@.halted && old(self)@.running is None && !old(self)@.any_ready(now) ==> r is None
                && final(self)@ == old(self)@,
            !old(self)@.halted && old(self)@.running is None && old(self)@.any_ready(now) ==> (r matches Option::Some(i) && (exists|k: int|
                0 <= k < old(self)@.waits.len() && i == #[trigger] old(self)@.slot_at(k) && old(self)@.ready(i as int, now)
                    && forall|k2: int| 0 <= k2 < k ==> !old(self)@.ready(#[trigger] old(self)@.slot_at(k2), now))
                && final(self)@ == old(self)@.resumed(i as int)),
    {
        if self.halted || self.running.is_some() {
            return Option::None;
        }
        let n = self.waits.len();
        let mut i: usize = self.cursor;
        let mut k: usize = 0;
        while k < n
            invariant
                self@ == old(self)@,
                self@.wf(),
                old(self)@.running is None,
                !old(self)@.halted,
                n == self@.waits.len(),
                0 <= k <= n,
                i < n,
                k < n ==> i == self@.slot_at(k as int),
                forall|k2: int| 0 <= k2 < k ==> !self@.ready(#[trigger] self@.slot_at(k2), now),
            decreases n - k,
        {
            if self.is_ready(i, now) {
                let w = self.waits[i];
                assert(wait_in_range(w, self@.latches.len()));
                self.consume_latches(w);
                self.waits.set(i, Wait::Ready);
                self.running = Option::Some(i);
                self.cursor = if i + 1 < n { i + 1 } else { 0 };
                assert(self@.waits =~= old(self)@.resumed(i as int).waits);
                assert forall|j: int| 0 <= j < self@.waits.len() implies wait_in_range(#[trigger] self@.waits[j], self@.latches.len()) by {
                    assert(wait_in_range(old(self)@.waits[j], old(self)@.latches.len()));
                }
                return Option::Some(i);
            }
            i = if i + 1 < n { i + 1 } else { 0 };
            k = k + 1;
        }
        assert forall|j: int| 0 <= j < n implies !(#[trigger] self@.ready(j, now)) by {
            let kj = if j >= self@.cursor { j - self@.cursor } else { j + n - self@.cursor };
            assert(self@.slot_at(kj) == j);
        }
        Option::None
    }

    /// Ends the turn of the running task in `slot`, which now waits for `w`.
    pub fn suspend(&mut self, slot: usize, w: Wait) -> (r: Result<(), SchedError>)
        requires
            old(self)@.wf(),
        ensures
            final(self)@.wf(),
            old(self)@.running != Option::Some(slot as nat) ==> r == Err::<(), SchedError>(SchedError::NotRunning)
                && final(self)@ == old(self)@,
            old(self)@.running == Option::Some(slot as nat) && !wait_in_range(w, old(self)@.latches.len())
                ==> r == Err::<(), SchedError>(SchedError::UnknownLine) && final(self)@ == old(self)@,
            old(self)@.running == Option::Some(slot as nat) && wait_in_range(w, old(self)@.latches.len()) ==> r is Ok
                && final(self)@ == (ExecutorModel {
                waits: old(self)@.waits.update(slot as int, w),
                running: Option::None,
                ..old(self)@
            }),
    {
        match self.running {
            Option::Some(s) => {
                if s != slot {
                    return Err(SchedError::NotRunning);
                }
            },
            Option::None => {
                return Err(SchedError::NotRunning);
            },
        }
        if !wait_in_range_exec(w, self.latches.len()) {
            return Err(SchedError::UnknownLine);
        }
        self.waits.set(slot, w);
        self.running = Option::None;
        assert forall|j: int| 0 <= j < self@.waits.len() implies wait_in_range(#[trigger] self@.waits[j], self@.latches.len()) by {
            if j != slot {
                assert(wait_in_range(old(self)@.waits[j], old(self)@.latches.len()));
            }
        }
        Ok(())
    }

    /// The earliest deadline among the sleeping tasks: the core may idle until
    /// then when no task is ready and no edge arrives.
    pub fn idle_deadline(&self) -> (r: Option<u64>)
        requires
            self@.wf(),
        ensures
            r matches Option::Some(d) ==> self@.earliest_deadline(d),
            r is None <==> !self@.any_sleeping(),
    {
        let mut best: Option<u64> = Option::None;
        let mut i: usize = 0;
        while i < self.waits.len()
            invariant
                0 <= i <= self@.waits.len(),
                best matches Option::Some(d) ==> (exists|j: int| 0 <= j < i && #[trigger] self@.waits[j] == (Wait::Until { deadline: d })),
                best matches Option::Some(d) ==> (forall|j: int| 0 <= j < i ==> (#[trigger] self@.waits[j] matches Wait::Until { deadline } ==> d <= deadline)),
                best is None ==> (forall|j: int| 0 <= j < i ==> !(#[trigger] self@.waits[j] matches Wait::Until { .. })),
            decreases self@.waits.len() - i,
        {
            match self.waits[i] {
                Wait::Until { deadline } => {
                    match best {
                        Option::Some(d) => {
                            if deadline < d {
                                best = Option::Some(deadline);
                            }
                        },
                        Option::None => {
                            best = Option::Some(deadline);
                        },
                    }
                },
                _ => {},
            }
            i = i + 1;
        }
        best
    }

    /// Whether the task in `slot` may resume at time `now`.
    pub fn is_ready(&self, slot: usize, now: u64) -> (r: bool)
        requires
            self@.wf(),
            slot < self@.waits.len(),
        ensures
            r == self@.ready(slot as int, now),
    {
        match self.waits[slot] {
            Wait::Ready => true,
            Wait::Until { deadline } => now >= deadline,
            Wait::Edge { line, kind } => accepts_exec(kind, self.latches[line]),
            Wait::EitherEdge { first, second, kind } => accepts_exec(kind, self.latches[first]) || accepts_exec(
                kind,
                self.latches[second],
            ),
        }
    }
}

/// A fault in a task is fatal to the whole system: the table halts and no
/// task is picked again, whatever becomes ready.
pub fn panic(executor: &mut Executor)
    requires
        old(executor)@.wf(),
    ensures
        final(executor)@ == (ExecutorModel { halted: true, ..old(executor)@ }),
        final(executor)@.wf(),
{
    executor.halted = true;
}

} // verus!
