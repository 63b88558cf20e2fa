use vstd::prelude::*;

verus! {

/// First address probed by the bus scan.
pub const FIRST_ADDR: u8 = 0x08;

/// Last address probed by the bus scan.
pub const LAST_ADDR: u8 = 0x77;

/// The addresses that acknowledged, given the probe outcomes of the
/// addresses from `FIRST_ADDR` on, in probe order.
pub open spec fn found_of(acks: Seq<bool>) -> Seq<u8>
    decreases acks.len(),
{
    if acks.len() == 0 {
        Seq::empty()
    } else {
        let rest = found_of(acks.drop_last());
        if acks.last() {
            rest.push((FIRST_ADDR + acks.len() - 1) as u8)
        } else {
            rest
        }
    }
}

/// One-shot scan of the bus: each address of the range is probed in turn
/// and those that acknowledge are kept.
pub struct BusScan {
    next: u8,
    found: Vec<u8>,
    acks: Ghost<Seq<bool>>,
}

impl BusScan {
    /// The probe outcomes recorded so far, in address order.
    pub closed spec fn acks(&self) -> Seq<bool> {
        self.acks@
    }

    pub closed spec fn wf(&self) -> bool {
        &&& self.acks@.len() <= LAST_ADDR - FIRST_ADDR + 1
        &&& self.next == FIRST_ADDR + self.acks@.len()
        &&& self.found@ == found_of(self.acks@)
    }

    pub fn new() -> (r: BusScan)
        ensures
            r.wf(),
            r.acks() == Seq::<bool>::empty(),
    {
        BusScan { next: FIRST_ADDR, found: Vec::new(), acks: Ghost(Seq::empty()) }
    }

    /// The address to probe next, or `None` once the sweep is complete.
    pub fn next_address(&self) -> (r: Option<u8>)
        requires
            self.wf(),
        ensures
            self.acks().len() < LAST_ADDR - FIRST_ADDR + 1 ==> r == Option::Some((FIRST_ADDR + self.acks().len()) as u8),
            self.acks().len() == LAST_ADDR - FIRST_ADDR + 1 ==> r is None,
    {
        if self.next <= LAST_ADDR {
            Option::Some(self.next)
        } else {
            Option::None
        }
    }

    /// Records whether the address returned by `next_address` acknowledged.
    /// Does nothing once the sweep is complete.
    pub fn record(&mut self, acked: bool)
        requires
            old(self).wf(),
        ensures
            final(self).wf(),
            old(self).acks().len() < LAST_ADDR - FIRST_ADDR + 1 ==> final(self).acks() == old(self).acks().push(acked),
            old(self).acks().len() == LAST_ADDR - FIRST_ADDR + 1 ==> final(self).acks() == old(self).acks(),
    {
        if self.next > LAST_ADDR {
            return;
        }
        if acked {
            self.found.push(self.next);
        }
        self.acks = Ghost(self.acks@.push(acked));
        self.next = self.next + 1;
        assert(self.acks@.drop_last() =~= old(self).acks@);
    }

    pub fn is_done(&self) -> (r: bool)
        requires
            self.wf(),
        ensures
            r == (self.acks().len() == LAST_ADDR - FIRST_ADDR + 1),
    {
        self.next > LAST_ADDR
    }

    /// The addresses that acknowledged so far, in increasing order.
    pub fn found(&self) -> (r: &Vec<u8>)
        requires
            self.wf(),
        ensures
            r@ == found_of(self.acks()),
    {
        &self.found
    }
}

/// An address is in the result of a scan exactly when it lies in the range
/// probed so far and acknowledged; the result lists each such address once,
/// in increasing order, so as a set it does not depend on the order of the probes.
pub proof fn lemma_scan_finds_exactly(acks: Seq<bool>, a: u8)
    requires
        acks.len() <= LAST_ADDR - FIRST_ADDR + 1,
    ensures
        found_of(acks).contains(a) <==> (FIRST_ADDR <= a < FIRST_ADDR + acks.len() && acks[a - FIRST_ADDR]),
        forall|i: int, j: int| 0 <= i < j < found_of(acks).len() ==> found_of(acks)[i] < found_of(acks)[j],
    decreases acks.len(),
{
    if acks.len() > 0 {
        let rest = acks.drop_last();
        lemma_scan_finds_exactly(rest, a);
        lemma_found_below(rest);
        let top = (FIRST_ADDR + acks.len() - 1) as u8;
        if acks.last() {
            assert(found_of(acks) == found_of(rest).push(top));
            if a != top {
                assert(found_of(acks).contains(a) ==> found_of(rest).contains(a)) by {
                    if found_of(acks).contains(a) {
                        let k = choose|k: int| 0 <= k < found_of(acks).len() && found_of(acks)[k] == a;
                        assert(found_of(rest)[k] == a);
                    }
                }
                assert(found_of(rest).contains(a) ==> found_of(acks).contains(a)) by {
                    if found_of(rest).contains(a) {
                        let k = choose|k: int| 0 <= k < found_of(rest).len() && found_of(rest)[k] == a;
                        assert(found_of(acks)[k] == a);
                    }
                }
            } else {
                assert(found_of(acks)[found_of(acks).len() - 1] == a);
            }
        }
        if a < FIRST_ADDR + rest.len() && a >= FIRST_ADDR {
            assert(acks[a - FIRST_ADDR] == rest[a - FIRST_ADDR]);
        }
    }
}

/// Every address found so far lies below the next address to probe.
pub proof fn lemma_found_below(acks: Seq<bool>)
    requires
        acks.len() <= LAST_ADDR - FIRST_ADDR + 1,
    ensures
        forall|i: int| 0 <= i < found_of(acks).len() ==> FIRST_ADDR <= #[trigger] found_of(acks)[i] < FIRST_ADDR + acks.len(),
    decreases acks.len(),
{
    if acks.len() > 0 {
        let rest = acks.drop_last();
        lemma_found_below(rest);
        if acks.last() {
            let top = (FIRST_ADDR + acks.len() - 1) as u8;
            assert forall|i: int| 0 <= i < found_of(acks).len() implies FIRST_ADDR <= #[trigger] found_of(acks)[i] < FIRST_ADDR + acks.len() by {
                if i < found_of(rest).len() {
                    assert(found_of(acks)[i] == found_of(rest)[i]);
                } else {
                    assert(found_of(acks)[i] == top);
                }
            }
        }
    }
}

} // verus!
