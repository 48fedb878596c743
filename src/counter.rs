//! The signal counter table: one delivery counter per standard signal, laid out
//! once and never restructured afterwards.
use vstd::prelude::*;

use crate::signal::{spec_from_native, SignalType, NATIVE_MAX};

verus! {

/// Number of counters in the table: one per standard signal number.
pub const SLOTS: usize = 31;

/// Handle to one counter of the table.
#[derive(Clone, Copy, Debug, PartialEq, Eq, Structural)]
pub struct CounterHandle {
    /// Position of the counter in the table.
    pub slot: usize,
}

/// Position in the table of the counter for native signal number `n`.
pub open spec fn slot_of(n: i32) -> int {
    n - 1
}

/// The value a counter takes after one more delivery; it wraps at the top as an
/// atomic fetch-and-add does.
pub open spec fn bumped(v: u64) -> u64 {
    if v == u64::MAX {
        0
    } else {
        (v + 1) as u64
    }
}

/// The counters after one delivery of native signal number `n`: its own counter
/// moves on by one; a number that names no signal changes nothing.
pub open spec fn after_delivery(counts: Seq<u64>, n: i32) -> Seq<u64> {
    if spec_from_native(n) is Some {
        counts.update(slot_of(n), bumped(counts[slot_of(n)]))
    } else {
        counts
    }
}

/// The counters after the deliveries `ns`, in order.
pub open spec fn after_deliveries(counts: Seq<u64>, ns: Seq<i32>) -> Seq<u64>
    decreases ns.len(),
{
    if ns.len() == 0 {
        counts
    } else {
        after_delivery(after_deliveries(counts, ns.drop_last()), ns.last())
    }
}

/// How many of the deliveries `ns` are of native number `n`.
pub open spec fn deliveries_of(ns: Seq<i32>, n: i32) -> nat
    decreases ns.len(),
{
    if ns.len() == 0 {
        0
    } else {
        deliveries_of(ns.drop_last(), n) + if ns.last() == n {
            1nat
        } else {
            0nat
        }
    }
}

/// Position of the counter for `signal` in any table of `SLOTS` counters;
/// `None` for a signal the platform does not know.
pub fn slot_for(signal: SignalType) -> (r: Option<usize>)
    ensures
        r is Some <==> signal.is_supported(),
        r matches Some(i) ==> i == slot_of(signal.spec_native().unwrap()) && i < SLOTS,
{
    match signal.to_native() {
        Some(n) => Some((n - 1) as usize),
        None => None,
    }
}

/// Delivery counters, one per standard signal.
pub struct SignalCounters {
    counts: Vec<u64>,
}

impl View for SignalCounters {
    type V = Seq<u64>;

    closed spec fn view(&self) -> Seq<u64> {
        self.counts@
    }
}

impl SignalCounters {
    /// The table holds a counter for every standard signal.
    pub open spec fn wf(&self) -> bool {
        self@.len() == SLOTS
    }

    /// Creates the table with every counter present and at zero.
    pub fn new() -> (r: SignalCounters)
        ensures
            r.wf(),
            r@.len() == SLOTS,
            forall|i: int| 0 <= i < SLOTS ==> r@[i] == 0,
    {
        let mut counts: Vec<u64> = Vec::new();
        let mut i: usize = 0;
        while i < SLOTS
            invariant
                i <= SLOTS,
                counts@.len() == i,
                forall|j: int| 0 <= j < i ==> counts@[j] == 0,
            decreases SLOTS - i,
        {
            counts.push(0);
            i = i + 1;
        }
        SignalCounters { counts }
    }

    /// The counter for `signal`; present for every supported signal, absent
    /// for one the platform does not know.
    pub fn get_counter(&self, signal: SignalType) -> (r: Option<CounterHandle>)
        ensures
            r is Some <==> signal.is_supported(),
            r matches Some(h) ==> h.slot == slot_of(signal.spec_native().unwrap()),
            r matches Some(h) ==> h.slot < SLOTS,
    {
        match slot_for(signal) {
            Some(slot) => Some(CounterHandle { slot }),
            None => None,
        }
    }

    /// Number of deliveries counted on `h`.
    pub fn count(&self, h: CounterHandle) -> (r: u64)
        requires
            self.wf(),
            h.slot < SLOTS,
        ensures
            r == self@[h.slot as int],
    {
        self.counts[h.slot]
    }

    /// Counts one delivery on `h`.
    pub fn increment(&mut self, h: CounterHandle)
        requires
            old(self).wf(),
            h.slot < SLOTS,
        ensures
            final(self).wf(),
            final(self)@ == old(self)@.update(h.slot as int, bumped(old(self)@[h.slot as int])),
    {
        let v = self.counts[h.slot];
        self.counts.set(h.slot, v.wrapping_add(1));
    }

    /// What the installed handler does when the system delivers native signal
    /// number `signum`: counts it on that signal's counter, or does nothing when
    /// the number names no signal.
    pub fn deliver(&mut self, signum: i32)
        requires
            old(self).wf(),
        ensures
            final(self).wf(),
            final(self)@ == after_delivery(old(self)@, signum),
    {
        if let Some(signal) = SignalType::from_native(signum) {
            proof {
                crate::signal::lemma_native_round_trip(signum, signal);
            }
            if let Some(h) = self.get_counter(signal) {
                self.increment(h);
            }
        }
    }
}

/// A delivery changes at most one counter, the one of the signal whose native
/// number was delivered, and that one moves on by exactly one, wrapping to zero
/// at the largest value.
pub proof fn lemma_delivery_touches_one(counts: Seq<u64>, n: i32)
    requires
        counts.len() == SLOTS,
    ensures
        after_delivery(counts, n).len() == SLOTS,
        forall|i: int|
            0 <= i < SLOTS && after_delivery(counts, n)[i] != counts[i] ==> (spec_from_native(n)
                is Some && i == slot_of(n)),
        spec_from_native(n) is Some ==> after_delivery(counts, n)[slot_of(n)] == bumped(
            counts[slot_of(n)],
        ),
        spec_from_native(n) is Some && counts[slot_of(n)] == u64::MAX ==> after_delivery(
            counts,
            n,
        )[slot_of(n)] == 0,
{
}

/// No delivery is lost: after any sequence of deliveries, each counter has moved
/// on by exactly the number of deliveries of its own signal, so long as it does
/// not pass the largest value.
pub proof fn lemma_no_lost_deliveries(counts: Seq<u64>, ns: Seq<i32>, n: i32)
    requires
        counts.len() == SLOTS,
        1 <= n <= NATIVE_MAX,
        counts[slot_of(n)] + deliveries_of(ns, n) <= u64::MAX,
    ensures
        after_deliveries(counts, ns).len() == SLOTS,
        after_deliveries(counts, ns)[slot_of(n)] == counts[slot_of(n)] + deliveries_of(ns, n),
    decreases ns.len(),
{
    if ns.len() > 0 {
        let prev = ns.drop_last();
        let m = ns.last();
        assert(deliveries_of(prev, n) <= deliveries_of(ns, n));
        lemma_no_lost_deliveries(counts, prev, n);
        if spec_from_native(m) is Some {
            assert(1 <= m <= NATIVE_MAX);
        }
    }
}

} // verus!
