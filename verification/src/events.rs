//! Status events and the aggregation of run totals.
//!
//! Every worker and the scanner report through values of [`StatusEvent`];
//! a single consumer folds them into [`RunTotals`]. The grand total equals
//! the sum of the deltas of all progress events, and that sum does not
//! depend on the order in which the events arrived.

use vstd::prelude::*;
use vstd::seq_lib::group_to_multiset_ensures;

use crate::errors::AppError;

verus! {

/// One message from a producer to the event loop: either the outcome of a
/// successful compaction, or an error local to one unit of work.
#[derive(Debug)]
pub enum StatusEvent {
    /// A target was compacted; `delta` is its signed space saving.
    Progress { path: String, delta: i128 },
    /// A typed per-unit error.
    Error(AppError),
    /// A plain-text error from directory traversal.
    ErrorMsg(String),
}

impl StatusEvent {
    /// A well-formed progress delta measures one compaction of files whose
    /// sizes fit in 64 bits, so its magnitude is below 2^64.
    pub open spec fn wf(self) -> bool {
        match self {
            StatusEvent::Progress { path: _, delta } => -(u64::MAX as int) <= delta as int
                <= u64::MAX as int,
            _ => true,
        }
    }

    /// What this event contributes to the run's total.
    pub open spec fn spec_delta(self) -> int {
        match self {
            StatusEvent::Progress { path: _, delta } => delta as int,
            _ => 0,
        }
    }
}

pub open spec fn all_wf(s: Seq<StatusEvent>) -> bool {
    forall|i: int| 0 <= i < s.len() ==> s[i].wf()
}

/// The sum of the deltas of the progress events of `s`.
pub open spec fn sum_deltas(s: Seq<StatusEvent>) -> int
    decreases s.len(),
{
    if s.len() == 0 {
        0
    } else {
        sum_deltas(s.drop_last()) + s.last().spec_delta()
    }
}

/// The sum of well-formed deltas grows at most by 2^64 - 1 per event.
pub proof fn lemma_sum_deltas_bound(s: Seq<StatusEvent>)
    requires
        all_wf(s),
    ensures
        -(s.len() * (u64::MAX as int)) <= sum_deltas(s) <= s.len() * (u64::MAX as int),
    decreases s.len(),
{
    if s.len() > 0 {
        assert(all_wf(s.drop_last())) by {
            assert(forall|i: int|
                0 <= i < s.len() - 1 ==> s.drop_last()[i] == #[trigger] s[i]);
        }
        lemma_sum_deltas_bound(s.drop_last());
        assert(s[s.len() - 1].wf());
    }
}

/// Removing one event removes exactly its contribution from the sum.
pub proof fn lemma_sum_deltas_remove(s: Seq<StatusEvent>, i: int)
    requires
        0 <= i < s.len(),
    ensures
        sum_deltas(s.remove(i)) == sum_deltas(s) - s[i].spec_delta(),
    decreases s.len(),
{
    if i == s.len() - 1 {
        assert(s.remove(i) =~= s.drop_last());
    } else {
        assert(s.remove(i).drop_last() =~= s.drop_last().remove(i));
        lemma_sum_deltas_remove(s.drop_last(), i);
        assert(s.remove(i).last() == s.last());
    }
}

/// The total is independent of completion order: two event sequences that
/// hold the same events, however interleaved, sum to the same total.
pub proof fn lemma_sum_deltas_permutation(s1: Seq<StatusEvent>, s2: Seq<StatusEvent>)
    requires
        s1.to_multiset() == s2.to_multiset(),
    ensures
        sum_deltas(s1) == sum_deltas(s2),
    decreases s1.len(),
{
    broadcast use group_to_multiset_ensures;

    if s1.len() == 0 {
        assert(s2.to_multiset().len() == 0);
    } else {
        let x = s1.last();
        assert(s1.contains(x));
        assert(s2.to_multiset().count(x) > 0);
        assert(s2.contains(x));
        let i = choose|i: int| 0 <= i < s2.len() && s2[i] == x;
        assert(s1.remove(s1.len() - 1) =~= s1.drop_last());
        assert(s1.drop_last().to_multiset() == s1.to_multiset().remove(x));
        assert(s2.remove(i).to_multiset() == s2.to_multiset().remove(x));
        lemma_sum_deltas_permutation(s1.drop_last(), s2.remove(i));
        lemma_sum_deltas_remove(s2, i);
    }
}

/// The number of events one run may aggregate; below this bound the total
/// provably fits its 128-bit accumulator.
pub const MAX_EVENTS: u64 = 0x4000_0000_0000_0000;

/// The run's accumulated totals. Owned and mutated by the single consumer
/// of the status event stream; never shared.
pub struct RunTotals {
    total: i128,
    count: u64,
    history: Ghost<Seq<StatusEvent>>,
}

impl RunTotals {
    /// Every event folded in so far, in arrival order.
    pub closed spec fn history(self) -> Seq<StatusEvent> {
        self.history@
    }

    pub closed spec fn spec_total(self) -> int {
        self.total as int
    }

    pub closed spec fn spec_count(self) -> int {
        self.count as int
    }

    /// The totals always equal the sum over the events seen.
    pub open spec fn wf(self) -> bool {
        &&& all_wf(self.history())
        &&& self.spec_total() == sum_deltas(self.history())
        &&& self.spec_count() == self.history().len()
    }

    pub fn new() -> (t: Self)
        ensures
            t.wf(),
            t.history() == Seq::<StatusEvent>::empty(),
            t.spec_total() == 0,
    {
        RunTotals { total: 0, count: 0, history: Ghost(Seq::empty()) }
    }

    /// The grand total so far: the sum of all progress deltas seen.
    pub fn total(&self) -> (r: i128)
        ensures
            r == self.spec_total(),
    {
        self.total
    }

    /// How many events have been folded in.
    pub fn count(&self) -> (r: u64)
        ensures
            r == self.spec_count(),
    {
        self.count
    }

    /// Folds one event into the totals: a progress event adds its delta,
    /// an error event leaves the total unchanged.
    pub fn apply(&mut self, event: &StatusEvent)
        requires
            old(self).wf(),
            event.wf(),
            old(self).spec_count() < MAX_EVENTS,
        ensures
            final(self).wf(),
            final(self).history() == old(self).history().push(*event),
            final(self).spec_total() == old(self).spec_total() + event.spec_delta(),
            final(self).spec_count() == old(self).spec_count() + 1,
    {
        proof {
            lemma_sum_deltas_bound(self.history@);
        }
        let d: i128 = match event {
            StatusEvent::Progress { path: _, delta } => *delta,
            _ => 0,
        };
        self.total = self.total + d;
        self.count = self.count + 1;
        self.history = Ghost(self.history@.push(*event));
        proof {
            assert(self.history@.drop_last() =~= old(self).history@);
            assert(forall|i: int|
                0 <= i < old(self).history@.len() ==> self.history@[i] == #[trigger] old(
                    self,
                ).history@[i]);
        }
    }
}

/// Folds a whole sequence of events, as the event loop does one at a time.
pub fn aggregate(events: &Vec<StatusEvent>) -> (t: RunTotals)
    requires
        all_wf(events@),
        events@.len() < MAX_EVENTS,
    ensures
        t.wf(),
        t.history() == events@,
        t.spec_total() == sum_deltas(events@),
{
    let mut t = RunTotals::new();
    let mut i: usize = 0;
    while i < events.len()
        invariant
            i <= events@.len(),
            all_wf(events@),
            events@.len() < MAX_EVENTS,
            t.wf(),
            t.history() == events@.subrange(0, i as int),
        decreases events@.len() - i,
    {
        t.apply(&events[i]);
        proof {
            assert(events@.subrange(0, i as int).push(events@[i as int]) =~= events@.subrange(
                0,
                i as int + 1,
            ));
        }
        i += 1;
    }
    proof {
        assert(events@.subrange(0, events@.len() as int) =~= events@);
    }
    t
}

} // verus!
