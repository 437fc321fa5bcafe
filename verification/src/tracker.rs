//! Batch convergence for resources whose only "done" signal is a polled
//! status text: a set of names still awaiting the target state, a count of
//! those that reached it, and a fixed total.  `completed + |remaining| ==
//! total` holds at every observation point, `remaining` only ever shrinks,
//! and no name leaves it twice.

use vstd::prelude::*;

use crate::text::{contains_seq, contains_str};

verus! {

/// Seconds between two polling rounds of a batch.
pub const ROUND_INTERVAL_SECS: u64 = 2;

/// `s` holds a string whose characters are `v`.
pub open spec fn has_name(s: Seq<String>, v: Seq<char>) -> bool {
    exists|i: int| 0 <= i < s.len() && #[trigger] s[i]@ == v
}

/// No two strings of `s` hold the same characters.
pub open spec fn distinct_names(s: Seq<String>) -> bool {
    forall|i: int, j: int| 0 <= i < j < s.len() ==> (#[trigger] s[i])@ != (#[trigger] s[j])@
}

/// `s` with every repetition of an earlier name dropped; first occurrences
/// keep their order.
pub open spec fn dedup_names(s: Seq<String>) -> Seq<String>
    decreases s.len(),
{
    if s.len() == 0 {
        Seq::empty()
    } else if has_name(s.drop_last(), s.last()@) {
        dedup_names(s.drop_last())
    } else {
        dedup_names(s.drop_last()).push(s.last())
    }
}

/// The names a polling round keeps: those whose reported status does not
/// contain the target text.  `names` and `stats` are read in step.
pub open spec fn round_keep(names: Seq<String>, stats: Seq<String>, target: Seq<char>) -> Seq<
    String,
>
    decreases names.len(),
{
    if names.len() == 0 {
        Seq::empty()
    } else {
        let prefix = round_keep(names.drop_last(), stats.drop_last(), target);
        if contains_seq(stats.last()@, target) {
            prefix
        } else {
            prefix.push(names.last())
        }
    }
}

proof fn lemma_has_name_push(s: Seq<String>, x: String, v: Seq<char>)
    ensures
        has_name(s.push(x), v) <==> (has_name(s, v) || x@ == v),
{
    if has_name(s.push(x), v) {
        let i = choose|i: int| 0 <= i < s.push(x).len() && #[trigger] s.push(x)[i]@ == v;
        if i < s.len() {
            assert(s[i]@ == v);
        }
    }
    if has_name(s, v) {
        let i = choose|i: int| 0 <= i < s.len() && #[trigger] s[i]@ == v;
        assert(s.push(x)[i]@ == v);
    }
    if x@ == v {
        assert(s.push(x)[s.len() as int]@ == v);
    }
}

proof fn lemma_has_name_drop_last(s: Seq<String>, v: Seq<char>)
    requires
        s.len() > 0,
    ensures
        has_name(s, v) <==> (has_name(s.drop_last(), v) || s.last()@ == v),
{
    if has_name(s, v) {
        let i = choose|i: int| 0 <= i < s.len() && #[trigger] s[i]@ == v;
        if i < s.len() - 1 {
            assert(s.drop_last()[i]@ == v);
        }
    }
    if has_name(s.drop_last(), v) {
        let i = choose|i: int| 0 <= i < s.drop_last().len() && #[trigger] s.drop_last()[i]@ == v;
        assert(s[i]@ == v);
    }
    if s.last()@ == v {
        assert(s[s.len() - 1]@ == v);
    }
}

proof fn lemma_distinct_drop_last(s: Seq<String>)
    requires
        distinct_names(s),
        s.len() > 0,
    ensures
        distinct_names(s.drop_last()),
        !has_name(s.drop_last(), s.last()@),
{
    assert forall|i: int, j: int| 0 <= i < j < s.drop_last().len() implies (#[trigger] s.drop_last(
    )[i])@ != (#[trigger] s.drop_last()[j])@ by {
        assert((s[i])@ != (s[j])@);
    }
    if has_name(s.drop_last(), s.last()@) {
        let i = choose|i: int|
            0 <= i < s.drop_last().len() && #[trigger] s.drop_last()[i]@ == s.last()@;
        assert((s[i])@ == (s[s.len() - 1])@);
    }
}

proof fn lemma_distinct_push(s: Seq<String>, x: String)
    requires
        distinct_names(s),
        !has_name(s, x@),
    ensures
        distinct_names(s.push(x)),
{
    assert forall|i: int, j: int| 0 <= i < j < s.push(x).len() implies (#[trigger] s.push(x)[i])@
        != (#[trigger] s.push(x)[j])@ by {
        if j < s.len() {
            assert((s[i])@ != (s[j])@);
        } else {
            assert(s.push(x)[j] == x);
            assert(s.push(x)[i] == s[i]);
            if s[i]@ == x@ {
                assert(0 <= i < s.len() && s[i]@ == x@);
            }
        }
    }
}

proof fn lemma_dedup_same_names(s: Seq<String>, v: Seq<char>)
    ensures
        has_name(dedup_names(s), v) == has_name(s, v),
    decreases s.len(),
{
    if s.len() > 0 {
        lemma_dedup_same_names(s.drop_last(), v);
        lemma_has_name_drop_last(s, v);
        if !has_name(s.drop_last(), s.last()@) {
            lemma_has_name_push(dedup_names(s.drop_last()), s.last(), v);
        }
    }
}

proof fn lemma_dedup_distinct(s: Seq<String>)
    ensures
        distinct_names(dedup_names(s)),
    decreases s.len(),
{
    if s.len() > 0 {
        lemma_dedup_distinct(s.drop_last());
        if !has_name(s.drop_last(), s.last()@) {
            lemma_dedup_same_names(s.drop_last(), s.last()@);
            lemma_distinct_push(dedup_names(s.drop_last()), s.last());
        }
    }
}

proof fn lemma_round_keep_names(names: Seq<String>, stats: Seq<String>, target: Seq<char>)
    requires
        names.len() == stats.len(),
    ensures
        round_keep(names, stats, target).len() <= names.len(),
        forall|v: Seq<char>|
            has_name(round_keep(names, stats, target), v) ==> #[trigger] has_name(names, v),
    decreases names.len(),
{
    if names.len() > 0 {
        lemma_round_keep_names(names.drop_last(), stats.drop_last(), target);
        let prefix = round_keep(names.drop_last(), stats.drop_last(), target);
        assert forall|v: Seq<char>|
            has_name(round_keep(names, stats, target), v) implies #[trigger] has_name(
            names,
            v,
        ) by {
            lemma_has_name_drop_last(names, v);
            if !contains_seq(stats.last()@, target) {
                lemma_has_name_push(prefix, names.last(), v);
            }
        }
    }
}

proof fn lemma_round_keep_distinct(names: Seq<String>, stats: Seq<String>, target: Seq<char>)
    requires
        names.len() == stats.len(),
        distinct_names(names),
    ensures
        distinct_names(round_keep(names, stats, target)),
    decreases names.len(),
{
    if names.len() > 0 {
        lemma_distinct_drop_last(names);
        lemma_round_keep_distinct(names.drop_last(), stats.drop_last(), target);
        let prefix = round_keep(names.drop_last(), stats.drop_last(), target);
        if !contains_seq(stats.last()@, target) {
            lemma_round_keep_names(names.drop_last(), stats.drop_last(), target);
            assert(!has_name(prefix, names.last()@));
            lemma_distinct_push(prefix, names.last());
        }
    }
}

/// No name leaves `remaining` twice: a polling round keeps only names that
/// were remaining before it, keeps each at most once, and never adds one.
/// With [`StatePollTracker::record_round`]'s contract this pins the round's
/// whole effect: the names whose status matched are gone for good, counted
/// completed exactly once, and the rest stay.
pub proof fn lemma_round_keeps_no_name_twice(
    names: Seq<String>,
    stats: Seq<String>,
    target: Seq<char>,
)
    requires
        names.len() == stats.len(),
        distinct_names(names),
    ensures
        round_keep(names, stats, target).len() <= names.len(),
        distinct_names(round_keep(names, stats, target)),
        forall|v: Seq<char>|
            has_name(round_keep(names, stats, target), v) ==> #[trigger] has_name(names, v),
{
    lemma_round_keep_names(names, stats, target);
    lemma_round_keep_distinct(names, stats, target);
}

/// A round in which every queried resource already reports the target keeps
/// nothing in `remaining`: a batch whose status function answers the target
/// state for every name converges in a single round, with every resource
/// counted completed.
pub proof fn lemma_immediate_convergence(names: Seq<String>, stats: Seq<String>, target: Seq<char>)
    requires
        names.len() == stats.len(),
        forall|i: int| 0 <= i < stats.len() ==> contains_seq((#[trigger] stats[i])@, target),
    ensures
        round_keep(names, stats, target).len() == 0,
    decreases names.len(),
{
    if names.len() > 0 {
        assert(contains_seq(stats[stats.len() - 1]@, target));
        assert(forall|i: int|
            0 <= i < stats.len() - 1 ==> contains_seq((#[trigger] stats.drop_last()[i])@, target));
        lemma_immediate_convergence(names.drop_last(), stats.drop_last(), target);
    }
}

/// The state of one converging batch.
pub struct StatePollTracker {
    remaining: Vec<String>,
    completed: usize,
    total: usize,
}

impl StatePollTracker {
    /// The names still awaiting the target status, in their initial order.
    pub closed spec fn spec_remaining(&self) -> Seq<String> {
        self.remaining@
    }

    /// How many resources have reached the target status.
    pub closed spec fn spec_completed(&self) -> int {
        self.completed as int
    }

    /// The size of the batch, fixed at its start.
    pub closed spec fn spec_total(&self) -> int {
        self.total as int
    }

    /// The invariant of a batch: the completed count and the names still
    /// remaining partition the total, and no name remains twice.
    pub open spec fn well_formed(&self) -> bool {
        &&& self.spec_completed() + self.spec_remaining().len() == self.spec_total()
        &&& distinct_names(self.spec_remaining())
    }

    /// Starts a batch over `names`.  Repetitions of a name are dropped, the
    /// first occurrences keeping their order; the batch's total is the
    /// number of distinct names.
    pub fn new(names: &Vec<String>) -> (r: StatePollTracker)
        ensures
            r.spec_remaining() == dedup_names(names@),
            r.spec_completed() == 0,
            r.spec_total() == dedup_names(names@).len(),
            r.well_formed(),
    {
        let n = names.len();
        let mut remaining: Vec<String> = Vec::new();
        let mut i: usize = 0;
        proof {
            assert(names@.take(0) =~= Seq::<String>::empty());
        }
        while i < n
            invariant
                n == names@.len(),
                i <= n,
                remaining@ == dedup_names(names@.take(i as int)),
            decreases n - i,
        {
            proof {
                assert(names@.take(i + 1).drop_last() =~= names@.take(i as int));
                assert(names@.take(i + 1).last() == names@[i as int]);
                lemma_dedup_same_names(names@.take(i as int), names@[i as int]@);
            }
            if !name_in(&remaining, &names[i]) {
                remaining.push(names[i].clone());
            }
            i = i + 1;
        }
        proof {
            assert(names@.take(n as int) =~= names@);
            lemma_dedup_distinct(names@);
        }
        let total = remaining.len();
        StatePollTracker { remaining, completed: 0, total }
    }

    /// One polling round: `statuses` reports, in step with the remaining
    /// names, what each still-pending resource answered.  Every name whose
    /// status contains the target leaves `remaining` and is counted
    /// completed, exactly once; the others stay, in order.  The partition
    /// invariant is preserved, and `remaining` never grows.
    pub fn record_round(&mut self, statuses: &Vec<String>, target: &str) -> (newly: usize)
        requires
            old(self).well_formed(),
            statuses@.len() == old(self).spec_remaining().len(),
        ensures
            final(self).spec_remaining() == round_keep(
                old(self).spec_remaining(),
                statuses@,
                target@,
            ),
            final(self).spec_remaining().len() <= old(self).spec_remaining().len(),
            final(self).spec_total() == old(self).spec_total(),
            final(self).spec_completed() == old(self).spec_completed() + newly,
            newly == old(self).spec_remaining().len() - final(self).spec_remaining().len(),
            final(self).well_formed(),
    {
        let n = self.remaining.len();
        let mut kept: Vec<String> = Vec::new();
        let mut i: usize = 0;
        proof {
            assert(self.remaining@.take(0) =~= Seq::<String>::empty());
            assert(statuses@.take(0) =~= Seq::<String>::empty());
        }
        while i < n
            invariant
                n == self.remaining@.len(),
                statuses@.len() == n,
                i <= n,
                kept@ == round_keep(
                    self.remaining@.take(i as int),
                    statuses@.take(i as int),
                    target@,
                ),
                kept@.len() <= i,
            decreases n - i,
        {
            proof {
                assert(self.remaining@.take(i + 1).drop_last() =~= self.remaining@.take(i as int));
                assert(statuses@.take(i + 1).drop_last() =~= statuses@.take(i as int));
                assert(self.remaining@.take(i + 1).last() == self.remaining@[i as int]);
                assert(statuses@.take(i + 1).last() == statuses@[i as int]);
            }
            if !contains_str(statuses[i].as_str(), target) {
                kept.push(self.remaining[i].clone());
            }
            i = i + 1;
        }
        proof {
            assert(self.remaining@.take(n as int) =~= self.remaining@);
            assert(statuses@.take(n as int) =~= statuses@);
            lemma_round_keep_distinct(self.remaining@, statuses@, target@);
        }
        let newly = n - kept.len();
        self.remaining = kept;
        self.completed = self.completed + newly;
        newly
    }

    /// Whether every resource of the batch has reached the target status.
    pub fn is_done(&self) -> (r: bool)
        ensures
            r == (self.spec_remaining().len() == 0),
    {
        self.remaining.len() == 0
    }

    /// The names still awaiting the target status.
    pub fn remaining_names(&self) -> (r: &Vec<String>)
        ensures
            r@ == self.spec_remaining(),
    {
        &self.remaining
    }

    /// How many resources have reached the target status.
    pub fn completed(&self) -> (r: usize)
        ensures
            r == self.spec_completed(),
    {
        self.completed
    }

    /// The size of the batch.
    pub fn total(&self) -> (r: usize)
        ensures
            r == self.spec_total(),
    {
        self.total
    }
}

/// Whether some string of `v` holds the same characters as `name`.
pub fn name_in(v: &Vec<String>, name: &String) -> (r: bool)
    ensures
        r == has_name(v@, name@),
{
    let n = v.len();
    let mut i: usize = 0;
    while i < n
        invariant
            n == v@.len(),
            i <= n,
            forall|j: int| 0 <= j < i ==> (#[trigger] v@[j])@ != name@,
        decreases n - i,
    {
        if v[i].eq(name) {
            return true;
        }
        i = i + 1;
    }
    false
}

} // verus!
