use vstd::prelude::*;

verus! {

/// The final counts of a run.
#[derive(Clone, Copy, Debug, PartialEq, Eq, Structural)]
pub struct Stats {
    pub downloaded: usize,
    pub failed: usize,
    pub total_size: u64,
}

/// The counters of a tracker, as numbers.
pub ghost struct Tally {
    pub completed: nat,
    pub succeeded: nat,
    pub failed: nat,
    pub bytes: nat,
}

pub open spec fn empty_tally() -> Tally {
    Tally { completed: 0, succeeded: 0, failed: 0, bytes: 0 }
}

/// One outcome applied to the counters.
pub open spec fn step(t: Tally, outcome: Result<u64, String>) -> Tally {
    match outcome {
        Ok(n) => Tally { completed: t.completed + 1, succeeded: t.succeeded + 1, failed: t.failed, bytes: t.bytes + n as nat },
        Err(_) => Tally { completed: t.completed + 1, succeeded: t.succeeded, failed: t.failed + 1, bytes: t.bytes },
    }
}

/// The counters after the outcomes are reported one by one, in order.
pub open spec fn tally_of(outcomes: Seq<Result<u64, String>>) -> Tally
    decreases outcomes.len(),
{
    if outcomes.len() == 0 {
        empty_tally()
    } else {
        step(tally_of(outcomes.drop_last()), outcomes.last())
    }
}

/// How many of the outcomes are successes.
pub open spec fn successes(outcomes: Seq<Result<u64, String>>) -> nat
    decreases outcomes.len(),
{
    if outcomes.len() == 0 {
        0
    } else {
        successes(outcomes.drop_last()) + if outcomes.last() is Ok { 1nat } else { 0nat }
    }
}

/// The sum of the sizes that the successful outcomes carry.
pub open spec fn success_bytes(outcomes: Seq<Result<u64, String>>) -> nat
    decreases outcomes.len(),
{
    if outcomes.len() == 0 {
        0
    } else {
        success_bytes(outcomes.drop_last()) + match outcomes.last() {
            Ok(n) => n as nat,
            Err(_) => 0nat,
        }
    }
}

/// One progress report, for the caller to print.
#[derive(Debug)]
pub struct ProgressLine {
    /// How many repositories have completed, this one included.
    pub current: usize,
    /// How many were dispatched.
    pub total: usize,
    pub name: String,
    /// The size in KB, or the failure message.
    pub detail: Result<u64, String>,
}

/// The aggregate of all outcomes of a run. Every outcome goes through
/// `report_completion`, one whole update at a time, so the completed count
/// always equals successes plus failures.
pub struct ProgressTracker {
    total: usize,
    completed: usize,
    downloaded: usize,
    failed: usize,
    total_size: u64,
}

impl ProgressTracker {
    pub closed spec fn view(&self) -> Tally {
        Tally {
            completed: self.completed as nat,
            succeeded: self.downloaded as nat,
            failed: self.failed as nat,
            bytes: self.total_size as nat,
        }
    }

    /// The number of repositories dispatched.
    pub closed spec fn total(&self) -> nat {
        self.total as nat
    }

    pub open spec fn wf(&self) -> bool {
        &&& self@.completed == self@.succeeded + self@.failed
        &&& self@.completed <= self.total()
    }

    pub fn new(total: usize) -> (r: ProgressTracker)
        ensures
            r.wf(),
            r@ == empty_tally(),
            r.total() == total,
    {
        ProgressTracker { total, completed: 0, downloaded: 0, failed: 0, total_size: 0 }
    }

    /// Applies one outcome: a success adds one to the successes and its size
    /// to the byte total, a failure one to the failures; either adds one to
    /// the completed count. Returns the line to print for it.
    pub fn report_completion(&mut self, name: String, result: Result<u64, String>) -> (line: ProgressLine)
        requires
            old(self).wf(),
            old(self)@.completed < old(self).total(),
            result matches Ok(n) ==> old(self)@.bytes + n <= u64::MAX,
        ensures
            final(self).wf(),
            final(self).total() == old(self).total(),
            final(self)@ == step(old(self)@, result),
            line.current == final(self)@.completed,
            line.total == old(self).total(),
            line.name == name,
            result matches Ok(n) ==> line.detail == Ok::<u64, String>(n / 1024),
            result matches Err(e) ==> line.detail == Err::<u64, String>(e),
    {
        self.completed = self.completed + 1;
        let current = self.completed;
        let detail = match result {
            Ok(size) => {
                self.downloaded = self.downloaded + 1;
                self.total_size = self.total_size + size;
                Ok(size / 1024)
            },
            Err(e) => {
                self.failed = self.failed + 1;
                Err(e)
            },
        };
        ProgressLine { current, total: self.total, name, detail }
    }

    /// The counts so far; final once every dispatched task has reported.
    pub fn get_stats(&self) -> (s: Stats)
        ensures
            s.downloaded == self@.succeeded,
            s.failed == self@.failed,
            s.total_size == self@.bytes,
    {
        Stats { downloaded: self.downloaded, failed: self.failed, total_size: self.total_size }
    }
}

proof fn lemma_remove_any(s: Seq<Result<u64, String>>, j: int)
    requires
        0 <= j < s.len(),
    ensures
        tally_of(s) == step(tally_of(s.remove(j)), s[j]),
    decreases s.len(),
{
    if j == s.len() - 1 {
        assert(s.remove(j) =~= s.drop_last());
    } else {
        let r = s.remove(j);
        assert(r.drop_last() =~= s.drop_last().remove(j));
        assert(r.last() == s.last());
        lemma_remove_any(s.drop_last(), j);
    }
}

/// Reporting N outcomes yields N completions, as many successes as there
/// are successful outcomes, the rest as failures, and the sum of the
/// successful sizes as the byte total; and the same counts come out in
/// whatever order the same outcomes are reported.
pub proof fn lemma_tally_counts_and_order(a: Seq<Result<u64, String>>, b: Seq<Result<u64, String>>)
    requires
        a.to_multiset() == b.to_multiset(),
    ensures
        tally_of(a).completed == a.len(),
        tally_of(a).succeeded == successes(a),
        tally_of(a).failed == a.len() - successes(a),
        tally_of(a).bytes == success_bytes(a),
        tally_of(a) == tally_of(b),
    decreases a.len(),
{
    a.to_multiset_ensures();
    b.to_multiset_ensures();
    if a.len() == 0 {
        assert(b.len() == 0);
        assert(b =~= Seq::<Result<u64, String>>::empty());
    } else {
        let x = a.last();
        let a0 = a.drop_last();
        assert(a0.push(x) =~= a);
        a0.to_multiset_ensures();
        assert(a.to_multiset().count(x) > 0);
        assert(b.contains(x));
        let j = choose|j: int| 0 <= j < b.len() && b[j] == x;
        let b0 = b.remove(j);
        assert(a0.to_multiset() =~= b0.to_multiset());
        lemma_tally_counts_and_order(a0, b0);
        lemma_remove_any(b, j);
    }
}

} // verus!
