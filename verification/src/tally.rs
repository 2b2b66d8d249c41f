//! Per-run outcome tallies: three mutually exclusive counters, incremented
//! exactly once per processed file.

use vstd::prelude::*;
use crate::pipeline::FileOutcome;

verus! {

/// Number of `Converted` outcomes in `s`.
pub open spec fn count_converted(s: Seq<FileOutcome>) -> nat
    decreases s.len(),
{
    if s.len() == 0 {
        0
    } else {
        count_converted(s.drop_last()) + if s.last() is Converted { 1nat } else { 0nat }
    }
}

/// Number of `Skipped` outcomes in `s`.
pub open spec fn count_skipped(s: Seq<FileOutcome>) -> nat
    decreases s.len(),
{
    if s.len() == 0 {
        0
    } else {
        count_skipped(s.drop_last()) + if s.last() is Skipped { 1nat } else { 0nat }
    }
}

/// Number of `Errored` outcomes in `s`.
pub open spec fn count_errored(s: Seq<FileOutcome>) -> nat
    decreases s.len(),
{
    if s.len() == 0 {
        0
    } else {
        count_errored(s.drop_last()) + if s.last() is Errored { 1nat } else { 0nat }
    }
}

/// The outcomes partition the processed files: every file counts towards
/// exactly one of the three tallies, so the tallies sum to the file count.
pub proof fn lemma_counts_partition(s: Seq<FileOutcome>)
    ensures
        count_converted(s) + count_skipped(s) + count_errored(s) == s.len(),
    decreases s.len(),
{
    if s.len() > 0 {
        lemma_counts_partition(s.drop_last());
    }
}

/// The three counters of one run: how many files were converted, skipped,
/// or failed with an error. Read only after every file has been processed.
pub struct RunTally {
    pub converted: usize,
    pub skipped: usize,
    pub errored: usize,
}

impl RunTally {
    /// A fresh tally with every counter at zero.
    pub fn new() -> (t: RunTally)
        ensures
            t.converted == 0,
            t.skipped == 0,
            t.errored == 0,
    {
        RunTally { converted: 0, skipped: 0, errored: 0 }
    }

    /// Records one outcome: exactly the counter matching the outcome's
    /// variant is incremented, the other two are untouched.
    pub fn record(&mut self, outcome: &FileOutcome)
        requires
            outcome is Converted ==> old(self).converted < usize::MAX,
            outcome is Skipped ==> old(self).skipped < usize::MAX,
            outcome is Errored ==> old(self).errored < usize::MAX,
        ensures
            final(self).converted
                == old(self).converted + if outcome is Converted { 1int } else { 0int },
            final(self).skipped
                == old(self).skipped + if outcome is Skipped { 1int } else { 0int },
            final(self).errored
                == old(self).errored + if outcome is Errored { 1int } else { 0int },
    {
        match outcome {
            FileOutcome::Converted => {
                self.converted = self.converted + 1;
            }
            FileOutcome::Skipped => {
                self.skipped = self.skipped + 1;
            }
            FileOutcome::Errored(_) => {
                self.errored = self.errored + 1;
            }
        }
    }
}

/// Tallies a run's outcomes: each counter holds the number of outcomes of
/// its variant, and the counters sum to the number of processed files.
pub fn tally_outcomes(outcomes: &Vec<FileOutcome>) -> (t: RunTally)
    ensures
        t.converted == count_converted(outcomes@),
        t.skipped == count_skipped(outcomes@),
        t.errored == count_errored(outcomes@),
        t.converted + t.skipped + t.errored == outcomes@.len(),
{
    let ghost s = outcomes@;
    let mut t = RunTally::new();
    let mut i: usize = 0;
    while i < outcomes.len()
        invariant
            0 <= i <= s.len(),
            s == outcomes@,
            t.converted == count_converted(s.take(i as int)),
            t.skipped == count_skipped(s.take(i as int)),
            t.errored == count_errored(s.take(i as int)),
            t.converted + t.skipped + t.errored == i,
        decreases s.len() - i,
    {
        proof {
            assert(s.take(i + 1).drop_last() =~= s.take(i as int));
            assert(s.take(i + 1).last() == s[i as int]);
        }
        t.record(&outcomes[i]);
        i = i + 1;
    }
    proof {
        assert(s.take(s.len() as int) =~= s);
    }
    t
}

} // verus!
