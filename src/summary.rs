use vstd::prelude::*;

verus! {

/// Outcome counts of the finished iterations.
pub struct Summary {
    pub successes: u64,
    pub failures: Vec<i32>,
}

impl Summary {
    pub fn new() -> (r: Summary)
        ensures
            r.successes == 0,
            r.failures@ == Seq::<i32>::empty(),
    {
        Summary { successes: 0, failures: Vec::new() }
    }

    /// Records one finished iteration: a success is counted, a failure keeps its code.
    pub fn record(&mut self, success: bool, code: i32)
        ensures
            success ==> final(self).successes == if old(self).successes == u64::MAX {
                u64::MAX as int
            } else {
                old(self).successes + 1
            },
            success ==> final(self).failures@ == old(self).failures@,
            !success ==> final(self).successes == old(self).successes,
            !success ==> final(self).failures@ == old(self).failures@.push(code),
    {
        if success {
            self.successes = self.successes.saturating_add(1);
        } else {
            self.failures.push(code);
        }
    }

    /// Number of recorded iterations, saturating at `u64::MAX`.
    pub fn total(&self) -> (r: u64)
        ensures
            r == if self.successes + self.failures@.len() > u64::MAX {
                u64::MAX as int
            } else {
                self.successes + self.failures@.len()
            },
    {
        let n = self.failures.len() as u64;
        self.successes.saturating_add(n)
    }
}

} // verus!
