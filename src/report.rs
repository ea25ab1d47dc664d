use vstd::prelude::*;

verus! {

/// Number of entries of `s` that did not pass.
pub open spec fn count_failed(s: Seq<(String, bool)>) -> nat
    decreases s.len(),
{
    if s.len() == 0 {
        0
    } else {
        count_failed(s.drop_last()) + if s.last().1 {
            0nat
        } else {
            1nat
        }
    }
}

/// Number of entries of `s` that passed.
pub open spec fn count_passed(s: Seq<(String, bool)>) -> nat
    decreases s.len(),
{
    if s.len() == 0 {
        0
    } else {
        count_passed(s.drop_last()) + if s.last().1 {
            1nat
        } else {
            0nat
        }
    }
}

/// Every test script of a report counts once, as passed or as failed: with
/// `k` failures among `n` results there are `n - k` passes.
pub proof fn report_counts_cover_all(s: Seq<(String, bool)>)
    ensures
        count_passed(s) + count_failed(s) == s.len(),
    decreases s.len(),
{
    if s.len() > 0 {
        report_counts_cover_all(s.drop_last());
    }
}

/// The results of a test run: each test script's path and whether it passed,
/// in the order in which they ran.
#[derive(Clone, Debug)]
pub struct TestReport {
    pub results: Vec<(String, bool)>,
}

impl TestReport {
    /// An empty report.
    pub fn new() -> (r: TestReport)
        ensures
            r.results@.len() == 0,
    {
        TestReport { results: Vec::new() }
    }

    /// Adds the result of one test script.
    pub fn record(&mut self, path: String, passed: bool)
        ensures
            final(self).results@ == old(self).results@.push((path, passed)),
    {
        self.results.push((path, passed));
    }

    /// Number of test scripts that failed.
    pub fn failures(&self) -> (r: usize)
        ensures
            r == count_failed(self.results@),
    {
        let mut n: usize = 0;
        let mut i: usize = 0;
        while i < self.results.len()
            invariant
                i <= self.results@.len(),
                n == count_failed(self.results@.subrange(0, i as int)),
                n <= i,
            decreases self.results@.len() - i,
        {
            proof {
                let s = self.results@.subrange(0, i + 1);
                assert(s.drop_last() =~= self.results@.subrange(0, i as int));
            }
            if !self.results[i].1 {
                n = n + 1;
            }
            i = i + 1;
        }
        assert(self.results@.subrange(0, self.results@.len() as int) =~= self.results@);
        n
    }

    /// Number of test scripts that passed.
    pub fn passes(&self) -> (r: usize)
        ensures
            r == count_passed(self.results@),
    {
        let f = self.failures();
        proof {
            report_counts_cover_all(self.results@);
        }
        self.results.len() - f
    }

    /// A copy of the report.
    pub fn copy(&self) -> (r: TestReport)
        ensures
            r.results@ == self.results@,
    {
        let mut results: Vec<(String, bool)> = Vec::new();
        let mut i: usize = 0;
        while i < self.results.len()
            invariant
                i <= self.results@.len(),
                results@ == self.results@.subrange(0, i as int),
            decreases self.results@.len() - i,
        {
            let e = &self.results[i];
            results.push((e.0.clone(), e.1));
            i = i + 1;
        }
        assert(results@ =~= self.results@);
        TestReport { results }
    }
}

} // verus!
