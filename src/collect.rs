//! Selecting the failing cases of a suite tree, depth first.

use vstd::prelude::*;
use crate::report::{TestCase, TestStatus, TestSuite};

verus! {

/// Whether a status counts as a failure: `Failure` and `Error` do, `Success`
/// and `Skipped` do not, whatever details they carry.
pub open spec fn status_fails(s: TestStatus) -> bool {
    s is Failure || s is Error
}

/// Whether the case is to be reported.
pub fn has_failures(case: &TestCase) -> (r: bool)
    ensures
        r == status_fails(case.status),
{
    match case.status {
        TestStatus::Success => false,
        TestStatus::Error(_) => true,
        TestStatus::Failure(_) => true,
        TestStatus::Skipped(_) => false,
    }
}

/// The failing cases among `cases`, in their order.
pub open spec fn own_failures(cases: Seq<TestCase>) -> Seq<TestCase>
    decreases cases.len(),
{
    if cases.len() == 0 {
        Seq::empty()
    } else {
        let rest = own_failures(cases.drop_last());
        if status_fails(cases.last().status) {
            rest.push(cases.last())
        } else {
            rest
        }
    }
}

/// The failing cases of a sequence of suites, depth first: for each suite in
/// turn, those of its nested suites come first, then its own.
pub open spec fn failures_of_suites(suites: Seq<TestSuite>) -> Seq<TestCase>
    decreases suites,
{
    if suites.len() == 0 {
        Seq::empty()
    } else {
        failures_of_suites(suites.drop_last()) + failures_of_suite(suites.last())
    }
}

/// The failing cases of one suite: those of its nested suites, then its own.
pub open spec fn failures_of_suite(suite: TestSuite) -> Seq<TestCase>
    decreases suite,
{
    failures_of_suites(suite.suites@) + own_failures(suite.cases@)
}

/// Appends to `result` every failing case of `test_suites`, depth first.
pub fn collect_failed_tests(test_suites: &Vec<TestSuite>, result: &mut Vec<TestCase>)
    ensures
        final(result)@ == old(result)@ + failures_of_suites(test_suites@),
    decreases test_suites@,
{
    let ghost start = result@;
    let mut i: usize = 0;
    while i < test_suites.len()
        invariant
            i <= test_suites@.len(),
            result@ == start + failures_of_suites(test_suites@.subrange(0, i as int)),
        decreases test_suites@.len() - i,
    {
        let suite = &test_suites[i];
        proof {
            assert(decreases_to!(test_suites@ => test_suites@[i as int]));
            assert(decreases_to!(test_suites@[i as int] => suite.suites));
            assert(decreases_to!(suite.suites => suite.suites@));
        }
        let ghost before = result@;
        collect_failed_tests(&suite.suites, result);
        let mut j: usize = 0;
        while j < suite.cases.len()
            invariant
                j <= suite.cases@.len(),
                result@ == before + failures_of_suites(suite.suites@) + own_failures(
                    suite.cases@.subrange(0, j as int),
                ),
            decreases suite.cases@.len() - j,
        {
            let case = &suite.cases[j];
            if has_failures(case) {
                result.push(case.duplicate());
            }
            assert(suite.cases@.subrange(0, j + 1).drop_last() == suite.cases@.subrange(0, j as int));
            j = j + 1;
        }
        assert(suite.cases@.subrange(0, j as int) == suite.cases@);
        let ghost done = test_suites@.subrange(0, i + 1);
        assert(done.drop_last() == test_suites@.subrange(0, i as int));
        assert(done.last() == *suite);
        assert(failures_of_suites(done) == failures_of_suites(done.drop_last())
            + failures_of_suite(*suite));
        assert(result@ =~= start + failures_of_suites(done));
        i = i + 1;
    }
    assert(test_suites@.subrange(0, i as int) == test_suites@);
}

/// The failures of the first `n` suites of `ss` are a prefix of those of `ss`.
pub proof fn lemma_prefix_failures(ss: Seq<TestSuite>, n: int)
    requires
        0 <= n <= ss.len(),
    ensures
        failures_of_suites(ss.subrange(0, n)).len() <= failures_of_suites(ss).len(),
        failures_of_suites(ss).subrange(0, failures_of_suites(ss.subrange(0, n)).len() as int)
            == failures_of_suites(ss.subrange(0, n)),
    decreases ss.len(),
{
    let whole = failures_of_suites(ss);
    if n == ss.len() {
        assert(ss.subrange(0, n) == ss);
        assert(whole.subrange(0, whole.len() as int) == whole);
    } else {
        let front = ss.drop_last();
        lemma_prefix_failures(front, n);
        assert(front.subrange(0, n) == ss.subrange(0, n));
        let p = failures_of_suites(ss.subrange(0, n));
        assert(whole == failures_of_suites(front) + failures_of_suite(ss.last()));
        assert(whole.subrange(0, p.len() as int) =~= failures_of_suites(front).subrange(
            0,
            p.len() as int,
        ));
    }
}

/// Depth-first order: within the failures of a suite, the failures of each
/// nested suite stand together, at a position before every failing case of
/// the suite's own, and the suite's own failing cases close the sequence.
pub proof fn lemma_nested_before_own(suite: TestSuite, j: int)
    requires
        0 <= j < suite.suites@.len(),
    ensures
        ({
            let all = failures_of_suite(suite);
            let nested = failures_of_suites(suite.suites@);
            let child = failures_of_suite(suite.suites@[j]);
            &&& exists|k: int|
                0 <= k && k + child.len() <= nested.len() && #[trigger] all.subrange(
                    k,
                    k + child.len(),
                ) == child
            &&& all.subrange(nested.len() as int, all.len() as int) == own_failures(suite.cases@)
        }),
{
    let ss = suite.suites@;
    let all = failures_of_suite(suite);
    let nested = failures_of_suites(ss);
    let child = failures_of_suite(ss[j]);
    lemma_prefix_failures(ss, j + 1);
    let upto = ss.subrange(0, j + 1);
    assert(upto.drop_last() == ss.subrange(0, j));
    assert(upto.last() == ss[j]);
    let before = failures_of_suites(ss.subrange(0, j));
    assert(failures_of_suites(upto) == before + child);
    let k = before.len() as int;
    assert(all == nested + own_failures(suite.cases@));
    assert forall|i: int| 0 <= i < child.len() implies #[trigger] all.subrange(
        k,
        k + child.len(),
    )[i] == child[i] by {
        assert(nested.subrange(0, k + child.len())[k + i] == (before + child)[k + i]);
    }
    assert(all.subrange(k, k + child.len()) =~= child);
    assert(all.subrange(nested.len() as int, all.len() as int) =~= own_failures(suite.cases@));
}

} // verus!
