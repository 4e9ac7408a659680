//! Verdicts, the verdict-aggregation policy shared by both testers, and the
//! failure-capturing invoker that turns a predicate's outcome into a verdict.

use vstd::prelude::*;

use crate::input::Input;
use crate::predicates::{Predicate, SystemPredicate};

verus! {

/// Outcome of one predicate call, or of a whole dispatch.
///
/// `Success` carries the rendered result of a completed check; `Failure`
/// carries the message and best-effort source location of an aborted check;
/// `Unhandled` means the predicate could not interpret the input (it is also
/// the neutral start value of the verdict fold).
#[derive(Debug, Clone)]
pub enum TestResult {
    Success(String),
    Failure { message: String, location: String },
    Unhandled,
}

impl PartialEq for TestResult {
    fn eq(&self, other: &TestResult) -> (r: bool) {
        match (self, other) {
            (TestResult::Success(a), TestResult::Success(b)) => *a == *b,
            (
                TestResult::Failure { message: m1, location: l1 },
                TestResult::Failure { message: m2, location: l2 },
            ) => *m1 == *m2 && *l1 == *l2,
            (TestResult::Unhandled, TestResult::Unhandled) => true,
            _ => false,
        }
    }
}

impl vstd::std_specs::cmp::PartialEqSpecImpl for TestResult {
    open spec fn obeys_eq_spec() -> bool {
        true
    }

    open spec fn eq_spec(&self, other: &TestResult) -> bool {
        match (self, other) {
            (TestResult::Success(a), TestResult::Success(b)) => a@ == b@,
            (
                TestResult::Failure { message: m1, location: l1 },
                TestResult::Failure { message: m2, location: l2 },
            ) => m1@ == m2@ && l1@ == l2@,
            (TestResult::Unhandled, TestResult::Unhandled) => true,
            _ => false,
        }
    }
}

/// How one more predicate verdict `v` is folded into the verdict `acc`
/// accumulated so far: the first failure is kept forever; otherwise the
/// first non-`Unhandled` verdict becomes sticky.
pub open spec fn combine(acc: TestResult, v: TestResult) -> TestResult {
    if acc is Failure {
        acc
    } else if v is Failure {
        v
    } else if acc is Unhandled {
        v
    } else {
        acc
    }
}

/// The verdict a dispatch returns, given the verdicts of the registered
/// predicates in registration order: the first `Failure` if there is one,
/// else the first `Success` if there is one, else `Unhandled`.
pub open spec fn dispatch_verdict(vs: Seq<TestResult>) -> TestResult
    decreases vs.len(),
{
    if vs.len() == 0 {
        TestResult::Unhandled
    } else {
        combine(dispatch_verdict(vs.drop_last()), vs.last())
    }
}

/// A fold of verdicts without a `Failure` never yields a `Failure`.
pub proof fn lemma_no_failure_fold(vs: Seq<TestResult>)
    requires
        forall|j: int| 0 <= j < vs.len() ==> !(vs[j] is Failure),
    ensures
        !(dispatch_verdict(vs) is Failure),
    decreases vs.len(),
{
    if vs.len() > 0 {
        lemma_no_failure_fold(vs.drop_last());
    }
}

/// Once a prefix of the verdicts folds to a `Failure`, the verdicts after it
/// contribute nothing: the whole sequence folds to that same `Failure`.
pub proof fn lemma_failure_stable(vs: Seq<TestResult>, k: int)
    requires
        0 <= k <= vs.len(),
        dispatch_verdict(vs.take(k)) is Failure,
    ensures
        dispatch_verdict(vs) == dispatch_verdict(vs.take(k)),
    decreases vs.len() - k,
{
    if k == vs.len() {
        assert(vs.take(k) =~= vs);
    } else {
        assert(vs.take(k + 1).drop_last() =~= vs.take(k));
        assert(vs.take(k + 1).last() == vs[k]);
        lemma_failure_stable(vs, k + 1);
    }
}

/// Short-circuit law: if the predicate at position `i` yields the first
/// `Failure`, the dispatch verdict is exactly that `Failure`, and the
/// verdicts of the predicates after position `i` make no difference.
pub proof fn lemma_short_circuit(vs: Seq<TestResult>, i: int)
    requires
        0 <= i < vs.len(),
        vs[i] is Failure,
        forall|j: int| 0 <= j < i ==> !(vs[j] is Failure),
    ensures
        dispatch_verdict(vs) == vs[i],
        dispatch_verdict(vs) == dispatch_verdict(vs.take(i + 1)),
{
    lemma_no_failure_fold(vs.take(i));
    assert(vs.take(i + 1).drop_last() =~= vs.take(i));
    assert(vs.take(i + 1).last() == vs[i]);
    lemma_failure_stable(vs, i + 1);
}

/// A fold of `Unhandled` verdicts alone is `Unhandled`.
pub proof fn lemma_all_unhandled(vs: Seq<TestResult>)
    requires
        forall|j: int| 0 <= j < vs.len() ==> vs[j] is Unhandled,
    ensures
        dispatch_verdict(vs) == TestResult::Unhandled,
    decreases vs.len(),
{
    if vs.len() > 0 {
        lemma_all_unhandled(vs.drop_last());
    }
}

/// Sticky-first-success law: absent any `Failure`, the dispatch verdict is
/// the first non-`Unhandled` verdict in registration order; later verdicts
/// never override it.
pub proof fn lemma_sticky_first_success(vs: Seq<TestResult>, k: int)
    requires
        forall|j: int| 0 <= j < vs.len() ==> !(vs[j] is Failure),
        0 <= k < vs.len(),
        !(vs[k] is Unhandled),
        forall|j: int| 0 <= j < k ==> vs[j] is Unhandled,
    ensures
        dispatch_verdict(vs) == vs[k],
    decreases vs.len(),
{
    if k == vs.len() - 1 {
        lemma_all_unhandled(vs.drop_last());
    } else {
        lemma_sticky_first_success(vs.drop_last(), k);
    }
}

/// Idempotence law: the dispatch verdict is a function of the predicate
/// verdicts alone, so two dispatches that see the same verdicts agree. In
/// particular, repeated dispatches of one unchanged tester on one input
/// return equal verdicts, since each call returns
/// `dispatch_verdict` of the same verdict sequence.
pub proof fn lemma_dispatch_deterministic(vs: Seq<TestResult>, r1: TestResult, r2: TestResult)
    requires
        r1 == dispatch_verdict(vs),
        r2 == dispatch_verdict(vs),
    ensures
        r1 == r2,
{
}

/// An abnormal abort of a predicate: its message, and a best-effort source
/// location. Neither is guaranteed non-empty.
#[derive(Debug, Clone)]
pub struct Abort {
    pub message: String,
    pub location: String,
}

/// The verdict that the failure-capturing invoker returns for a predicate
/// outcome: a rendered result becomes `Success`, an abort becomes `Failure`.
pub open spec fn spec_capture(outcome: Result<String, Abort>) -> TestResult {
    match outcome {
        Ok(rendered) => TestResult::Success(rendered),
        Err(abort) => TestResult::Failure { message: abort.message, location: abort.location },
    }
}

/// Turns the outcome a predicate returned into a verdict; an abort is
/// recovered into an ordinary `Failure` value and never propagates.
pub fn capture_outcome(outcome: Result<String, Abort>) -> (r: TestResult)
    ensures
        r == spec_capture(outcome),
{
    match outcome {
        Ok(rendered) => TestResult::Success(rendered),
        Err(abort) => TestResult::Failure { message: abort.message, location: abort.location },
    }
}

/// Runs a test computation under the recoverable-failure boundary: whatever
/// the computation decides, the call returns an ordinary verdict, `Success`
/// on a rendered result and `Failure` on an abort.
pub fn capture_test<F: FnOnce() -> Result<String, Abort>>(test: F) -> (r: TestResult)
    requires
        call_requires(test, ()),
    ensures
        exists|o: Result<String, Abort>| call_ensures(test, (), o) && r == spec_capture(o),
{
    let outcome = test();
    capture_outcome(outcome)
}

/// The verdicts that the registered predicates give for one input, in
/// registration order.
pub open spec fn verdicts_of<P: Predicate>(preds: Seq<P>, input: Input<P::Native>) -> Seq<
    TestResult,
> {
    Seq::new(preds.len(), |i: int| preds[i].spec_check(input))
}

/// An ordered list of independent predicates; `test` dispatches one opaque
/// input through all of them and folds their verdicts.
pub struct SimpleTester<P> {
    tests: Vec<P>,
}

impl<P> View for SimpleTester<P> {
    type V = Seq<P>;

    closed spec fn view(&self) -> Seq<P> {
        self.tests@
    }
}

impl<P: Predicate> SimpleTester<P> {
    /// Creates a tester with no predicates.
    pub fn new() -> (r: SimpleTester<P>)
        ensures
            r@ == Seq::<P>::empty(),
    {
        SimpleTester { tests: Vec::new() }
    }

    /// Appends one predicate; predicates run in registration order.
    pub fn add(&mut self, test: P)
        ensures
            final(self)@ == old(self)@.push(test),
    {
        self.tests.push(test);
    }

    /// Dispatches one input: tries each registered predicate in order and
    /// folds the verdicts, short-circuiting on the first `Failure`,
    /// otherwise keeping the first non-`Unhandled` verdict.
    pub fn test(&self, input: &Input<P::Native>) -> (r: TestResult)
        ensures
            r == dispatch_verdict(verdicts_of(self@, *input)),
    {
        let ghost vs = verdicts_of(self@, *input);
        let mut last = TestResult::Unhandled;
        let n = self.tests.len();
        for i in 0..n
            invariant
                n == self.tests.len(),
                vs == verdicts_of(self@, *input),
                !(last is Failure),
                last == dispatch_verdict(vs.take(i as int)),
        {
            let res = self.tests[i].check(input);
            proof {
                assert(vs.take(i + 1).drop_last() =~= vs.take(i as int));
                assert(vs.take(i + 1).last() == vs[i as int]);
            }
            match res {
                TestResult::Failure { .. } => {
                    proof {
                        lemma_failure_stable(vs, i + 1);
                    }
                    return res;
                },
                res => {
                    if matches!(last, TestResult::Unhandled) {
                        last = res;
                    }
                },
            }
        }
        proof {
            assert(vs.take(n as int) =~= vs);
        }
        last
    }
}

/// One step of the stateful dispatch fold: once a `Failure` is recorded the
/// step is a no-op (the exec loop has already returned); otherwise the
/// predicate reads and advances the state and its verdict is folded in.
pub open spec fn system_step<P: SystemPredicate>(
    acc: (P::State, TestResult),
    p: P,
    input: Input<P::Native>,
) -> (P::State, TestResult) {
    if acc.1 is Failure {
        acc
    } else {
        (p.spec_next(acc.0, input), combine(acc.1, p.spec_check(acc.0, input)))
    }
}

/// The state and verdict a stateful dispatch ends with: each predicate in
/// registration order sees the state its predecessors left, until the first
/// `Failure` stops the run.
pub open spec fn system_dispatch<P: SystemPredicate>(
    preds: Seq<P>,
    s: P::State,
    input: Input<P::Native>,
) -> (P::State, TestResult)
    decreases preds.len(),
{
    if preds.len() == 0 {
        (s, TestResult::Unhandled)
    } else {
        system_step(system_dispatch(preds.drop_last(), s, input), preds.last(), input)
    }
}

/// Once a prefix of a stateful dispatch ends in a `Failure`, the predicates
/// after it run neither their checks nor their state updates: the whole
/// dispatch ends exactly where that prefix ended.
pub proof fn lemma_system_failure_stable<P: SystemPredicate>(
    preds: Seq<P>,
    s: P::State,
    input: Input<P::Native>,
    k: int,
)
    requires
        0 <= k <= preds.len(),
        system_dispatch(preds.take(k), s, input).1 is Failure,
    ensures
        system_dispatch(preds, s, input) == system_dispatch(preds.take(k), s, input),
    decreases preds.len() - k,
{
    if k == preds.len() {
        assert(preds.take(k) =~= preds);
    } else {
        assert(preds.take(k + 1).drop_last() =~= preds.take(k));
        assert(preds.take(k + 1).last() == preds[k]);
        lemma_system_failure_stable(preds, s, input, k + 1);
    }
}

/// The state a stateful dispatch hands to the predicate at position `i`:
/// the state the predicates before it left behind (frozen once a `Failure`
/// has ended the run).
pub open spec fn system_state_before<P: SystemPredicate>(
    preds: Seq<P>,
    s: P::State,
    input: Input<P::Native>,
    i: int,
) -> P::State {
    system_dispatch(preds.take(i), s, input).0
}

/// The verdicts of a stateful dispatch in registration order, each taken on
/// the state the predicates before it left behind.
pub open spec fn system_verdicts<P: SystemPredicate>(
    preds: Seq<P>,
    s: P::State,
    input: Input<P::Native>,
) -> Seq<TestResult> {
    Seq::new(
        preds.len(),
        |i: int| preds[i].spec_check(system_state_before(preds, s, input, i), input),
    )
}

/// Stateful dispatch folds its threaded verdicts with the very policy of the
/// stateless dispatch. Through this equality the short-circuit,
/// sticky-first-success and determinism laws of `dispatch_verdict` carry
/// over to `SystemTester::test` unchanged.
pub proof fn lemma_system_dispatch_verdict<P: SystemPredicate>(
    preds: Seq<P>,
    s: P::State,
    input: Input<P::Native>,
)
    ensures
        system_dispatch(preds, s, input).1 == dispatch_verdict(system_verdicts(preds, s, input)),
    decreases preds.len(),
{
    if preds.len() > 0 {
        let prefix = preds.drop_last();
        lemma_system_dispatch_verdict(prefix, s, input);
        assert(preds.take(preds.len() - 1) =~= prefix);
        assert forall|i: int| 0 <= i < prefix.len() implies system_verdicts(preds, s, input)[i]
            == system_verdicts(prefix, s, input)[i] by {
            assert(prefix.take(i) =~= preds.take(i));
        }
        assert(system_verdicts(preds, s, input).drop_last() =~= system_verdicts(
            prefix,
            s,
            input,
        ));
    }
}

/// Short-circuit law for stateful dispatch: if the predicate at position `i`
/// yields the first `Failure` of the threaded run, the dispatch verdict is
/// exactly that `Failure`.
pub proof fn lemma_system_short_circuit<P: SystemPredicate>(
    preds: Seq<P>,
    s: P::State,
    input: Input<P::Native>,
    i: int,
)
    requires
        0 <= i < preds.len(),
        system_verdicts(preds, s, input)[i] is Failure,
        forall|j: int| 0 <= j < i ==> !(system_verdicts(preds, s, input)[j] is Failure),
    ensures
        system_dispatch(preds, s, input).1 == system_verdicts(preds, s, input)[i],
{
    lemma_system_dispatch_verdict(preds, s, input);
    lemma_short_circuit(system_verdicts(preds, s, input), i);
}

/// Sticky-first-success law for stateful dispatch: absent any `Failure` in
/// the threaded run, the dispatch verdict is the first non-`Unhandled`
/// verdict in registration order.
pub proof fn lemma_system_sticky_first_success<P: SystemPredicate>(
    preds: Seq<P>,
    s: P::State,
    input: Input<P::Native>,
    k: int,
)
    requires
        forall|j: int| 0 <= j < preds.len() ==> !(system_verdicts(preds, s, input)[j] is Failure),
        0 <= k < preds.len(),
        !(system_verdicts(preds, s, input)[k] is Unhandled),
        forall|j: int| 0 <= j < k ==> system_verdicts(preds, s, input)[j] is Unhandled,
    ensures
        system_dispatch(preds, s, input).1 == system_verdicts(preds, s, input)[k],
{
    lemma_system_dispatch_verdict(preds, s, input);
    lemma_sticky_first_success(system_verdicts(preds, s, input), k);
}

/// An ordered list of predicates over shared external state; `test` threads
/// one mutable state reference through every predicate call in order within
/// a single dispatch, so earlier mutations are visible to later predicates.
/// The tester never retains the state between calls.
pub struct SystemTester<P> {
    tests: Vec<P>,
}

impl<P> View for SystemTester<P> {
    type V = Seq<P>;

    closed spec fn view(&self) -> Seq<P> {
        self.tests@
    }
}

impl<P: SystemPredicate> SystemTester<P> {
    /// Creates a tester with no predicates.
    pub fn new() -> (r: SystemTester<P>)
        ensures
            r@ == Seq::<P>::empty(),
    {
        SystemTester { tests: Vec::new() }
    }

    /// Appends one predicate; predicates run in registration order.
    pub fn add(&mut self, test: P)
        ensures
            final(self)@ == old(self)@.push(test),
    {
        self.tests.push(test);
    }

    /// Dispatches one input against the caller's state: tries each
    /// registered predicate in order, threading the state through, and folds
    /// the verdicts with the same policy as the stateless tester.
    pub fn test(&self, state: &mut P::State, input: &Input<P::Native>) -> (r: TestResult)
        ensures
            ({
                let end = system_dispatch(self@, *old(state), *input);
                *final(state) == end.0 && r == end.1
            }),
    {
        let mut last = TestResult::Unhandled;
        let n = self.tests.len();
        for i in 0..n
            invariant
                n == self.tests.len(),
                !(last is Failure),
                ({
                    let mid = system_dispatch(self@.take(i as int), *old(state), *input);
                    *state == mid.0 && last == mid.1
                }),
        {
            proof {
                assert(self@.take(i + 1).drop_last() =~= self@.take(i as int));
                assert(self@.take(i + 1).last() == self@[i as int]);
            }
            let res = self.tests[i].check(state, input);
            match res {
                TestResult::Failure { .. } => {
                    proof {
                        lemma_system_failure_stable(self@, *old(state), *input, i + 1);
                    }
                    return res;
                },
                res => {
                    if matches!(last, TestResult::Unhandled) {
                        last = res;
                    }
                },
            }
        }
        proof {
            assert(self@.take(n as int) =~= self@);
        }
        last
    }
}

} // verus!
