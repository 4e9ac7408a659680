//! Predicates: the units of test logic a tester dispatches over, and the
//! adapters that give a typed check the uniform input-to-verdict shape.

use vstd::prelude::*;

use crate::input::{convert_to, interpret_as, spec_convert_to, spec_interpret_as, Direct, Input,
    Schema};
use crate::tester::{capture_outcome, dispatch_verdict, spec_capture, verdicts_of, Abort,
    TestResult};

verus! {

/// A predicate registered with a `SimpleTester`: a unit of test logic
/// adapted to the uniform input-to-verdict calling convention. The verdict
/// an implementation returns must be the one `spec_check` describes;
/// the tester's dispatch contract speaks of registered predicates through
/// that description.
pub trait Predicate: Sized {
    /// The universe of native values this predicate may be handed.
    type Native;

    /// The verdict this predicate gives for an input. An implementation
    /// describes itself by overriding this; left unoverridden it is an
    /// arbitrary unspecified function, of which nothing can be concluded.
    open spec fn spec_check(&self, input: Input<Self::Native>) -> TestResult {
        arbitrary()
    }

    fn check(&self, input: &Input<Self::Native>) -> (r: TestResult)
        ensures
            r == self.spec_check(*input),
    ;
}

/// A predicate registered with a `SystemTester`: like `Predicate`, but each
/// call also receives the shared state and may mutate it. `spec_check`
/// describes the verdict and `spec_next` the state the call leaves behind.
pub trait SystemPredicate: Sized {
    /// The shared state threaded through every predicate call.
    type State;

    /// The universe of native values this predicate may be handed.
    type Native;

    /// The verdict this predicate gives, from the incoming state and input.
    /// Unoverridden it is an arbitrary unspecified function.
    open spec fn spec_check(&self, s: Self::State, input: Input<Self::Native>) -> TestResult {
        arbitrary()
    }

    /// The state this predicate leaves, from the incoming state and input.
    /// Unoverridden it is an arbitrary unspecified function.
    open spec fn spec_next(&self, s: Self::State, input: Input<Self::Native>) -> Self::State {
        arbitrary()
    }

    fn check(&self, state: &mut Self::State, input: &Input<Self::Native>) -> (r: TestResult)
        ensures
            r == self.spec_check(*old(state), *input),
            *final(state) == self.spec_next(*old(state), *input),
    ;
}

/// The typed test logic behind a stateless predicate: a check over one case
/// value, returning a rendered result or an abort.
pub trait Check: Sized {
    /// The statically-typed case this check accepts.
    type Case;

    /// The outcome of the check on a case value. Unoverridden it is an
    /// arbitrary unspecified function.
    open spec fn spec_run(&self, case: Self::Case) -> Result<String, Abort> {
        arbitrary()
    }

    fn run(&self, case: Self::Case) -> (r: Result<String, Abort>)
        ensures
            r == self.spec_run(case),
    ;
}

/// The typed test logic behind a stateful predicate: a check over the shared
/// state and one case value; it may mutate the state.
pub trait SystemCheck: Sized {
    /// The shared state threaded through every predicate call.
    type State;

    /// The statically-typed case this check accepts.
    type Case;

    /// The outcome of the check on the incoming state and a case value.
    /// Unoverridden it is an arbitrary unspecified function.
    open spec fn spec_run(&self, s: Self::State, case: Self::Case) -> Result<String, Abort> {
        arbitrary()
    }

    /// The state the check leaves, from the incoming state and a case value.
    /// Unoverridden it is an arbitrary unspecified function.
    open spec fn spec_next_state(&self, s: Self::State, case: Self::Case) -> Self::State {
        arbitrary()
    }

    fn run(&self, state: &mut Self::State, case: Self::Case) -> (r: Result<String, Abort>)
        ensures
            r == self.spec_run(*old(state), case),
            *final(state) == self.spec_next_state(*old(state), case),
    ;
}

/// A schema predicate: its case is materialized through the full conversion
/// chain (native match, textual parse, structured-data decode, unwrapping),
/// and the check runs under the failure-capturing invoker.
pub struct SchemaPredicate<C> {
    pub logic: C,
}

impl<C: Check> Predicate for SchemaPredicate<C> where C::Case: Schema {
    type Native = <C::Case as Schema>::Native;

    open spec fn spec_check(&self, input: Input<Self::Native>) -> TestResult {
        match spec_convert_to::<C::Case>(input) {
            Some(case) => spec_capture(self.logic.spec_run(case)),
            None => TestResult::Unhandled,
        }
    }

    fn check(&self, input: &Input<Self::Native>) -> (r: TestResult) {
        match convert_to::<C::Case>(input) {
            Some(case) => capture_outcome(self.logic.run(case)),
            None => TestResult::Unhandled,
        }
    }
}

/// A direct predicate: its case is accepted only by exact native match or
/// unwrapping, never by parsing.
pub struct DirectPredicate<C> {
    pub logic: C,
}

impl<C: Check> Predicate for DirectPredicate<C> where C::Case: Direct {
    type Native = <C::Case as Direct>::Native;

    open spec fn spec_check(&self, input: Input<Self::Native>) -> TestResult {
        match spec_interpret_as::<C::Case>(input) {
            Some(case) => spec_capture(self.logic.spec_run(case)),
            None => TestResult::Unhandled,
        }
    }

    fn check(&self, input: &Input<Self::Native>) -> (r: TestResult) {
        match interpret_as::<C::Case>(input) {
            Some(case) => capture_outcome(self.logic.run(case)),
            None => TestResult::Unhandled,
        }
    }
}

/// A stateful schema predicate: the conversion chain of `SchemaPredicate`,
/// with the shared state handed to the check. An input that yields no case
/// leaves the state untouched.
pub struct SystemSchemaPredicate<C> {
    pub logic: C,
}

impl<C: SystemCheck> SystemPredicate for SystemSchemaPredicate<C> where C::Case: Schema {
    type State = C::State;

    type Native = <C::Case as Schema>::Native;

    open spec fn spec_check(&self, s: Self::State, input: Input<Self::Native>) -> TestResult {
        match spec_convert_to::<C::Case>(input) {
            Some(case) => spec_capture(self.logic.spec_run(s, case)),
            None => TestResult::Unhandled,
        }
    }

    open spec fn spec_next(&self, s: Self::State, input: Input<Self::Native>) -> Self::State {
        match spec_convert_to::<C::Case>(input) {
            Some(case) => self.logic.spec_next_state(s, case),
            None => s,
        }
    }

    fn check(&self, state: &mut Self::State, input: &Input<Self::Native>) -> (r: TestResult) {
        match convert_to::<C::Case>(input) {
            Some(case) => capture_outcome(self.logic.run(state, case)),
            None => TestResult::Unhandled,
        }
    }
}

/// A stateful direct predicate: exact native match or unwrapping only, with
/// the shared state handed to the check. An input that yields no case leaves
/// the state untouched.
pub struct SystemDirectPredicate<C> {
    pub logic: C,
}

impl<C: SystemCheck> SystemPredicate for SystemDirectPredicate<C> where C::Case: Direct {
    type State = C::State;

    type Native = <C::Case as Direct>::Native;

    open spec fn spec_check(&self, s: Self::State, input: Input<Self::Native>) -> TestResult {
        match spec_interpret_as::<C::Case>(input) {
            Some(case) => spec_capture(self.logic.spec_run(s, case)),
            None => TestResult::Unhandled,
        }
    }

    open spec fn spec_next(&self, s: Self::State, input: Input<Self::Native>) -> Self::State {
        match spec_interpret_as::<C::Case>(input) {
            Some(case) => self.logic.spec_next_state(s, case),
            None => s,
        }
    }

    fn check(&self, state: &mut Self::State, input: &Input<Self::Native>) -> (r: TestResult) {
        match interpret_as::<C::Case>(input) {
            Some(case) => capture_outcome(self.logic.run(state, case)),
            None => TestResult::Unhandled,
        }
    }
}

/// Wrapper transparency for schema predicates: wrapping an input in an
/// opaque wrapper does not change the predicate's verdict.
pub proof fn lemma_schema_transparent<C: Check>(
    p: SchemaPredicate<C>,
    b: Box<Input<<C::Case as Schema>::Native>>,
) where C::Case: Schema
    ensures
        p.spec_check(Input::Wrapped(b)) == p.spec_check(*b),
{
}

/// Wrapper transparency for direct predicates: wrapping an input in an
/// opaque wrapper does not change the predicate's verdict.
pub proof fn lemma_direct_transparent<C: Check>(
    p: DirectPredicate<C>,
    b: Box<Input<<C::Case as Direct>::Native>>,
) where C::Case: Direct
    ensures
        p.spec_check(Input::Wrapped(b)) == p.spec_check(*b),
{
}

/// Conversion equivalence: a schema predicate cannot tell two inputs apart
/// once they materialize to the same case. In particular a native instance,
/// text that parses to a tree encoding it, and that tree itself all draw the
/// same verdict.
pub proof fn lemma_conversion_equivalence<C: Check>(
    p: SchemaPredicate<C>,
    x: Input<<C::Case as Schema>::Native>,
    y: Input<<C::Case as Schema>::Native>,
) where C::Case: Schema
    requires
        spec_convert_to::<C::Case>(x) == spec_convert_to::<C::Case>(y),
    ensures
        p.spec_check(x) == p.spec_check(y),
{
}

/// Conversion equivalence lifted to a whole dispatch: a chain of schema
/// predicates over one case type returns the same verdict for two inputs
/// that materialize to the same case.
pub proof fn lemma_dispatch_conversion_equivalence<C: Check>(
    preds: Seq<SchemaPredicate<C>>,
    x: Input<<C::Case as Schema>::Native>,
    y: Input<<C::Case as Schema>::Native>,
) where C::Case: Schema
    requires
        spec_convert_to::<C::Case>(x) == spec_convert_to::<C::Case>(y),
    ensures
        dispatch_verdict(verdicts_of(preds, x)) == dispatch_verdict(verdicts_of(preds, y)),
{
    assert(verdicts_of(preds, x) =~= verdicts_of(preds, y));
}

/// Wrapper transparency lifted to a whole dispatch: a chain of schema
/// predicates over one case type returns the same verdict for a wrapped
/// input as for the input it wraps, however deep the nesting, by applying
/// this lemma once per wrapper layer.
pub proof fn lemma_dispatch_wrapper_transparency<C: Check>(
    preds: Seq<SchemaPredicate<C>>,
    b: Box<Input<<C::Case as Schema>::Native>>,
) where C::Case: Schema
    ensures
        dispatch_verdict(verdicts_of(preds, Input::Wrapped(b)))
            == dispatch_verdict(verdicts_of(preds, *b)),
{
    assert(verdicts_of(preds, Input::Wrapped(b)) =~= verdicts_of(preds, *b));
}

/// A stateful schema predicate whose case cannot be materialized from the
/// input neither runs its check nor mutates the shared state: its verdict is
/// `Unhandled` and the state is returned as it came.
pub proof fn lemma_unconverted_leaves_state<C: SystemCheck>(
    p: SystemSchemaPredicate<C>,
    s: C::State,
    input: Input<<C::Case as Schema>::Native>,
) where C::Case: Schema
    requires
        spec_convert_to::<C::Case>(input) is None,
    ensures
        p.spec_check(s, input) is Unhandled,
        p.spec_next(s, input) == s,
{
}

/// A stateful direct predicate whose case is absent from the input neither
/// runs its check nor mutates the shared state: its verdict is `Unhandled`
/// and the state is returned as it came.
pub proof fn lemma_unmatched_leaves_state<C: SystemCheck>(
    p: SystemDirectPredicate<C>,
    s: C::State,
    input: Input<<C::Case as Direct>::Native>,
) where C::Case: Direct
    requires
        spec_interpret_as::<C::Case>(input) is None,
    ensures
        p.spec_check(s, input) is Unhandled,
        p.spec_next(s, input) == s,
{
}

} // verus!
