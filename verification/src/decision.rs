//! The outcome-classification layer: each completed outcome is sorted into a
//! three-way [`Verdict`] — return it to the caller, retry it, or abort with a
//! projected payload.

use vstd::prelude::*;
use crate::predicate::{Predicate, PredicateAnyError, PredicateOk};
use core::convert::Infallible;
use core::ops::ControlFlow;

mod sealed;

verus! {

/// A two-way decision about a completed outcome: accept it or try again.
#[derive(Debug, Clone, PartialEq, Eq)]
pub enum Decision<R, O> {
    /// Accept this outcome as success.
    Return(R),
    /// Try again; the whole outcome is handed back to the engine.
    Retry(O),
}

/// A three-way decision about a completed outcome: accept it, retry it, or abort.
///
/// `O` is the whole outcome type the operation produces; `R` is what the caller
/// receives on success; `A` is the payload projected on a fatal abort.
#[derive(Debug, Clone, PartialEq, Eq)]
pub enum Verdict<R, A, O> {
    /// Accept this outcome as success.
    Return(R),
    /// Try again; the whole outcome is handed back to the engine.
    Retry(O),
    /// Reject as fatal.
    Abort(A),
}

/// Projects an owned outcome type into a [`Verdict`].
///
/// `classified` is the verdict that `classify` delivers; an implementor
/// defines it alongside the executable method.
pub trait Outcome: Sized {
    /// The value delivered to the caller on `Return`.
    type Return;
    /// The value delivered on `Abort`.
    type Abort;

    /// The verdict this outcome classifies into.
    spec fn classified(self) -> Verdict<Self::Return, Self::Abort, Self>;

    /// Classifies this outcome into a three-way [`Verdict`].
    fn classify(self) -> (verdict: Verdict<Self::Return, Self::Abort, Self>)
        ensures
            verdict == self.classified(),
    ;
}

/// Default: `Ok(v)` returns `v`, any `Err` retries carrying the whole outcome.
impl<T, E> Outcome for Result<T, E> {
    type Return = T;
    type Abort = E;

    open spec fn classified(self) -> Verdict<T, E, Result<T, E>> {
        match self {
            Ok(value) => Verdict::Return(value),
            Err(_) => Verdict::Retry(self),
        }
    }

    fn classify(self) -> (verdict: Verdict<T, E, Result<T, E>>) {
        match self {
            Ok(value) => Verdict::Return(value),
            Err(_) => Verdict::Retry(self),
        }
    }
}

/// The canonical two-state poll: `Some(v)` returns `v`, `None` retries.
impl<T> Outcome for Option<T> {
    type Return = T;
    type Abort = Infallible;

    open spec fn classified(self) -> Verdict<T, Infallible, Option<T>> {
        match self {
            Some(value) => Verdict::Return(value),
            None => Verdict::Retry(None),
        }
    }

    fn classify(self) -> (verdict: Verdict<T, Infallible, Option<T>>) {
        match self {
            Some(value) => Verdict::Return(value),
            None => Verdict::Retry(None),
        }
    }
}

/// Loop control as an outcome: `Break(b)` returns `b`, `Continue(_)` retries.
impl<B, C> Outcome for ControlFlow<B, C> {
    type Return = B;
    type Abort = Infallible;

    open spec fn classified(self) -> Verdict<B, Infallible, ControlFlow<B, C>> {
        match self {
            ControlFlow::Break(value) => Verdict::Return(value),
            ControlFlow::Continue(_) => Verdict::Retry(self),
        }
    }

    fn classify(self) -> (verdict: Verdict<B, Infallible, ControlFlow<B, C>>) {
        match self {
            ControlFlow::Break(value) => Verdict::Return(value),
            ControlFlow::Continue(_) => Verdict::Retry(self),
        }
    }
}

/// The engine-facing classifier trait: consumes each outcome by value and
/// decides its fate.
///
/// `admits` says which outcomes `decide` may be handed; `decides` relates an
/// outcome to each verdict that `decide` may give on it.
pub trait Decide<O> {
    /// The value produced on `Return`.
    type R;
    /// The value produced on `Abort`.
    type A;

    /// Whether `decide` may be handed `outcome`.
    spec fn admits(&self, outcome: O) -> bool;

    /// Whether `verdict` is a verdict that `decide` may give on `outcome`.
    spec fn decides(&self, outcome: O, verdict: Verdict<Self::R, Self::A, O>) -> bool;

    /// Consumes an outcome and decides its fate.
    fn decide(&self, outcome: O) -> (verdict: Verdict<Self::R, Self::A, O>)
        requires
            self.admits(outcome),
        ensures
            self.decides(outcome, verdict),
    ;
}

/// A shared reference to a classifier is itself one.
impl<'c, O, C: Decide<O> + ?Sized> Decide<O> for &'c C {
    type R = C::R;
    type A = C::A;

    open spec fn admits(&self, outcome: O) -> bool {
        (**self).admits(outcome)
    }

    open spec fn decides(&self, outcome: O, verdict: Verdict<C::R, C::A, O>) -> bool {
        (**self).decides(outcome, verdict)
    }

    fn decide(&self, outcome: O) -> (verdict: Verdict<C::R, C::A, O>) {
        (**self).decide(outcome)
    }
}

/// The default classifier slot: delegates to `O: Outcome`.
#[derive(Debug, Clone, Copy, Default, PartialEq, Eq)]
pub struct DefaultClassifier;

impl<O: Outcome> Decide<O> for DefaultClassifier {
    type R = O::Return;
    type A = O::Abort;

    open spec fn admits(&self, outcome: O) -> bool {
        true
    }

    open spec fn decides(&self, outcome: O, verdict: Verdict<O::Return, O::Abort, O>) -> bool {
        verdict == outcome.classified()
    }

    fn decide(&self, outcome: O) -> (verdict: Verdict<O::Return, O::Abort, O>) {
        outcome.classify()
    }
}

/// Unifies [`Decision`] and [`Verdict`] under one conversion into the
/// canonical three-way form. Sealed: only the two enums implement it.
pub trait IntoDecision<O>: sealed::Sealed {
    /// The value produced on `Return`.
    type R;
    /// The value produced on `Abort`.
    type A;

    /// The canonical three-way form of this decision.
    spec fn as_verdict(self) -> Verdict<Self::R, Self::A, O>;

    /// Converts into the canonical three-way form.
    fn into_verdict(self) -> (verdict: Verdict<Self::R, Self::A, O>)
        ensures
            verdict == self.as_verdict(),
    ;
}

impl<R, O> sealed::Sealed for Decision<R, O> {}

impl<R, A, O> sealed::Sealed for Verdict<R, A, O> {}

/// A no-abort decision keeps its arm; the abort payload type is uninhabited.
impl<R, O> IntoDecision<O> for Decision<R, O> {
    type R = R;
    type A = Infallible;

    open spec fn as_verdict(self) -> Verdict<R, Infallible, O> {
        match self {
            Decision::Return(r) => Verdict::Return(r),
            Decision::Retry(o) => Verdict::Retry(o),
        }
    }

    fn into_verdict(self) -> (verdict: Verdict<R, Infallible, O>) {
        match self {
            Decision::Return(r) => Verdict::Return(r),
            Decision::Retry(o) => Verdict::Retry(o),
        }
    }
}

/// A verdict is already canonical.
impl<R, A, O> IntoDecision<O> for Verdict<R, A, O> {
    type R = R;
    type A = A;

    open spec fn as_verdict(self) -> Verdict<R, A, O> {
        self
    }

    fn into_verdict(self) -> (verdict: Verdict<R, A, O>) {
        self
    }
}

/// Wraps any `Fn(O) -> impl IntoDecision<O>` closure as a classifier.
#[derive(Debug, Clone, PartialEq, Eq)]
pub struct ClosureClassifier<C>(pub C);

impl<O, D, C> Decide<O> for ClosureClassifier<C> where C: Fn(O) -> D, D: IntoDecision<O> {
    type R = D::R;
    type A = D::A;

    open spec fn admits(&self, outcome: O) -> bool {
        call_requires(self.0, (outcome,))
    }

    open spec fn decides(&self, outcome: O, verdict: Verdict<D::R, D::A, O>) -> bool {
        exists|decision: D|
            #[trigger] call_ensures(self.0, (outcome,), decision) && verdict
                == decision.as_verdict()
    }

    fn decide(&self, outcome: O) -> (verdict: Verdict<D::R, D::A, O>) {
        (self.0)(outcome).into_verdict()
    }
}

/// How an accepted `Result` outcome is delivered: an `Ok` returns its value,
/// an `Err` aborts with the bare error.
pub open spec fn accepted<T, E>(outcome: Result<T, E>) -> Verdict<T, E, Result<T, E>> {
    match outcome {
        Ok(value) => Verdict::Return(value),
        Err(error) => Verdict::Abort(error),
    }
}

/// The verdict of `.when(p)` once `p` has answered `retry`: retry on `true`,
/// otherwise accept.
pub open spec fn when_verdict<T, E>(retry: bool, outcome: Result<T, E>) -> Verdict<
    T,
    E,
    Result<T, E>,
> {
    if retry {
        Verdict::Retry(outcome)
    } else {
        accepted(outcome)
    }
}

/// The verdict of `.until(p)` once `p` has answered `satisfied`: accept on
/// `true`, otherwise retry.
pub open spec fn until_verdict<T, E>(satisfied: bool, outcome: Result<T, E>) -> Verdict<
    T,
    E,
    Result<T, E>,
> {
    if satisfied {
        accepted(outcome)
    } else {
        Verdict::Retry(outcome)
    }
}

/// Classifier from `.when(p)`: retry while the predicate wants to; otherwise
/// accept, returning an `Ok` and aborting on an `Err` with the bare error.
#[derive(Debug, Clone, PartialEq, Eq)]
pub struct When<P>(pub(crate) P);

impl<P> When<P> {
    /// The predicate this classifier consults.
    pub closed spec fn predicate(self) -> P {
        self.0
    }

    /// Wraps `predicate` as a `.when` classifier.
    pub fn new(predicate: P) -> (classifier: Self)
        ensures
            classifier.predicate() == predicate,
    {
        When(predicate)
    }
}

impl<T, E, P> Decide<Result<T, E>> for When<P> where P: Predicate<T, E> {
    type R = T;
    type A = E;

    open spec fn admits(&self, outcome: Result<T, E>) -> bool {
        self.predicate().admits(outcome)
    }

    open spec fn decides(&self, outcome: Result<T, E>, verdict: Verdict<T, E, Result<T, E>>) -> bool {
        exists|retry: bool|
            #[trigger] self.predicate().answers(outcome, retry) && verdict == when_verdict(
                retry,
                outcome,
            )
    }

    fn decide(&self, outcome: Result<T, E>) -> (verdict: Verdict<T, E, Result<T, E>>) {
        let retry = self.0.should_retry(&outcome);
        if retry {
            Verdict::Retry(outcome)
        } else {
            match outcome {
                Ok(value) => Verdict::Return(value),
                Err(error) => Verdict::Abort(error),
            }
        }
    }
}

/// Classifier from `.until(p)`: the inverse of [`When`] — retry until the
/// predicate is satisfied, then accept.
#[derive(Debug, Clone, PartialEq, Eq)]
pub struct Until<P>(pub(crate) P);

impl<P> Until<P> {
    /// The predicate this classifier consults.
    pub closed spec fn predicate(self) -> P {
        self.0
    }

    /// Wraps `predicate` as an `.until` classifier.
    pub fn new(predicate: P) -> (classifier: Self)
        ensures
            classifier.predicate() == predicate,
    {
        Until(predicate)
    }
}

impl<T, E, P> Decide<Result<T, E>> for Until<P> where P: Predicate<T, E> {
    type R = T;
    type A = E;

    open spec fn admits(&self, outcome: Result<T, E>) -> bool {
        self.predicate().admits(outcome)
    }

    open spec fn decides(&self, outcome: Result<T, E>, verdict: Verdict<T, E, Result<T, E>>) -> bool {
        exists|satisfied: bool|
            #[trigger] self.predicate().answers(outcome, satisfied) && verdict == until_verdict(
                satisfied,
                outcome,
            )
    }

    fn decide(&self, outcome: Result<T, E>) -> (verdict: Verdict<T, E, Result<T, E>>) {
        let satisfied = self.0.should_retry(&outcome);
        if satisfied {
            match outcome {
                Ok(value) => Verdict::Return(value),
                Err(error) => Verdict::Abort(error),
            }
        } else {
            Verdict::Retry(outcome)
        }
    }
}

/// `.when(p)` may be handed what `p` may be asked about, and its verdict is
/// the one [`when_verdict`] gives for an answer `p` may give.
pub proof fn lemma_when_decides<T, E, P: Predicate<T, E>>(
    when_classifier: When<P>,
    outcome: Result<T, E>,
    verdict: Verdict<T, E, Result<T, E>>,
)
    ensures
        when_classifier.admits(outcome) == when_classifier.predicate().admits(outcome),
        when_classifier.decides(outcome, verdict) == exists|retry: bool|
            #[trigger] when_classifier.predicate().answers(outcome, retry) && verdict
                == when_verdict(retry, outcome),
{
}

/// `.until(p)` may be handed what `p` may be asked about, and its verdict is
/// the one [`until_verdict`] gives for an answer `p` may give.
pub proof fn lemma_until_decides<T, E, P: Predicate<T, E>>(
    until_classifier: Until<P>,
    outcome: Result<T, E>,
    verdict: Verdict<T, E, Result<T, E>>,
)
    ensures
        until_classifier.admits(outcome) == until_classifier.predicate().admits(outcome),
        until_classifier.decides(outcome, verdict) == exists|satisfied: bool|
            #[trigger] until_classifier.predicate().answers(outcome, satisfied) && verdict
                == until_verdict(satisfied, outcome),
{
}

/// A `Result` outcome classifies by its variant alone: every `Ok(v)`
/// returns `v`, and every `Err` retries carrying the whole outcome.
pub proof fn lemma_result_classification<T, E>(value: T, error: E)
    ensures
        Ok::<T, E>(value).classified() == Verdict::<T, E, Result<T, E>>::Return(value),
        Err::<T, E>(error).classified() == Verdict::<T, E, Result<T, E>>::Retry(Err(error)),
        <DefaultClassifier as Decide<Result<T, E>>>::decides(
            &DefaultClassifier,
            Ok(value),
            Verdict::Return(value),
        ),
{
}

/// The `Option` poll classifies by its variant alone: every `Some(v)` returns
/// `v`, and `None` retries.
pub proof fn lemma_option_classification<T>(value: T)
    ensures
        Some(value).classified() == Verdict::<T, Infallible, Option<T>>::Return(value),
        None::<T>.classified() == Verdict::<T, Infallible, Option<T>>::Retry(None),
        <DefaultClassifier as Decide<Option<T>>>::decides(
            &DefaultClassifier,
            Some(value),
            Verdict::Return(value),
        ),
{
}

/// Loop control classifies by its variant alone: every `Break(b)` returns
/// `b`, and every `Continue` retries carrying the whole outcome.
pub proof fn lemma_control_flow_classification<B, C>(value: B, carry: C)
    ensures
        ControlFlow::<B, C>::Break(value).classified() == Verdict::<
            B,
            Infallible,
            ControlFlow<B, C>,
        >::Return(value),
        ControlFlow::<B, C>::Continue(carry).classified() == Verdict::<
            B,
            Infallible,
            ControlFlow<B, C>,
        >::Retry(ControlFlow::Continue(carry)),
{
}

/// Once the predicate has answered, `.when` and `.until` deliver by the
/// outcome's variant alone: a retry carries the whole outcome, an accepted
/// `Ok(v)` returns `v`, and an accepted `Err(e)` aborts with `e`. `.when`
/// retries exactly on a `true` answer, `.until` exactly on a `false` one.
pub proof fn lemma_when_until_verdicts<T, E>(outcome: Result<T, E>, value: T, error: E)
    ensures
        when_verdict(true, outcome) == Verdict::<T, E, Result<T, E>>::Retry(outcome),
        when_verdict(false, Ok::<T, E>(value)) == Verdict::<T, E, Result<T, E>>::Return(value),
        when_verdict(false, Err::<T, E>(error)) == Verdict::<T, E, Result<T, E>>::Abort(error),
        until_verdict(false, outcome) == Verdict::<T, E, Result<T, E>>::Retry(outcome),
        until_verdict(true, Ok::<T, E>(value)) == Verdict::<T, E, Result<T, E>>::Return(value),
        until_verdict(true, Err::<T, E>(error)) == Verdict::<T, E, Result<T, E>>::Abort(error),
{
}

/// When the predicate answers `outcome` in only one way, `.when` decides it
/// in only one way: it retries the outcome if the predicate fires, and
/// otherwise returns the value of an `Ok` or aborts with the error of an `Err`.
pub proof fn lemma_when_single_answer<T, E, P: Predicate<T, E>>(
    when_classifier: When<P>,
    outcome: Result<T, E>,
    answer: bool,
    verdict: Verdict<T, E, Result<T, E>>,
)
    requires
        when_classifier.predicate().answers(outcome, answer),
        !when_classifier.predicate().answers(outcome, !answer),
    ensures
        when_classifier.decides(outcome, verdict) <==> verdict == if answer {
            Verdict::Retry(outcome)
        } else {
            match outcome {
                Ok(value) => Verdict::Return(value),
                Err(error) => Verdict::Abort(error),
            }
        },
{
    if when_classifier.decides(outcome, verdict) {
        let retry = choose|retry: bool|
            #[trigger] when_classifier.predicate().answers(outcome, retry) && verdict
                == when_verdict(retry, outcome);
        assert(retry == answer);
    }
}

/// When the predicate answers `outcome` in only one way, `.until` decides it
/// in only one way: it retries the outcome if the predicate stays silent, and
/// otherwise returns the value of an `Ok` or aborts with the error of an `Err`.
pub proof fn lemma_until_single_answer<T, E, P: Predicate<T, E>>(
    until_classifier: Until<P>,
    outcome: Result<T, E>,
    answer: bool,
    verdict: Verdict<T, E, Result<T, E>>,
)
    requires
        until_classifier.predicate().answers(outcome, answer),
        !until_classifier.predicate().answers(outcome, !answer),
    ensures
        until_classifier.decides(outcome, verdict) <==> verdict == if answer {
            match outcome {
                Ok(value) => Verdict::Return(value),
                Err(error) => Verdict::Abort(error),
            }
        } else {
            Verdict::Retry(outcome)
        },
{
    if until_classifier.decides(outcome, verdict) {
        let satisfied = choose|satisfied: bool|
            #[trigger] until_classifier.predicate().answers(outcome, satisfied) && verdict
                == until_verdict(satisfied, outcome);
        assert(satisfied == answer);
    }
}

/// The default path never aborts a `Result` outcome: an `Ok` returns and any
/// `Err` retries.
pub proof fn lemma_default_never_aborts<T, E>(outcome: Result<T, E>)
    ensures
        !(outcome.classified() is Abort),
        outcome is Err ==> outcome.classified() == Verdict::<T, E, Result<T, E>>::Retry(outcome),
{
}

/// The canonical two-state poll never aborts: `Some` returns and `None`
/// retries.
pub proof fn lemma_option_poll_never_aborts<T>(outcome: Option<T>)
    ensures
        !(outcome.classified() is Abort),
        outcome is None ==> outcome.classified() == Verdict::<T, Infallible, Option<T>>::Retry(None),
{
}

/// Loop control never aborts: `Break` returns and `Continue` retries.
pub proof fn lemma_control_flow_never_aborts<B, C>(outcome: ControlFlow<B, C>)
    ensures
        !(outcome.classified() is Abort),
        outcome is Continue ==> outcome.classified() == Verdict::<B, Infallible, ControlFlow<B, C>>::Retry(outcome),
{
}

/// A closure that answers with a two-way [`Decision`] never makes its
/// classifier abort, and the classifier keeps the decision's arm.
pub proof fn lemma_decision_closure_never_aborts<O, R, C>(
    classifier: ClosureClassifier<C>,
    outcome: O,
    verdict: Verdict<R, Infallible, O>,
) where C: Fn(O) -> Decision<R, O>
    requires
        classifier.decides(outcome, verdict),
    ensures
        !(verdict is Abort),
        exists|decision: Decision<R, O>|
            #[trigger] call_ensures(classifier.0, (outcome,), decision) && match decision {
                Decision::Return(r) => verdict == Verdict::<R, Infallible, O>::Return(r),
                Decision::Retry(o) => verdict == Verdict::<R, Infallible, O>::Retry(o),
            },
{
}

/// `.until(p)` is the inverse of `.when(p)`: on the same answer of the same
/// predicate, exactly one of the two retries, and whichever accepts delivers
/// the outcome the same way (`Ok` returns, `Err` aborts).
pub proof fn lemma_until_inverts_when<T, E, P: Predicate<T, E>>(
    when_classifier: When<P>,
    until_classifier: Until<P>,
    outcome: Result<T, E>,
    answer: bool,
)
    requires
        when_classifier.predicate() == until_classifier.predicate(),
        when_classifier.predicate().answers(outcome, answer),
    ensures
        when_classifier.decides(outcome, when_verdict(answer, outcome)),
        until_classifier.decides(outcome, until_verdict(answer, outcome)),
        until_verdict(answer, outcome) == when_verdict(!answer, outcome),
        (when_verdict(answer, outcome) is Retry) != (until_verdict(answer, outcome) is Retry),
{
}

/// A shared reference classifies every outcome exactly as the classifier it
/// points to: it may be handed the same outcomes and gives the same verdicts.
pub proof fn lemma_borrowed_classifier_decides_as_target<O, C: Decide<O> + ?Sized>(
    classifier: &C,
    outcome: O,
    verdict: Verdict<C::R, C::A, O>,
)
    ensures
        Decide::<O>::admits(&classifier, outcome) == classifier.admits(outcome),
        Decide::<O>::decides(&classifier, outcome, verdict) == classifier.decides(
            outcome,
            verdict,
        ),
{
}

/// A closure classifier may be handed what its closure may be called on, and
/// its verdict is the canonical form of a decision the closure may return on
/// that very outcome, whether the closure returns a `Decision` or a `Verdict`.
pub proof fn lemma_closure_classifier_decides<O, D: IntoDecision<O>, C: Fn(O) -> D>(
    classifier: ClosureClassifier<C>,
    outcome: O,
    verdict: Verdict<D::R, D::A, O>,
)
    ensures
        classifier.admits(outcome) == call_requires(classifier.0, (outcome,)),
        classifier.decides(outcome, verdict) == exists|decision: D|
            #[trigger] call_ensures(classifier.0, (outcome,), decision) && verdict
                == decision.as_verdict(),
{
}

/// `.until(p)` is `.when(q)` for a predicate `q` that answers the negation of
/// what `p` answers: both may be handed the same outcomes, and they give the
/// same verdicts.
pub proof fn lemma_until_is_when_of_negation<T, E, P: Predicate<T, E>, Q: Predicate<T, E>>(
    until_classifier: Until<P>,
    when_classifier: When<Q>,
    outcome: Result<T, E>,
    verdict: Verdict<T, E, Result<T, E>>,
)
    requires
        when_classifier.predicate().admits(outcome) == until_classifier.predicate().admits(
            outcome,
        ),
        forall|answer: bool|
            #[trigger] when_classifier.predicate().answers(outcome, answer)
                == until_classifier.predicate().answers(outcome, !answer),
    ensures
        until_classifier.admits(outcome) == when_classifier.admits(outcome),
        until_classifier.decides(outcome, verdict) == when_classifier.decides(outcome, verdict),
{
    if until_classifier.decides(outcome, verdict) {
        let satisfied = choose|satisfied: bool|
            #[trigger] until_classifier.predicate().answers(outcome, satisfied) && verdict
                == until_verdict(satisfied, outcome);
        assert(when_classifier.predicate().answers(outcome, !satisfied));
        assert(verdict == when_verdict(!satisfied, outcome));
    }
    if when_classifier.decides(outcome, verdict) {
        let retry = choose|retry: bool|
            #[trigger] when_classifier.predicate().answers(outcome, retry) && verdict
                == when_verdict(retry, outcome);
        assert(until_classifier.predicate().answers(outcome, !retry));
        assert(verdict == until_verdict(!retry, outcome));
    }
}

/// `.when(any_error())` classifies every `Result` exactly as the default
/// classifier does.
pub proof fn lemma_when_any_error_is_default<T, E>(
    when_classifier: When<PredicateAnyError>,
    outcome: Result<T, E>,
    verdict: Verdict<T, E, Result<T, E>>,
)
    ensures
        when_classifier.admits(outcome),
        when_classifier.decides(outcome, verdict) <==> <DefaultClassifier as Decide<Result<T, E>>>::decides(
            &DefaultClassifier,
            outcome,
            verdict,
        ),
{
    if when_classifier.decides(outcome, verdict) {
        let retry = choose|retry: bool|
            #[trigger] when_classifier.predicate().answers(outcome, retry) && verdict == when_verdict(
                retry,
                outcome,
            );
        assert(retry == outcome is Err);
    }
    if verdict == outcome.classified() {
        assert(when_classifier.predicate().answers(outcome, outcome is Err));
    }
}

/// With `.until(ok(f))` every `Err` is retried: `ok` never fires on an error,
/// which `until` turns into a retry.
pub proof fn lemma_until_ok_retries_errors<T, E, F: Fn(&T) -> bool>(
    until_classifier: Until<PredicateOk<F>>,
    error: E,
    verdict: Verdict<T, E, Result<T, E>>,
)
    requires
        until_classifier.decides(Err(error), verdict),
    ensures
        until_classifier.admits(Err(error)),
        verdict == Verdict::<T, E, Result<T, E>>::Retry(Err(error)),
{
}

/// With `.when(ok(f))` every `Err` aborts with the bare error: `ok` never
/// fires on an error, so `when` accepts it.
pub proof fn lemma_when_ok_aborts_errors<T, E, F: Fn(&T) -> bool>(
    when_classifier: When<PredicateOk<F>>,
    error: E,
    verdict: Verdict<T, E, Result<T, E>>,
)
    requires
        when_classifier.decides(Err(error), verdict),
    ensures
        when_classifier.admits(Err(error)),
        verdict == Verdict::<T, E, Result<T, E>>::Abort(error),
{
}

} // verus!
