//! The [`Predicate`] trait and the built-in retry predicate factories:
//! [`any_error`] retries on any `Err`, [`error`] on selected errors, [`result`]
//! on the full `Result<T, E>`, and [`ok`] on selected `Ok` values.

use vstd::prelude::*;

verus! {

/// Examines the outcome of an operation and decides whether to retry.
///
/// `admits` says which outcomes `should_retry` may be asked about; `answers`
/// relates an outcome to each answer `should_retry` may give on it.
pub trait Predicate<T, E> {
    /// Whether `should_retry` may be asked about `outcome`.
    spec fn admits(&self, outcome: Result<T, E>) -> bool;

    /// Whether `answer` is an answer that `should_retry` may give on `outcome`.
    spec fn answers(&self, outcome: Result<T, E>, answer: bool) -> bool;

    /// Returns `true` if the retry loop should retry based on this outcome.
    fn should_retry(&self, outcome: &Result<T, E>) -> (answer: bool)
        requires
            self.admits(*outcome),
        ensures
            self.answers(*outcome, answer),
    ;
}

/// Any `Fn(&Result<T, E>) -> bool` is a [`Predicate`]: it answers what the
/// closure returns.
impl<T, E, F> Predicate<T, E> for F where F: Fn(&Result<T, E>) -> bool {
    open spec fn admits(&self, outcome: Result<T, E>) -> bool {
        call_requires(*self, (&outcome,))
    }

    open spec fn answers(&self, outcome: Result<T, E>, answer: bool) -> bool {
        call_ensures(*self, (&outcome,), answer)
    }

    fn should_retry(&self, outcome: &Result<T, E>) -> (answer: bool) {
        (self)(outcome)
    }
}

/// A boxed predicate answers as the predicate it holds.
impl<'p, T, E> Predicate<T, E> for Box<dyn Predicate<T, E> + 'p> {
    open spec fn admits(&self, outcome: Result<T, E>) -> bool {
        (**self).admits(outcome)
    }

    open spec fn answers(&self, outcome: Result<T, E>, answer: bool) -> bool {
        (**self).answers(outcome, answer)
    }

    fn should_retry(&self, outcome: &Result<T, E>) -> (answer: bool) {
        (**self).should_retry(outcome)
    }
}

/// Predicate that retries on any error. Created by [`any_error`].
#[derive(Debug, Clone)]
pub struct PredicateAnyError;

/// Creates a predicate that retries on any `Err` value.
#[must_use]
pub fn any_error() -> (predicate: PredicateAnyError)
    ensures
        predicate == PredicateAnyError,
{
    PredicateAnyError
}

impl<T, E> Predicate<T, E> for PredicateAnyError {
    open spec fn admits(&self, outcome: Result<T, E>) -> bool {
        true
    }

    open spec fn answers(&self, outcome: Result<T, E>, answer: bool) -> bool {
        answer == outcome is Err
    }

    fn should_retry(&self, outcome: &Result<T, E>) -> (answer: bool) {
        outcome.is_err()
    }
}

/// Predicate that retries when an `Err(e)` matches its matcher. Created by
/// [`error`].
#[derive(Debug, Clone)]
pub struct PredicateError<F> {
    matcher: F,
}

impl<F> PredicateError<F> {
    /// The matcher consulted on an `Err`.
    pub closed spec fn matcher(self) -> F {
        self.matcher
    }
}

/// Produces a predicate that retries when the outcome is `Err(e)` and
/// `matcher(e)` returns `true`.
#[must_use]
pub fn error<F>(matcher: F) -> (predicate: PredicateError<F>)
    ensures
        predicate.matcher() == matcher,
{
    PredicateError { matcher }
}

impl<T, E, F> Predicate<T, E> for PredicateError<F> where F: Fn(&E) -> bool {
    open spec fn admits(&self, outcome: Result<T, E>) -> bool {
        match outcome {
            Ok(_) => true,
            Err(error) => call_requires(self.matcher(), (&error,)),
        }
    }

    open spec fn answers(&self, outcome: Result<T, E>, answer: bool) -> bool {
        match outcome {
            Ok(_) => !answer,
            Err(error) => call_ensures(self.matcher(), (&error,), answer),
        }
    }

    fn should_retry(&self, outcome: &Result<T, E>) -> (answer: bool) {
        match outcome {
            Ok(_) => false,
            Err(error) => (self.matcher)(error),
        }
    }
}

/// Predicate that retries based on the full `Result<T, E>`. Created by
/// [`result`].
#[derive(Debug, Clone)]
pub struct PredicateResult<F> {
    matcher: F,
}

impl<F> PredicateResult<F> {
    /// The matcher consulted on every outcome.
    pub closed spec fn matcher(self) -> F {
        self.matcher
    }
}

/// Creates a predicate that retries when `matcher` returns `true` for the
/// outcome.
#[must_use]
pub fn result<F>(matcher: F) -> (predicate: PredicateResult<F>)
    ensures
        predicate.matcher() == matcher,
{
    PredicateResult { matcher }
}

impl<T, E, F> Predicate<T, E> for PredicateResult<F> where F: Fn(&Result<T, E>) -> bool {
    open spec fn admits(&self, outcome: Result<T, E>) -> bool {
        call_requires(self.matcher(), (&outcome,))
    }

    open spec fn answers(&self, outcome: Result<T, E>, answer: bool) -> bool {
        call_ensures(self.matcher(), (&outcome,), answer)
    }

    fn should_retry(&self, outcome: &Result<T, E>) -> (answer: bool) {
        (self.matcher)(outcome)
    }
}

/// Predicate that retries when an `Ok(value)` matches its matcher; it never
/// fires on `Err`. Created by [`ok`].
#[derive(Debug, Clone)]
pub struct PredicateOk<F> {
    matcher: F,
}

impl<F> PredicateOk<F> {
    /// The matcher consulted on an `Ok`.
    pub closed spec fn matcher(self) -> F {
        self.matcher
    }
}

/// Produces a predicate that retries when the outcome is `Ok(value)` and
/// `matcher(value)` returns `true`. It never fires on `Err`.
#[must_use]
pub fn ok<F>(matcher: F) -> (predicate: PredicateOk<F>)
    ensures
        predicate.matcher() == matcher,
{
    PredicateOk { matcher }
}

impl<T, E, F> Predicate<T, E> for PredicateOk<F> where F: Fn(&T) -> bool {
    open spec fn admits(&self, outcome: Result<T, E>) -> bool {
        match outcome {
            Ok(value) => call_requires(self.matcher(), (&value,)),
            Err(_) => true,
        }
    }

    open spec fn answers(&self, outcome: Result<T, E>, answer: bool) -> bool {
        match outcome {
            Ok(value) => call_ensures(self.matcher(), (&value,), answer),
            Err(_) => !answer,
        }
    }

    fn should_retry(&self, outcome: &Result<T, E>) -> (answer: bool) {
        match outcome {
            Ok(value) => (self.matcher)(value),
            Err(_) => false,
        }
    }
}

/// A closure predicate may be asked what its closure may be called on, and
/// answers what the closure may return.
pub proof fn lemma_closure_answers<T, E, F: Fn(&Result<T, E>) -> bool>(
    predicate: F,
    outcome: Result<T, E>,
    answer: bool,
)
    ensures
        Predicate::<T, E>::admits(&predicate, outcome) == call_requires(predicate, (&outcome,)),
        Predicate::<T, E>::answers(&predicate, outcome, answer) == call_ensures(
            predicate,
            (&outcome,),
            answer,
        ),
{
}

/// A boxed predicate may be asked about the same outcomes, and may give the
/// same answers, as the predicate it holds.
pub proof fn lemma_boxed_answers_as_inner<'p, T, E>(
    boxed: Box<dyn Predicate<T, E> + 'p>,
    outcome: Result<T, E>,
    answer: bool,
)
    ensures
        <Box<dyn Predicate<T, E> + 'p> as Predicate<T, E>>::admits(&boxed, outcome) == (*boxed).admits(
            outcome,
        ),
        <Box<dyn Predicate<T, E> + 'p> as Predicate<T, E>>::answers(&boxed, outcome, answer)
            == (*boxed).answers(outcome, answer),
{
}

/// `any_error()` fires exactly on an `Err`.
pub proof fn lemma_any_error_answers<T, E>(
    predicate: PredicateAnyError,
    outcome: Result<T, E>,
    answer: bool,
)
    ensures
        Predicate::<T, E>::admits(&predicate, outcome),
        Predicate::<T, E>::answers(&predicate, outcome, answer) == (answer == outcome is Err),
{
}

/// `error(f)` never fires on an `Ok`; on `Err(e)` it answers what `f(&e)`
/// may return.
pub proof fn lemma_error_answers<T, E, F: Fn(&E) -> bool>(
    predicate: PredicateError<F>,
    outcome: Result<T, E>,
    answer: bool,
)
    ensures
        Predicate::<T, E>::admits(&predicate, outcome) == match outcome {
            Ok(_) => true,
            Err(error) => call_requires(predicate.matcher(), (&error,)),
        },
        Predicate::<T, E>::answers(&predicate, outcome, answer) == match outcome {
            Ok(_) => !answer,
            Err(error) => call_ensures(predicate.matcher(), (&error,), answer),
        },
{
}

/// `result(f)` answers what `f(&outcome)` may return.
pub proof fn lemma_result_answers<T, E, F: Fn(&Result<T, E>) -> bool>(
    predicate: PredicateResult<F>,
    outcome: Result<T, E>,
    answer: bool,
)
    ensures
        Predicate::<T, E>::admits(&predicate, outcome) == call_requires(
            predicate.matcher(),
            (&outcome,),
        ),
        Predicate::<T, E>::answers(&predicate, outcome, answer) == call_ensures(
            predicate.matcher(),
            (&outcome,),
            answer,
        ),
{
}

/// `ok(f)` never fires on an `Err`; on `Ok(v)` it answers what `f(&v)` may
/// return.
pub proof fn lemma_ok_answers<T, E, F: Fn(&T) -> bool>(
    predicate: PredicateOk<F>,
    outcome: Result<T, E>,
    answer: bool,
)
    ensures
        Predicate::<T, E>::admits(&predicate, outcome) == match outcome {
            Ok(value) => call_requires(predicate.matcher(), (&value,)),
            Err(_) => true,
        },
        Predicate::<T, E>::answers(&predicate, outcome, answer) == match outcome {
            Ok(value) => call_ensures(predicate.matcher(), (&value,), answer),
            Err(_) => !answer,
        },
{
}

} // verus!
