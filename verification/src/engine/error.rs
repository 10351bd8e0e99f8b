//! The error a retry loop reports when it ends without a `Return`.

use vstd::prelude::*;
use super::state::StopReason;
use core::convert::Infallible;
use core::ops::ControlFlow;
use vstd::string::*;

verus! {

/// Error returned when the retry loop terminates without a `Return`.
///
/// - `Aborted`: the classifier answered with an abort; `last` is its abort
///   payload.
/// - `Exhausted`: the stop strategy fired while the classifier still wanted to
///   retry; `last` is the final whole outcome.
#[derive(Debug, Clone, PartialEq, Eq)]
#[non_exhaustive]
#[allow(inconsistent_fields)]
pub enum RetryError<A, O> {
    /// The classifier rejected an outcome as fatal.
    Aborted {
        /// The abort payload chosen by the classifier.
        last: A,
    },
    /// The stop strategy fired while the classifier still wanted to retry.
    Exhausted {
        /// The final whole outcome seen before giving up.
        last: O,
    },
}

/// Convenience alias for the common `Result` outcome shape.
pub type RetryResult<T, E> = Result<T, RetryError<E, Result<T, E>>>;

impl<A, O> RetryError<A, O> {
    /// The reason the loop stopped, read off the variant.
    pub open spec fn reason(self) -> StopReason {
        match self {
            RetryError::Aborted { .. } => StopReason::Aborted,
            RetryError::Exhausted { .. } => StopReason::Exhausted,
        }
    }

    /// The final whole outcome, retained only when the loop was exhausted.
    pub open spec fn retained_outcome(self) -> Option<O> {
        match self {
            RetryError::Exhausted { last } => Some(last),
            RetryError::Aborted { .. } => None,
        }
    }

    /// Returns the [`StopReason`] that terminated the loop.
    #[must_use]
    pub fn stop_reason(&self) -> (reason: StopReason)
        ensures
            reason == self.reason(),
    {
        match self {
            RetryError::Aborted { .. } => StopReason::Aborted,
            RetryError::Exhausted { .. } => StopReason::Exhausted,
        }
    }

    /// Returns the final attempt outcome, if one is retained: `Some` for
    /// `Exhausted`, `None` for `Aborted`.
    #[must_use]
    pub fn last(&self) -> (last: Option<&O>)
        ensures
            last == match self.retained_outcome() {
                Some(outcome) => Some(&outcome),
                None => None::<&O>,
            },
    {
        match self {
            RetryError::Exhausted { last } => Some(last),
            RetryError::Aborted { .. } => None,
        }
    }

    /// Consumes the error and returns the final attempt outcome, if retained.
    #[must_use]
    pub fn into_last(self) -> (last: Option<O>)
        ensures
            last == self.retained_outcome(),
    {
        match self {
            RetryError::Exhausted { last } => Some(last),
            RetryError::Aborted { .. } => None,
        }
    }
}

impl<T, E> RetryError<E, Result<T, E>> {
    /// The last error value: the abort payload, or the error of an exhausted
    /// `Err` outcome; none when the loop was exhausted on an `Ok`.
    pub open spec fn final_error(self) -> Option<E> {
        match self {
            RetryError::Aborted { last } => Some(last),
            RetryError::Exhausted { last } => match last {
                Ok(_) => None,
                Err(error) => Some(error),
            },
        }
    }

    /// Returns the last error value when the terminal outcome carried `Err(E)`:
    /// `Some` for `Aborted`, and for `Exhausted` when the last outcome was
    /// `Err`; `None` otherwise.
    #[must_use]
    pub fn last_error(&self) -> (error: Option<&E>)
        ensures
            error == match self.final_error() {
                Some(e) => Some(&e),
                None => None::<&E>,
            },
    {
        match self {
            RetryError::Aborted { last } => Some(last),
            RetryError::Exhausted { last } => match last {
                Ok(_) => None,
                Err(error) => Some(error),
            },
        }
    }

    /// Consumes the error and returns the last error value, if present.
    #[must_use]
    pub fn into_last_error(self) -> (error: Option<E>)
        ensures
            error == self.final_error(),
    {
        match self {
            RetryError::Aborted { last } => Some(last),
            RetryError::Exhausted { last } => match last {
                Ok(_) => None,
                Err(error) => Some(error),
            },
        }
    }
    /// The message that describes this error, given the rendered text of its
    /// error value: `aborted: {error}`, `retries exhausted: {error}`, or
    /// `retries exhausted` when the loop was exhausted on an `Ok`.
    pub open spec fn message_with(self, shown: Seq<char>) -> Seq<char> {
        match self {
            RetryError::Aborted { .. } => "aborted: "@ + shown,
            RetryError::Exhausted { last } => match last {
                Err(_) => "retries exhausted: "@ + shown,
                Ok(_) => "retries exhausted"@,
            },
        }
    }

    /// Builds the message for this error from `shown`, the rendered text of
    /// its error value.
    pub fn message_from(&self, shown: &str) -> (text: String)
        ensures
            text@ == self.message_with(shown@),
    {
        match self {
            RetryError::Aborted { .. } => String::from_str("aborted: ").concat(shown),
            RetryError::Exhausted { last } => match last {
                Err(_) => String::from_str("retries exhausted: ").concat(shown),
                Ok(_) => String::from_str("retries exhausted"),
            },
        }
    }

    /// The message that describes this error, with the error value rendered by
    /// its `Display` impl: `aborted: {error}`, `retries exhausted: {error}`, or
    /// `retries exhausted` when the loop was exhausted on an `Ok`.
    pub fn to_string(&self) -> (text: String) where E: core::fmt::Display
        ensures
            self.final_error() matches Some(error) ==> exists|shown: String|
                #[trigger] to_string_from_display_ensures::<E>(&error, shown) && text@
                    == self.message_with(shown@),
            self.final_error() is None ==> text@ == "retries exhausted"@,
    {
        match self.last_error() {
            Some(error) => {
                let shown = error.to_string();
                self.message_from(shown.as_str())
            },
            None => self.message_from(""),
        }
    }

    /// The underlying cause of this error: the same value as
    /// [`last_error`](Self::last_error).
    pub fn source(&self) -> (source: Option<&E>)
        ensures
            source == match self.final_error() {
                Some(e) => Some(&e),
                None => None::<&E>,
            },
    {
        self.last_error()
    }
}

/// The canonical two-state poll's error: its abort payload type is
/// uninhabited, so the only reachable error is an exhausted `None`.
impl<T> RetryError<Infallible, Option<T>> {
    /// The message that describes this error: `retries exhausted`. An
    /// `Option` outcome carries no error payload to report.
    pub fn to_string(&self) -> (text: String)
        ensures
            text@ == "retries exhausted"@,
    {
        String::from_str("retries exhausted")
    }

    /// The underlying cause of this error: there is none, since an exhausted
    /// `None` carries no error.
    pub fn source(&self) -> (source: Option<&Infallible>)
        ensures
            source is None,
    {
        None
    }

}

/// Loop control's error: its abort payload type is uninhabited, so the only
/// reachable error is an exhausted `Continue`.
impl<B, C> RetryError<Infallible, ControlFlow<B, C>> {
    /// The message that describes this error: `retries exhausted`. A
    /// `Continue` outcome carries no error payload to report.
    pub fn to_string(&self) -> (text: String)
        ensures
            text@ == "retries exhausted"@,
    {
        String::from_str("retries exhausted")
    }

    /// The underlying cause of this error: there is none, since an exhausted
    /// `Continue` carries no error.
    pub fn source(&self) -> (source: Option<&Infallible>)
        ensures
            source is None,
    {
        None
    }
}

/// The final outcome is retained exactly when the loop stopped by exhaustion.
pub proof fn lemma_last_retained_iff_exhausted<A, O>(error: RetryError<A, O>)
    ensures
        error.retained_outcome() is Some <==> error.reason() == StopReason::Exhausted,
        error.retained_outcome() is None <==> error.reason() == StopReason::Aborted,
{
}

/// On the `Result` shape, an error value is always at hand except when the
/// loop was exhausted on an `Ok`; an abort hands back exactly its payload.
pub proof fn lemma_last_error_absent_iff_exhausted_on_ok<T, E>(error: RetryError<E, Result<T, E>>)
    ensures
        error.final_error() is None <==> error.retained_outcome() matches Some(Ok(_)),
        error matches RetryError::Aborted { last } ==> error.final_error() == Some(last),
        error.retained_outcome() matches Some(Err(e)) ==> error.final_error() == Some(e),
{
}

} // verus!
