use vstd::prelude::*;
use vstd::string::*;

verus! {

/// Why a retry loop terminated; the three reasons mirror the three terminal
/// verdicts.
#[derive(Debug, Clone, Copy, PartialEq, Eq, Hash)]
#[non_exhaustive]
pub enum StopReason {
    /// The classifier returned an outcome: the loop succeeded.
    Returned,
    /// The classifier aborted: the loop ended in `RetryError::Aborted`.
    Aborted,
    /// The stop strategy fired while the classifier still wanted to retry: the
    /// loop ended in `RetryError::Exhausted`.
    Exhausted,
}

impl StopReason {
    /// The label of this reason: `returned`, `aborted` or `retries exhausted`.
    pub fn to_string(&self) -> (text: String)
        ensures
            text@ == match self {
                StopReason::Returned => "returned"@,
                StopReason::Aborted => "aborted"@,
                StopReason::Exhausted => "retries exhausted"@,
            },
    {
        match self {
            StopReason::Returned => String::from_str("returned"),
            StopReason::Aborted => String::from_str("aborted"),
            StopReason::Exhausted => String::from_str("retries exhausted"),
        }
    }
}

} // verus!
