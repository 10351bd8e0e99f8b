use core::ops::ControlFlow;
use core::convert::Infallible;
use relentless::{RetryError, RetryResult, StopReason};

type ResultShaped = RetryError<&'static str, Result<i32, &'static str>>;

#[test]
fn stop_reason_matches_the_variant() {
    let aborted: ResultShaped = RetryError::Aborted { last: "x" };
    let exhausted: ResultShaped = RetryError::Exhausted { last: Err("y") };
    assert_eq!(aborted.stop_reason(), StopReason::Aborted);
    assert_eq!(exhausted.stop_reason(), StopReason::Exhausted);
}

#[test]
fn last_retains_the_outcome_only_on_exhausted() {
    let exhausted: ResultShaped = RetryError::Exhausted { last: Ok(3) };
    let aborted: ResultShaped = RetryError::Aborted { last: "boom" };
    assert_eq!(exhausted.last(), Some(&Ok(3)));
    assert_eq!(aborted.last(), None);
}

#[test]
fn last_is_available_for_non_result_outcomes() {
    type OptErr = RetryError<core::convert::Infallible, Option<i32>>;
    let exhausted: OptErr = RetryError::Exhausted { last: None };
    assert_eq!(exhausted.last(), Some(&None));
    assert_eq!(exhausted.into_last(), Some(None));
}

#[test]
fn last_error_collapses_to_the_error() {
    let aborted: ResultShaped = RetryError::Aborted { last: "boom" };
    let exhausted_err: ResultShaped = RetryError::Exhausted { last: Err("net") };
    let exhausted_ok: ResultShaped = RetryError::Exhausted { last: Ok(1) };
    assert_eq!(aborted.last_error(), Some(&"boom"));
    assert_eq!(exhausted_err.last_error(), Some(&"net"));
    assert_eq!(exhausted_ok.last_error(), None);
}

#[test]
fn display_reports_the_terminal_reason() {
    let aborted: ResultShaped = RetryError::Aborted { last: "boom" };
    let exhausted: ResultShaped = RetryError::Exhausted { last: Err("net") };
    assert_eq!(aborted.to_string(), "aborted: boom");
    assert_eq!(exhausted.to_string(), "retries exhausted: net");
}

#[test]
fn option_error_display_reports_exhaustion() {
    let exhausted: RetryError<Infallible, Option<i32>> = RetryError::Exhausted { last: None };
    assert_eq!(exhausted.to_string(), "retries exhausted");
}

#[test]
fn option_error_is_a_std_error_with_no_source() {
    let exhausted: RetryError<Infallible, Option<i32>> = RetryError::Exhausted { last: None };
    assert!(exhausted.source().is_none());
}

#[test]
fn into_last_agrees_with_last() {
    let exhausted: ResultShaped = RetryError::Exhausted { last: Err("z") };
    let aborted: ResultShaped = RetryError::Aborted { last: "a" };
    assert_eq!(exhausted.last().cloned(), exhausted.clone().into_last());
    assert_eq!(exhausted.into_last(), Some(Err("z")));
    assert_eq!(aborted.last().cloned(), aborted.clone().into_last());
    assert_eq!(aborted.into_last(), None);
}

#[test]
fn into_last_error_agrees_with_last_error() {
    let cases: [ResultShaped; 3] = [
        RetryError::Aborted { last: "boom" },
        RetryError::Exhausted { last: Err("net") },
        RetryError::Exhausted { last: Ok(7) },
    ];
    let expected = [Some("boom"), Some("net"), None];
    for (error, want) in cases.into_iter().zip(expected) {
        assert_eq!(error.last_error().copied(), want);
        assert_eq!(error.into_last_error(), want);
    }
}

#[test]
fn display_of_an_exhausted_ok_has_no_detail() {
    let exhausted_ok: ResultShaped = RetryError::Exhausted { last: Ok(1) };
    assert_eq!(exhausted_ok.to_string(), "retries exhausted");
}

#[test]
fn message_from_uses_the_given_rendering() {
    let aborted: ResultShaped = RetryError::Aborted { last: "ignored" };
    assert_eq!(aborted.message_from("invalid argument"), "aborted: invalid argument");
    let exhausted: ResultShaped = RetryError::Exhausted { last: Err("ignored") };
    assert_eq!(
        exhausted.message_from("connection refused"),
        "retries exhausted: connection refused"
    );
    let exhausted_ok: ResultShaped = RetryError::Exhausted { last: Ok(0) };
    assert_eq!(exhausted_ok.message_from("anything"), "retries exhausted");
}

#[test]
fn display_uses_the_error_display() {
    let aborted: RetryError<u32, Result<(), u32>> = RetryError::Aborted { last: 42 };
    assert_eq!(aborted.to_string(), "aborted: 42");
}

#[test]
fn result_source_is_the_last_error() {
    let aborted: ResultShaped = RetryError::Aborted { last: "boom" };
    let exhausted_ok: ResultShaped = RetryError::Exhausted { last: Ok(2) };
    assert_eq!(aborted.source(), Some(&"boom"));
    assert_eq!(exhausted_ok.source(), None);
}

#[test]
fn retry_result_alias_names_the_result_shape() {
    let failed: RetryResult<i32, &str> = Err(RetryError::Exhausted { last: Err("e") });
    assert_eq!(failed.unwrap_err().stop_reason(), StopReason::Exhausted);
}

#[test]
fn control_flow_error_reports_exhaustion_with_no_source() {
    let exhausted: RetryError<Infallible, ControlFlow<u32, ()>> =
        RetryError::Exhausted { last: ControlFlow::Continue(()) };
    assert_eq!(exhausted.to_string(), "retries exhausted");
    assert!(exhausted.source().is_none());
}

#[test]
fn stop_reason_labels_are_lowercase() {
    assert_eq!(StopReason::Returned.to_string(), "returned");
    assert_eq!(StopReason::Aborted.to_string(), "aborted");
    assert_eq!(StopReason::Exhausted.to_string(), "retries exhausted");
}
