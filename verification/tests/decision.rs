use core::ops::ControlFlow;
use core::convert::Infallible;
use relentless::predicate::{any_error, error, ok, result};
use relentless::{
    ClosureClassifier, Decide, Decision, DefaultClassifier, IntoDecision, Outcome, Until, Verdict,
    When,
};

#[test]
fn result_ok_classifies_as_return() {
    let outcome: Result<i32, &str> = Ok(7);
    assert_eq!(outcome.classify(), Verdict::Return(7));
}

#[test]
fn result_err_classifies_as_retry_carrying_the_whole_outcome() {
    let outcome: Result<i32, &str> = Err("boom");
    assert_eq!(outcome.classify(), Verdict::Retry(Err("boom")));
}

#[test]
fn default_classifier_delegates_to_outcome() {
    let classifier = DefaultClassifier;
    assert_eq!(classifier.decide(Ok::<i32, &str>(1)), Verdict::Return(1));
    assert_eq!(
        classifier.decide(Err::<i32, &str>("x")),
        Verdict::Retry(Err("x"))
    );
}

#[test]
fn option_some_classifies_as_return() {
    assert_eq!(Some(7).classify(), Verdict::Return(7));
}

#[test]
fn option_none_classifies_as_retry_carrying_the_whole_outcome() {
    assert_eq!(None::<i32>.classify(), Verdict::Retry(None));
}

#[test]
fn default_classifier_delegates_to_option() {
    let classifier = DefaultClassifier;
    assert_eq!(classifier.decide(Some(1)), Verdict::Return(1));
    assert_eq!(classifier.decide(None::<i32>), Verdict::Retry(None));
}

#[test]
fn default_classifier_never_aborts_a_result() {
    let classifier = DefaultClassifier;
    for outcome in [Ok::<i32, &str>(0), Err("a"), Ok(5), Err("b")] {
        let verdict = classifier.decide(outcome);
        assert!(!matches!(verdict, Verdict::Abort(_)));
    }
}

#[test]
fn a_borrowed_classifier_decides_as_the_classifier() {
    let classifier = DefaultClassifier;
    let borrowed = &classifier;
    assert_eq!(borrowed.decide(Ok::<i32, &str>(4)), Verdict::Return(4));
    assert_eq!(
        borrowed.decide(Err::<i32, &str>("e")),
        Verdict::Retry(Err("e"))
    );
}

#[test]
fn decision_converts_arm_for_arm_and_never_aborts() {
    let ret: Decision<i32, Option<i32>> = Decision::Return(3);
    let retry: Decision<i32, Option<i32>> = Decision::Retry(None);
    assert_eq!(ret.into_verdict(), Verdict::<i32, Infallible, Option<i32>>::Return(3));
    assert_eq!(retry.into_verdict(), Verdict::<i32, Infallible, Option<i32>>::Retry(None));
}

#[test]
fn verdict_converts_to_itself() {
    let abort: Verdict<i32, &str, ()> = Verdict::Abort("fatal");
    assert_eq!(abort.clone().into_verdict(), abort);
    let retry: Verdict<i32, &str, ()> = Verdict::Retry(());
    assert_eq!(retry.clone().into_verdict(), retry);
}

#[derive(Debug, PartialEq)]
enum Job {
    Done(u32),
    Failed(&'static str),
    Pending,
}

#[test]
fn closure_classifier_sorts_a_custom_outcome_three_ways() {
    let classifier = ClosureClassifier(|outcome: Job| match outcome {
        Job::Done(report) => Verdict::Return(report),
        Job::Failed(why) => Verdict::Abort(why),
        other => Verdict::Retry(other),
    });
    assert_eq!(classifier.decide(Job::Done(9)), Verdict::Return(9));
    assert_eq!(classifier.decide(Job::Failed("bad")), Verdict::Abort("bad"));
    assert_eq!(classifier.decide(Job::Pending), Verdict::Retry(Job::Pending));
}

#[test]
fn closure_classifier_with_a_decision_delivers_a_sought_error() {
    let classifier = ClosureClassifier(|outcome: Result<i32, &'static str>| match outcome {
        Err(e) => Decision::Return(e),
        other => Decision::Retry(other),
    });
    assert_eq!(classifier.decide(Err("found")), Verdict::Return("found"));
    assert_eq!(classifier.decide(Ok(1)), Verdict::Retry(Ok(1)));
}

#[test]
fn when_retries_while_the_predicate_fires_then_accepts() {
    let classifier = When::new(error(|e: &&str| *e == "retryable"));
    assert_eq!(
        classifier.decide(Err::<i32, &str>("retryable")),
        Verdict::Retry(Err("retryable"))
    );
    assert_eq!(classifier.decide(Err::<i32, &str>("fatal")), Verdict::Abort("fatal"));
    assert_eq!(classifier.decide(Ok::<i32, &str>(2)), Verdict::Return(2));
}

#[test]
fn until_retries_until_the_predicate_fires_then_accepts() {
    let classifier = Until::new(ok(|value: &u32| *value >= 3));
    assert_eq!(classifier.decide(Ok::<u32, &str>(3)), Verdict::Return(3));
    assert_eq!(classifier.decide(Ok::<u32, &str>(1)), Verdict::Retry(Ok(1)));
    // `ok` never fires on an error, so `until` keeps polling through it.
    assert_eq!(classifier.decide(Err::<u32, &str>("net")), Verdict::Retry(Err("net")));
}

#[test]
fn when_ok_aborts_on_an_error() {
    let classifier = When::new(ok(|value: &u32| *value < 3));
    assert_eq!(classifier.decide(Ok::<u32, &str>(2)), Verdict::Retry(Ok(2)));
    assert_eq!(classifier.decide(Ok::<u32, &str>(3)), Verdict::Return(3));
    assert_eq!(classifier.decide(Err::<u32, &str>("net")), Verdict::Abort("net"));
}

#[test]
fn until_inverts_when_on_the_same_predicate() {
    let predicate = |o: &Result<i32, &str>| matches!(o, Ok(v) if *v > 0);
    let when_classifier = When::new(predicate);
    let until_classifier = Until::new(predicate);
    for outcome in [Ok::<i32, &str>(1), Ok(0), Err("e")] {
        let w = when_classifier.decide(outcome.clone());
        let u = until_classifier.decide(outcome.clone());
        assert_ne!(matches!(w, Verdict::Retry(_)), matches!(u, Verdict::Retry(_)));
    }
}

#[test]
fn when_any_error_classifies_like_the_default() {
    let classifier = When::new(any_error());
    for outcome in [Ok::<i32, &str>(1), Err("x")] {
        assert_eq!(
            classifier.decide(outcome.clone()),
            DefaultClassifier.decide(outcome)
        );
    }
}

#[test]
fn when_and_until_match_a_hand_written_decide() {
    let by_hand = ClosureClassifier(|o: Result<i32, &'static str>| match o {
        Ok(v) if v < 0 => Verdict::Retry(o),
        Ok(v) => Verdict::Return(v),
        Err(e) => Verdict::Abort(e),
    });
    let when_classifier = When::new(result(|o: &Result<i32, &str>| matches!(o, Ok(v) if *v < 0)));
    let until_classifier =
        Until::new(result(|o: &Result<i32, &str>| !matches!(o, Ok(v) if *v < 0)));
    for outcome in [Ok::<i32, &'static str>(-1), Ok(4), Err("boom")] {
        let expected = by_hand.decide(outcome.clone());
        assert_eq!(when_classifier.decide(outcome.clone()), expected);
        assert_eq!(until_classifier.decide(outcome), expected);
    }
}

#[test]
fn control_flow_break_returns_and_continue_retries() {
    let done: ControlFlow<u32, &str> = ControlFlow::Break(5);
    let going: ControlFlow<u32, &str> = ControlFlow::Continue("pending");
    assert_eq!(done.classify(), Verdict::Return(5));
    assert_eq!(going.classify(), Verdict::Retry(ControlFlow::Continue("pending")));
    assert_eq!(DefaultClassifier.decide(ControlFlow::<u32, ()>::Break(1)), Verdict::Return(1));
    assert_eq!(
        DefaultClassifier.decide(ControlFlow::<u32, ()>::Continue(())),
        Verdict::Retry(ControlFlow::Continue(()))
    );
}

#[test]
fn a_borrowed_unsized_classifier_decides_as_its_target() {
    let classifier = DefaultClassifier;
    let unsized_classifier: &dyn Decide<Result<i32, &str>, R = i32, A = &str> = &classifier;
    let borrowed = &unsized_classifier;
    assert_eq!(borrowed.decide(Ok(8)), Verdict::Return(8));
    assert_eq!(borrowed.decide(Err("e")), Verdict::Retry(Err("e")));
}

#[test]
fn until_p_decides_as_when_not_p() {
    let p = |o: &Result<i32, &str>| matches!(o, Ok(v) if *v >= 2);
    let until_classifier = Until::new(p);
    let when_classifier = When::new(move |o: &Result<i32, &str>| !p(o));
    for outcome in [Ok::<i32, &str>(1), Ok(2), Err("e")] {
        assert_eq!(
            until_classifier.decide(outcome.clone()),
            when_classifier.decide(outcome)
        );
    }
}
