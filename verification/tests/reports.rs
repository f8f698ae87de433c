use tracing_unwrap::CallSite;
use tracing_unwrap::Outcome;
use tracing_unwrap::Severity;
use tracing_unwrap::discarded_with;
use tracing_unwrap::failed;
use tracing_unwrap::failed_with;
use tracing_unwrap::option_expect_none_or_log;
use tracing_unwrap::option_expect_or_log;
use tracing_unwrap::option_unwrap_none_or_log;
use tracing_unwrap::option_unwrap_or_log;
use tracing_unwrap::result_expect_err_or_log;
use tracing_unwrap::result_expect_or_log;
use tracing_unwrap::result_ok_or_log;
use tracing_unwrap::result_unwrap_err_or_log;
use tracing_unwrap::result_unwrap_or_log;

#[test]
fn failed_logs_exactly_the_message() {
    let rep = failed("X", false, None);
    assert_eq!(rep.event.message, "X");
    assert!(matches!(rep.event.severity, Severity::Error));
    assert!(rep.event.call_site.is_none());
    assert_eq!(rep.panic_message, Some(String::from("X")));
}

#[test]
fn failed_with_composes_message_and_payload() {
    let rep = failed_with("X", "5", false, None);
    assert_eq!(rep.event.message, "X: 5");
    assert_eq!(rep.panic_message, Some(String::from("X: 5")));
}

#[test]
fn quiet_termination_carries_no_text_but_logs_in_full() {
    let quiet = failed("X", true, None);
    assert_eq!(quiet.event.message, "X");
    assert_eq!(quiet.panic_message, None);
    let loud = failed("X", false, None);
    assert_eq!(loud.event.message, "X");
    assert_eq!(loud.panic_message.as_deref(), Some("X"));
}

#[test]
fn call_site_is_carried_into_the_event() {
    let cs = CallSite { file: String::from("tests/reports.rs"), line: 8, column: 28 };
    let rep = failed("m", false, Some(cs));
    match &rep.event.call_site {
        Some(at) => {
            assert_eq!(at.file, "tests/reports.rs");
            assert_eq!(at.line, 8);
            assert_eq!(at.column, 28);
        }
        None => panic!("call site was dropped"),
    }
}

#[test]
fn discarded_with_composes_without_termination() {
    let ev = discarded_with("X", "\"x\"", Some(CallSite {
        file: String::from("a.rs"),
        line: 1,
        column: 2,
    }));
    assert_eq!(ev.message, "X: \"x\"");
    assert!(matches!(ev.severity, Severity::Error));
    assert!(ev.call_site.is_some());
}

#[test]
fn result_unwrap_or_log_halts_on_failure_with_debug_payload() {
    let out = result_unwrap_or_log(Result::<(), &str>::Err("boom"), false, None);
    match out {
        Outcome::Pass(_) => panic!("a failure must halt"),
        Outcome::Halt(rep) => {
            assert_eq!(
                rep.event.message,
                "called `Result::unwrap_or_log()` on an `Err` value: \"boom\""
            );
            assert!(matches!(rep.event.severity, Severity::Error));
            assert_eq!(rep.panic_message.as_deref(), Some(rep.event.message.as_str()));
        }
    }
}

#[test]
fn result_expect_or_log_uses_the_supplied_message() {
    let out = result_expect_or_log(Result::<i32, &str>::Err("oops"), "ctx", false, None);
    match out {
        Outcome::Pass(_) => panic!("a failure must halt"),
        Outcome::Halt(rep) => assert_eq!(rep.event.message, "ctx: \"oops\""),
    }
}

#[test]
fn result_unwrap_err_or_log_halts_on_success() {
    let out = result_unwrap_err_or_log(Result::<i32, &str>::Ok(7), false, None);
    match out {
        Outcome::Pass(_) => panic!("an unexpected success must halt"),
        Outcome::Halt(rep) => {
            assert_eq!(
                rep.event.message,
                "called `Result::unwrap_err_or_log()` on an `Ok` value: 7"
            );
        }
    }
}

#[test]
fn result_expect_err_or_log_uses_the_supplied_message() {
    let out = result_expect_err_or_log(Result::<i32, &str>::Ok(7), "ctx", false, None);
    match out {
        Outcome::Pass(_) => panic!("an unexpected success must halt"),
        Outcome::Halt(rep) => assert_eq!(rep.event.message, "ctx: 7"),
    }
}

#[test]
fn ok_or_log_discards_logs_and_continues() {
    let (value, event) = result_ok_or_log(Result::<(), &str>::Err("x"), None);
    assert!(value.is_none());
    match event {
        Some(ev) => {
            assert_eq!(ev.message, "called `Result::ok_or_log` on an `Err` value: \"x\"");
            assert!(matches!(ev.severity, Severity::Error));
        }
        None => panic!("a discarded failure must be logged"),
    }
    // Execution continues normally after the discard.
    let (value, event) = result_ok_or_log(Result::<i32, &str>::Ok(9), None);
    assert_eq!(value, Some(9));
    assert!(event.is_none());
}

#[test]
fn option_unwrap_or_log_halts_on_absence_with_fixed_message() {
    let out = option_unwrap_or_log(Option::<i32>::None, false, None);
    match out {
        Outcome::Pass(_) => panic!("an absent value must halt"),
        Outcome::Halt(rep) => {
            assert_eq!(rep.event.message, "called `Option::unwrap_or_log()` on a `None` value");
            assert_eq!(rep.panic_message.as_deref(), Some(rep.event.message.as_str()));
        }
    }
}

#[test]
fn option_expect_or_log_logs_the_supplied_message_alone() {
    let out = option_expect_or_log(Option::<i32>::None, "need a value", false, None);
    match out {
        Outcome::Pass(_) => panic!("an absent value must halt"),
        Outcome::Halt(rep) => assert_eq!(rep.event.message, "need a value"),
    }
}

#[test]
fn option_unwrap_none_or_log_reports_the_present_payload() {
    let out = option_unwrap_none_or_log(Some(5), false, None);
    match out {
        Some(rep) => {
            assert_eq!(
                rep.event.message,
                "called `Option::unwrap_none_or_log()` on a `Some` value: 5"
            );
        }
        None => panic!("a present value must halt"),
    }
    assert!(option_unwrap_none_or_log(Option::<i32>::None, false, None).is_none());
}

#[test]
fn option_expect_none_or_log_uses_the_supplied_message() {
    let out = option_expect_none_or_log(Some(5), "ctx", true, None);
    match out {
        Some(rep) => {
            assert_eq!(rep.event.message, "ctx: 5");
            assert_eq!(rep.panic_message, None);
        }
        None => panic!("a present value must halt"),
    }
    assert!(option_expect_none_or_log(Option::<i32>::None, "ctx", true, None).is_none());
}

#[test]
fn pass_through_produces_no_event() {
    let out = result_unwrap_or_log(Result::<i32, &str>::Ok(4), false, None);
    match out {
        Outcome::Pass(v) => assert_eq!(v, 4),
        Outcome::Halt(_) => panic!("a success must pass through"),
    }
    let out = option_unwrap_or_log(Some(6), true, None);
    match out {
        Outcome::Pass(v) => assert_eq!(v, 6),
        Outcome::Halt(_) => panic!("a present value must pass through"),
    }
}
