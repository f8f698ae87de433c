use vstd::prelude::*;

use crate::helpers::composed_message;
use crate::helpers::discarded_with;
use crate::helpers::failed;
use crate::helpers::failed_with;
use crate::report::CallSite;
use crate::report::FailureReport;
use crate::report::LogEvent;
use crate::report::Severity;

verus! {

/// What an operation that may terminate decides for a given container: pass
/// the extracted payload through (no event, no side effect), or halt — the
/// caller emits the carried event and then terminates with the carried
/// signal, in that order, so the event is never lost to the halt.
pub enum Outcome<V> {
    Pass(V),
    Halt(FailureReport),
}

/// Holds when `r` asks for a failure to be logged with exactly the text
/// `message`: an error-severity event carrying that text and the given call
/// site, and a termination signal that mirrors the text unless quiet
/// termination was chosen.
pub open spec fn reports_message(
    r: FailureReport,
    message: Seq<char>,
    quiet: bool,
    call_site: Option<CallSite>,
) -> bool {
    &&& r.event.severity == Severity::Error
    &&& r.event.message@ == message
    &&& r.event.call_site == call_site
    &&& (quiet <==> r.panic_message is None)
    &&& (r.panic_message is Some ==> r.panic_message->0@ == r.event.message@)
}

/// Holds when `r` asks for a failure to be logged with `message`, the
/// separator `": "`, and then the debug rendering of the unexpected payload.
/// The rendering itself is whatever the formatting machinery produced, so
/// only the opening of the text is pinned; the event and signal otherwise
/// behave as in `reports_message`.
pub open spec fn reports_payload(
    r: FailureReport,
    message: Seq<char>,
    quiet: bool,
    call_site: Option<CallSite>,
) -> bool {
    &&& r.event.severity == Severity::Error
    &&& (message + ": "@).is_prefix_of(r.event.message@)
    &&& r.event.call_site == call_site
    &&& (quiet <==> r.panic_message is None)
    &&& (r.panic_message is Some ==> r.panic_message->0@ == r.event.message@)
}

/// Relies on std's `format!` with the `{:?}` specifier to produce the debug
/// rendering of a payload. Nothing is assumed of the text it returns.
#[verifier::external_body]
fn debug_string<T: core::fmt::Debug>(value: &T) -> String {
    format!("{:?}", value)
}

proof fn lemma_prefix_of_composed(message: Seq<char>, payload: Seq<char>)
    ensures
        (message + ": "@).is_prefix_of(composed_message(message, payload)),
{
    assert((message + ": "@) =~= composed_message(message, payload).subrange(
        0,
        (message + ": "@).len() as int,
    ));
}

/// Converts a success/failure container into an optional payload, logging
/// the failure payload if there was one. This is the one operation that
/// never terminates: on failure the caller receives the event to emit and an
/// absent value, and execution continues.
pub fn result_ok_or_log<T, E: core::fmt::Debug>(
    r: Result<T, E>,
    call_site: Option<CallSite>,
) -> (out: (Option<T>, Option<LogEvent>))
    ensures
        r is Ok ==> out.0 is Some && out.0->0 == r->Ok_0 && out.1 is None,
        r is Err ==> {
            &&& out.0 is None
            &&& out.1 is Some
            &&& out.1->0.severity == Severity::Error
            &&& ("called `Result::ok_or_log` on an `Err` value"@ + ": "@).is_prefix_of(
                out.1->0.message@,
            )
            &&& out.1->0.call_site == call_site
        },
{
    match r {
        Ok(t) => (Some(t), None),
        Err(e) => {
            let payload = debug_string(&e);
            let ev = discarded_with(
                "called `Result::ok_or_log` on an `Err` value",
                payload.as_str(),
                call_site,
            );
            proof {
                lemma_prefix_of_composed(
                    "called `Result::ok_or_log` on an `Err` value"@,
                    payload@,
                );
            }
            (None, Some(ev))
        },
    }
}

/// Extracts the success payload, or reports the failure payload under the
/// fixed unwrap message and asks for termination.
pub fn result_unwrap_or_log<T, E: core::fmt::Debug>(
    r: Result<T, E>,
    quiet: bool,
    call_site: Option<CallSite>,
) -> (out: Outcome<T>)
    ensures
        r is Ok ==> (out matches Outcome::Pass(v) && v == r->Ok_0),
        r is Err ==> (out matches Outcome::Halt(rep) && reports_payload(
            rep,
            "called `Result::unwrap_or_log()` on an `Err` value"@,
            quiet,
            call_site,
        )),
{
    match r {
        Ok(t) => Outcome::Pass(t),
        Err(e) => {
            let payload = debug_string(&e);
            let rep = failed_with(
                "called `Result::unwrap_or_log()` on an `Err` value",
                payload.as_str(),
                quiet,
                call_site,
            );
            proof {
                lemma_prefix_of_composed(
                    "called `Result::unwrap_or_log()` on an `Err` value"@,
                    payload@,
                );
            }
            Outcome::Halt(rep)
        },
    }
}

/// Extracts the success payload, or reports the failure payload under the
/// caller-supplied message and asks for termination.
pub fn result_expect_or_log<T, E: core::fmt::Debug>(
    r: Result<T, E>,
    msg: &str,
    quiet: bool,
    call_site: Option<CallSite>,
) -> (out: Outcome<T>)
    ensures
        r is Ok ==> (out matches Outcome::Pass(v) && v == r->Ok_0),
        r is Err ==> (out matches Outcome::Halt(rep) && reports_payload(
            rep,
            msg@,
            quiet,
            call_site,
        )),
{
    match r {
        Ok(t) => Outcome::Pass(t),
        Err(e) => {
            let payload = debug_string(&e);
            let rep = failed_with(msg, payload.as_str(), quiet, call_site);
            proof {
                lemma_prefix_of_composed(msg@, payload@);
            }
            Outcome::Halt(rep)
        },
    }
}

/// Extracts the failure payload, or reports the unexpected success payload
/// under the fixed unwrap message and asks for termination.
pub fn result_unwrap_err_or_log<T: core::fmt::Debug, E>(
    r: Result<T, E>,
    quiet: bool,
    call_site: Option<CallSite>,
) -> (out: Outcome<E>)
    ensures
        r is Err ==> (out matches Outcome::Pass(v) && v == r->Err_0),
        r is Ok ==> (out matches Outcome::Halt(rep) && reports_payload(
            rep,
            "called `Result::unwrap_err_or_log()` on an `Ok` value"@,
            quiet,
            call_site,
        )),
{
    match r {
        Err(e) => Outcome::Pass(e),
        Ok(t) => {
            let payload = debug_string(&t);
            let rep = failed_with(
                "called `Result::unwrap_err_or_log()` on an `Ok` value",
                payload.as_str(),
                quiet,
                call_site,
            );
            proof {
                lemma_prefix_of_composed(
                    "called `Result::unwrap_err_or_log()` on an `Ok` value"@,
                    payload@,
                );
            }
            Outcome::Halt(rep)
        },
    }
}

/// Extracts the failure payload, or reports the unexpected success payload
/// under the caller-supplied message and asks for termination.
pub fn result_expect_err_or_log<T: core::fmt::Debug, E>(
    r: Result<T, E>,
    msg: &str,
    quiet: bool,
    call_site: Option<CallSite>,
) -> (out: Outcome<E>)
    ensures
        r is Err ==> (out matches Outcome::Pass(v) && v == r->Err_0),
        r is Ok ==> (out matches Outcome::Halt(rep) && reports_payload(
            rep,
            msg@,
            quiet,
            call_site,
        )),
{
    match r {
        Err(e) => Outcome::Pass(e),
        Ok(t) => {
            let payload = debug_string(&t);
            let rep = failed_with(msg, payload.as_str(), quiet, call_site);
            proof {
                lemma_prefix_of_composed(msg@, payload@);
            }
            Outcome::Halt(rep)
        },
    }
}

/// Extracts the present payload, or reports the absence under the fixed
/// unwrap message — exactly that text, since absence carries no payload to
/// render — and asks for termination.
pub fn option_unwrap_or_log<T>(
    o: Option<T>,
    quiet: bool,
    call_site: Option<CallSite>,
) -> (out: Outcome<T>)
    ensures
        o is Some ==> (out matches Outcome::Pass(v) && v == o->0),
        o is None ==> (out matches Outcome::Halt(rep) && reports_message(
            rep,
            "called `Option::unwrap_or_log()` on a `None` value"@,
            quiet,
            call_site,
        )),
{
    match o {
        Some(v) => Outcome::Pass(v),
        None => Outcome::Halt(
            failed("called `Option::unwrap_or_log()` on a `None` value", quiet, call_site),
        ),
    }
}

/// Extracts the present payload, or reports the absence with exactly the
/// caller-supplied message and asks for termination.
pub fn option_expect_or_log<T>(
    o: Option<T>,
    msg: &str,
    quiet: bool,
    call_site: Option<CallSite>,
) -> (out: Outcome<T>)
    ensures
        o is Some ==> (out matches Outcome::Pass(v) && v == o->0),
        o is None ==> (out matches Outcome::Halt(rep) && reports_message(
            rep,
            msg@,
            quiet,
            call_site,
        )),
{
    match o {
        Some(v) => Outcome::Pass(v),
        None => Outcome::Halt(failed(msg, quiet, call_site)),
    }
}

/// Expects absence: on an absent value returns no report (and no event is
/// produced at all); on a present value reports the payload under the fixed
/// message and asks for termination.
pub fn option_unwrap_none_or_log<T: core::fmt::Debug>(
    o: Option<T>,
    quiet: bool,
    call_site: Option<CallSite>,
) -> (out: Option<FailureReport>)
    ensures
        o is None ==> out is None,
        o is Some ==> out is Some && reports_payload(
            out->0,
            "called `Option::unwrap_none_or_log()` on a `Some` value"@,
            quiet,
            call_site,
        ),
{
    match o {
        None => None,
        Some(v) => {
            let payload = debug_string(&v);
            let rep = failed_with(
                "called `Option::unwrap_none_or_log()` on a `Some` value",
                payload.as_str(),
                quiet,
                call_site,
            );
            proof {
                lemma_prefix_of_composed(
                    "called `Option::unwrap_none_or_log()` on a `Some` value"@,
                    payload@,
                );
            }
            Some(rep)
        },
    }
}

/// Expects absence: as `option_unwrap_none_or_log`, but a present payload is
/// reported under the caller-supplied message.
pub fn option_expect_none_or_log<T: core::fmt::Debug>(
    o: Option<T>,
    msg: &str,
    quiet: bool,
    call_site: Option<CallSite>,
) -> (out: Option<FailureReport>)
    ensures
        o is None ==> out is None,
        o is Some ==> out is Some && reports_payload(out->0, msg@, quiet, call_site),
{
    match o {
        None => None,
        Some(v) => {
            let payload = debug_string(&v);
            let rep = failed_with(msg, payload.as_str(), quiet, call_site);
            proof {
                lemma_prefix_of_composed(msg@, payload@);
            }
            Some(rep)
        },
    }
}

} // verus!
