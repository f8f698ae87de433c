use vstd::prelude::*;

use crate::report::CallSite;
use crate::report::FailureReport;
use crate::report::LogEvent;
use crate::report::Severity;

verus! {

/// The text logged when a message is paired with a debug-rendered payload:
/// the message, the separator `": "`, then the payload rendering.
pub open spec fn composed_message(message: Seq<char>, payload: Seq<char>) -> Seq<char> {
    message + ": "@ + payload
}

/// Builds the report for a failing operation that logs `message` alone (an
/// absent value carries no payload to render). The event carries the full
/// message whatever `quiet` is; the termination signal carries it only when
/// quiet termination is off.
pub fn failed(message: &str, quiet: bool, call_site: Option<CallSite>) -> (r: FailureReport)
    ensures
        r.event.severity == Severity::Error,
        r.event.message@ == message@,
        r.event.call_site == call_site,
        quiet <==> r.panic_message is None,
        r.panic_message is Some ==> r.panic_message->0@ == r.event.message@,
{
    let text = String::from_str(message);
    let panic_message: Option<String> = if quiet {
        None
    } else {
        Some(text.clone())
    };
    FailureReport {
        event: LogEvent { severity: Severity::Error, message: text, call_site },
        panic_message,
    }
}

/// Builds the report for a failing operation that logs `message` together
/// with the debug rendering of the unexpected payload, already supplied as
/// `payload`. The logged text is exactly the message, `": "`, and the
/// rendering; the termination signal mirrors it unless `quiet` is on.
pub fn failed_with(message: &str, payload: &str, quiet: bool, call_site: Option<CallSite>) -> (r:
    FailureReport)
    ensures
        r.event.severity == Severity::Error,
        r.event.message@ == composed_message(message@, payload@),
        r.event.call_site == call_site,
        quiet <==> r.panic_message is None,
        r.panic_message is Some ==> r.panic_message->0@ == r.event.message@,
{
    let mut text = String::from_str(message);
    text.append(": ");
    text.append(payload);
    let panic_message: Option<String> = if quiet {
        None
    } else {
        Some(text.clone())
    };
    FailureReport {
        event: LogEvent { severity: Severity::Error, message: text, call_site },
        panic_message,
    }
}

/// Builds the event for the one operation that logs a discarded failure
/// payload but lets execution continue: same text composition as
/// `failed_with`, no termination request.
pub fn discarded_with(message: &str, payload: &str, call_site: Option<CallSite>) -> (ev: LogEvent)
    ensures
        ev.severity == Severity::Error,
        ev.message@ == composed_message(message@, payload@),
        ev.call_site == call_site,
{
    let mut text = String::from_str(message);
    text.append(": ");
    text.append(payload);
    LogEvent { severity: Severity::Error, message: text, call_site }
}

} // verus!
