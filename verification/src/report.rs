use vstd::prelude::*;

verus! {

/// Severity attached to every diagnostic event this library produces.
/// Failed unwraps are always reported at the error level.
#[derive(Clone, Copy, PartialEq, Eq, Structural, Debug)]
pub enum Severity {
    Error,
}

/// File, line and column of the expression whose unwrap failed, as captured
/// by the caller at the call site.
pub struct CallSite {
    pub file: String,
    pub line: u32,
    pub column: u32,
}

/// One structured diagnostic event, ready to hand to an observability sink:
/// a severity, a message, and (when call-site capture is on) the location of
/// the failing call.
pub struct LogEvent {
    pub severity: Severity,
    pub message: String,
    pub call_site: Option<CallSite>,
}

/// Everything a failing terminating operation asks of its caller: emit
/// `event` to the sink, then terminate the execution path carrying
/// `panic_message`. The message is absent when quiet termination was chosen;
/// the event always carries the full text either way.
pub struct FailureReport {
    pub event: LogEvent,
    pub panic_message: Option<String>,
}

} // verus!
