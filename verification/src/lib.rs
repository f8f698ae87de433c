//! Logging variants of the unwrap operations on success/failure and
//! optional-value containers.
//!
//! Programs that route their diagnostics to a structured sink (syslog, a
//! database, a telemetry backend) lose visibility into failed unwraps, whose
//! messages normally go to standard error. This library makes the failure
//! path explicit as data: each operation either passes the expected payload
//! through, or produces exactly one diagnostic event — and, for terminating
//! operations, a termination request — for the caller to perform. The
//! decision and the composition of the diagnostic text are verified; the
//! emission and the termination themselves are left to the unverified rim
//! around the library.

mod helpers;
mod outcome;
mod report;
mod traits;

pub use helpers::composed_message;
pub use helpers::discarded_with;
pub use helpers::failed;
pub use helpers::failed_with;
pub use outcome::Outcome;
pub use outcome::option_expect_none_or_log;
pub use outcome::option_expect_or_log;
pub use outcome::option_unwrap_none_or_log;
pub use outcome::option_unwrap_or_log;
pub use outcome::reports_message;
pub use outcome::reports_payload;
pub use outcome::result_expect_err_or_log;
pub use outcome::result_expect_or_log;
pub use outcome::result_ok_or_log;
pub use outcome::result_unwrap_err_or_log;
pub use outcome::result_unwrap_or_log;
pub use report::CallSite;
pub use report::FailureReport;
pub use report::LogEvent;
pub use report::Severity;
pub use traits::OptionExt;
pub use traits::ResultExt;
