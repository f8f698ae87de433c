use vstd::prelude::*;

verus! {

/// Logging extraction operations for success/failure containers.
///
/// A verified caller must hold the variant an operation expects, and then
/// receives exactly the wrapped payload, with no event and no side effect.
/// On the other variant the original operations log and (except for
/// `ok_or_log`) terminate — effects verified code cannot perform — so that
/// path is decided by the total functions of this library
/// (`result_unwrap_or_log` and its siblings), whose results an unverified
/// rim emits and performs.
pub trait ResultExt<T, E>: Sized {
    /// True when the container holds the success variant.
    spec fn spec_is_success(&self) -> bool;

    /// The payload of the success variant.
    spec fn spec_success(&self) -> T;

    /// The payload of the failure variant.
    spec fn spec_failure(&self) -> E;

    /// Converts the container into an optional payload; with the success
    /// variant at hand there is no failure to log.
    fn ok_or_log(self) -> (r: Option<T>) where E: core::fmt::Debug
        requires
            self.spec_is_success(),
        ensures
            r is Some && r->0 == self.spec_success(),
    ;

    /// Extracts the success payload.
    fn unwrap_or_log(self) -> (r: T) where E: core::fmt::Debug
        requires
            self.spec_is_success(),
        ensures
            r == self.spec_success(),
    ;

    /// Extracts the success payload; the message would only be used on the
    /// failure variant.
    fn expect_or_log(self, msg: &str) -> (r: T) where E: core::fmt::Debug
        requires
            self.spec_is_success(),
        ensures
            r == self.spec_success(),
    ;

    /// Extracts the failure payload.
    fn unwrap_err_or_log(self) -> (r: E) where T: core::fmt::Debug
        requires
            !self.spec_is_success(),
        ensures
            r == self.spec_failure(),
    ;

    /// Extracts the failure payload; the message would only be used on the
    /// success variant.
    fn expect_err_or_log(self, msg: &str) -> (r: E) where T: core::fmt::Debug
        requires
            !self.spec_is_success(),
        ensures
            r == self.spec_failure(),
    ;
}

impl<T, E> ResultExt<T, E> for Result<T, E> {
    open spec fn spec_is_success(&self) -> bool {
        *self is Ok
    }

    open spec fn spec_success(&self) -> T {
        self->Ok_0
    }

    open spec fn spec_failure(&self) -> E {
        self->Err_0
    }

    fn ok_or_log(self) -> (r: Option<T>) where E: core::fmt::Debug {
        match self {
            Ok(t) => Some(t),
            Err(_) => unreached(),
        }
    }

    fn unwrap_or_log(self) -> (r: T) where E: core::fmt::Debug {
        match self {
            Ok(t) => t,
            Err(_) => unreached(),
        }
    }

    fn expect_or_log(self, msg: &str) -> (r: T) where E: core::fmt::Debug {
        match self {
            Ok(t) => t,
            Err(_) => unreached(),
        }
    }

    fn unwrap_err_or_log(self) -> (r: E) where T: core::fmt::Debug {
        match self {
            Ok(_) => unreached(),
            Err(e) => e,
        }
    }

    fn expect_err_or_log(self, msg: &str) -> (r: E) where T: core::fmt::Debug {
        match self {
            Ok(_) => unreached(),
            Err(e) => e,
        }
    }
}

/// Logging extraction operations for optional-value containers.
///
/// As with `ResultExt`, a verified caller must hold the variant an operation
/// expects; the log-and-terminate path on the other variant is decided by
/// the total functions of this library (`option_unwrap_or_log` and its
/// siblings).
pub trait OptionExt<T>: Sized {
    /// True when the container holds a payload.
    spec fn spec_is_present(&self) -> bool;

    /// The payload held, when one is present.
    spec fn spec_payload(&self) -> T;

    /// Extracts the present payload.
    fn unwrap_or_log(self) -> (r: T)
        requires
            self.spec_is_present(),
        ensures
            r == self.spec_payload(),
    ;

    /// Extracts the present payload; the message would only be used on the
    /// absent variant.
    fn expect_or_log(self, msg: &str) -> (r: T)
        requires
            self.spec_is_present(),
        ensures
            r == self.spec_payload(),
    ;

    /// Expects absence and returns nothing; with the absent variant at hand
    /// there is no payload to log.
    fn unwrap_none_or_log(self) where T: core::fmt::Debug
        requires
            !self.spec_is_present(),
    ;

    /// Expects absence and returns nothing; the message would only be used
    /// on the present variant.
    fn expect_none_or_log(self, msg: &str) where T: core::fmt::Debug
        requires
            !self.spec_is_present(),
    ;
}

impl<T> OptionExt<T> for Option<T> {
    open spec fn spec_is_present(&self) -> bool {
        *self is Some
    }

    open spec fn spec_payload(&self) -> T {
        self->0
    }

    fn unwrap_or_log(self) -> (r: T) {
        match self {
            Some(v) => v,
            None => unreached(),
        }
    }

    fn expect_or_log(self, msg: &str) -> (r: T) {
        match self {
            Some(v) => v,
            None => unreached(),
        }
    }

    fn unwrap_none_or_log(self) where T: core::fmt::Debug {
        match self {
            Some(_) => unreached(),
            None => (),
        }
    }

    fn expect_none_or_log(self, msg: &str) where T: core::fmt::Debug {
        match self {
            Some(_) => unreached(),
            None => (),
        }
    }
}

} // verus!
