use std::time::Duration;
use vstd::prelude::*;

verus! {

/// Relies on `Duration::as_millis`: the whole milliseconds of a duration.
/// Nothing more is stated, as Verus sees a `Duration` as an opaque value.
#[verifier::external_body]
fn duration_millis(d: Duration) -> (r: u128) {
    d.as_millis()
}

/// Options of a request: an optional timeout, held as whole milliseconds.
#[derive(Clone, Copy, Debug)]
pub struct RequestOptions {
    timeout_ms: Option<u128>,
}

impl RequestOptions {
    /// The timeout in milliseconds, if one was set.
    pub closed spec fn spec_timeout(&self) -> Option<u128> {
        self.timeout_ms
    }

    /// Options with no timeout.
    pub fn new() -> (r: Self)
        ensures
            r.spec_timeout() is None,
    {
        RequestOptions { timeout_ms: None }
    }

    /// These options with the timeout set to `timeout`.
    pub fn timeout(self, timeout: Duration) -> (r: Self)
        ensures
            r.spec_timeout() is Some,
    {
        RequestOptions { timeout_ms: Some(duration_millis(timeout)) }
    }

    /// These options with the timeout set to `ms` milliseconds.
    pub fn timeout_millis(self, ms: u128) -> (r: Self)
        ensures
            r.spec_timeout() == Some(ms),
    {
        RequestOptions { timeout_ms: Some(ms) }
    }

    /// The timeout in milliseconds, if one was set.
    pub fn timeout_ms(&self) -> (r: Option<u128>)
        ensures
            r == self.spec_timeout(),
    {
        self.timeout_ms
    }
}

/// Options of a get.
pub type GetOptions = RequestOptions;

/// Options of an upsert.
pub type UpsertOptions = RequestOptions;

/// Options of an insert.
pub type InsertOptions = RequestOptions;

/// Options of a replace.
pub type ReplaceOptions = RequestOptions;

/// Options of a remove.
pub type RemoveOptions = RequestOptions;

} // verus!
