use vstd::prelude::*;

verus! {

#[verifier::external_type_specification]
#[verifier::external_body]
pub struct ExInstant(std::time::Instant);

/// Calls `Instant::now()`. The value depends on the clock; nothing is claimed.
#[verifier::external_body]
fn now() -> std::time::Instant {
    std::time::Instant::now()
}

/// Calls `Instant::elapsed()`. The value depends on the clock; nothing is
/// claimed.
#[verifier::external_body]
fn elapsed_since(start: &std::time::Instant) -> std::time::Duration {
    start.elapsed()
}

/// Calls `Duration::as_nanos()`. Nothing is claimed of the count.
#[verifier::external_body]
fn in_nanos(duration: std::time::Duration) -> u128 {
    duration.as_nanos()
}

/// Whether errors have gone on for longer than `limit_nanos`, given how long
/// ago the first one was seen (`None` when there is no error).
pub fn error_duration_exceeded(elapsed_nanos: Option<u128>, limit_nanos: u128) -> (passed: bool)
    ensures
        passed == match elapsed_nanos {
            Some(e) => e > limit_nanos,
            None => false,
        },
{
    match elapsed_nanos {
        Some(e) => e > limit_nanos,
        None => false,
    }
}

/// Remembers when the current run of errors began.
pub struct ErrorTimer {
    first_error_time: Option<std::time::Instant>,
}

impl ErrorTimer {
    /// Whether an error is being timed.
    pub closed spec fn is_timing(&self) -> bool {
        self.first_error_time is Some
    }

    /// When the current run of errors began.
    pub closed spec fn started(&self) -> Option<std::time::Instant> {
        self.first_error_time
    }

    pub fn new() -> (timer: Self)
        ensures
            !timer.is_timing(),
    {
        ErrorTimer { first_error_time: None }
    }

    /// Starts timing at the current instant, unless an error is timed already.
    pub fn save_first_error_time(&mut self)
        ensures
            final(self).is_timing(),
            old(self).is_timing() ==> final(self).started() == old(self).started(),
    {
        if self.first_error_time.is_none() {
            self.first_error_time = Some(now());
        }
    }

    /// Stops timing.
    pub fn reset_error_time(&mut self)
        ensures
            !final(self).is_timing(),
    {
        self.first_error_time = None;
    }

    /// Whether errors have gone on for longer than `limit_nanos`; never while no
    /// error is timed. While one is timed, the answer is [`error_duration_exceeded`]
    /// of the time the clock reports since the first error, which no clause
    /// can fix in advance.
    pub fn has_error_duration_passed(&self, limit_nanos: u128) -> (passed: bool)
        ensures
            !self.is_timing() ==> !passed,
    {
        let elapsed = match &self.first_error_time {
            Some(start) => Some(in_nanos(elapsed_since(start))),
            None => None,
        };
        error_duration_exceeded(elapsed, limit_nanos)
    }
}

} // verus!
