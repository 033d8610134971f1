//! Cooperative cancellation: work stops when the server shuts down or the
//! request deadline passes.
use vstd::prelude::*;

verus! {

/// Why work stopped early.
#[derive(Clone, Copy, Debug, PartialEq, Eq, Structural)]
pub enum Stopped {
    /// Shutdown requested.
    Shutdown,
    /// Request deadline exceeded.
    Deadline,
}

/// The message reported for a stop.
pub open spec fn stopped_message(s: Stopped) -> &'static str {
    match s {
        Stopped::Shutdown => "shutdown requested",
        Stopped::Deadline => "request deadline exceeded",
    }
}

impl Stopped {
    pub fn message(self) -> (r: &'static str)
        ensures
            r == stopped_message(self),
    {
        match self {
            Stopped::Shutdown => "shutdown requested",
            Stopped::Deadline => "request deadline exceeded",
        }
    }
}

/// Shutdown takes precedence over the deadline; work may go on only before
/// the deadline.
pub open spec fn work_check_result(cancelled: bool, now: u64, deadline: u64) -> Result<(), Stopped> {
    if cancelled {
        Err(Stopped::Shutdown)
    } else if now >= deadline {
        Err(Stopped::Deadline)
    } else {
        Ok(())
    }
}

pub fn check_work(cancelled: bool, now: u64, deadline: u64) -> (r: Result<(), Stopped>)
    ensures
        r == work_check_result(cancelled, now, deadline),
{
    if cancelled {
        Err(Stopped::Shutdown)
    } else if now >= deadline {
        Err(Stopped::Deadline)
    } else {
        Ok(())
    }
}

} // verus!

verus! {

#[verifier::external_type_specification]
#[verifier::external_body]
#[verifier::reject_recursive_types(T)]
pub struct ExWatchSender<T>(tokio::sync::watch::Sender<T>);

#[verifier::external_type_specification]
#[verifier::external_body]
pub struct ExInstant(std::time::Instant);

/// `Clone` of a watch sender: another handle on the same channel.
pub assume_specification<T>[ <tokio::sync::watch::Sender<T> as std::clone::Clone>::clone ](
    sender: &tokio::sync::watch::Sender<T>,
) -> tokio::sync::watch::Sender<T>;

/// Shared cancellation for the server and the display loop: a watch channel
/// holding whether shutdown was requested.
#[derive(Clone)]
pub struct Shutdown {
    pub sender: tokio::sync::watch::Sender<bool>,
}

impl Shutdown {
    /// `tokio::sync::watch::channel(false)`: a channel that starts out "not cancelled".
    #[verifier::external_body]
    pub fn new() -> Shutdown {
        Shutdown { sender: tokio::sync::watch::channel(false).0 }
    }

    /// `watch::Sender::send_replace(true)`: request shutdown, seen by every clone.
    #[verifier::external_body]
    pub fn cancel(&self) {
        self.sender.send_replace(true);
    }

    /// `watch::Sender::borrow`: the latest value. Other threads may cancel at
    /// any time, so nothing is stated of the answer.
    #[verifier::external_body]
    pub fn is_cancelled(&self) -> bool {
        *self.sender.borrow()
    }
}

/// Monotonic milliseconds since an origin fixed when the clock was made.
pub struct Clock {
    origin: std::time::Instant,
}

impl Clock {
    /// `Instant::now`: the origin.
    #[verifier::external_body]
    pub fn start() -> Clock {
        Clock { origin: std::time::Instant::now() }
    }

    /// `Instant::elapsed` in whole milliseconds. The reading depends on the
    /// time, so nothing is stated of it.
    #[verifier::external_body]
    pub fn now_millis(&self) -> u64 {
        self.origin.elapsed().as_millis() as u64
    }
}

/// A unit of request work: it stops on shutdown or at its deadline.
pub struct Work<'a> {
    pub shutdown: &'a Shutdown,
    pub clock: &'a Clock,
    pub deadline: u64,
}

impl<'a> Work<'a> {
    /// Shutdown first, then the deadline, read now: the answer of
    /// `check_work` for the cancellation flag and the clock as they were read.
    pub fn check(&self) -> (r: Result<(), Stopped>)
        ensures
            exists|cancelled: bool, now: u64| r == #[trigger] work_check_result(cancelled, now, self.deadline),
    {
        let cancelled = self.shutdown.is_cancelled();
        let now = self.clock.now_millis();
        let r = check_work(cancelled, now, self.deadline);
        assert(r == work_check_result(cancelled, now, self.deadline));
        r
    }

    /// The same shutdown, with a deadline `span` after now but no later than this one.
    pub fn narrowed(&self, span: u64) -> (r: Work<'a>)
        ensures
            r.deadline <= self.deadline,
            r.shutdown == self.shutdown,
            r.clock == self.clock,
            exists|now: u64| r.deadline == #[trigger] crate::playback::bounded_deadline(now, span, self.deadline),
    {
        let now = self.clock.now_millis();
        Work {
            shutdown: self.shutdown,
            clock: self.clock,
            deadline: crate::playback::deadline_within(now, span, self.deadline),
        }
    }
}

} // verus!
