use vstd::prelude::*;
use crate::error::Error;

verus! {

/// The OS value for a wait without end, in milliseconds.
pub const INFINITE_MS: u32 = 0xFFFF_FFFF;

/// How long a blocking call may wait.
#[derive(Debug, Clone, Copy, PartialEq, Eq, Structural)]
pub enum Timeout {
    /// Wait until the primitive is available.
    Infinite,
    /// Wait at most this many milliseconds.
    Millis(u64),
}

/// The millisecond count handed to an OS wait: the infinite value for an
/// infinite timeout, and a finite one otherwise, capped just below it.
pub open spec fn os_millis_of(t: Timeout) -> u32 {
    match t {
        Timeout::Infinite => INFINITE_MS,
        Timeout::Millis(ms) => if ms >= INFINITE_MS as u64 {
            (INFINITE_MS - 1) as u32
        } else {
            ms as u32
        },
    }
}

pub fn os_millis(t: Timeout) -> (r: u32)
    ensures
        r == os_millis_of(t),
        t is Millis ==> r < INFINITE_MS && r as u64 <= t->Millis_0,
{
    match t {
        Timeout::Infinite => INFINITE_MS,
        Timeout::Millis(ms) => {
            if ms >= INFINITE_MS as u64 {
                INFINITE_MS - 1
            } else {
                ms as u32
            }
        },
    }
}

/// How an OS wait on a lock or event ended.
#[derive(Debug, Clone, Copy, PartialEq, Eq, Structural)]
pub enum WaitStatus {
    /// The object was acquired or signalled.
    Signaled,
    /// The lock was acquired, but its previous holder ended while holding it.
    Abandoned,
    /// The timeout elapsed first.
    TimedOut,
    /// The wait failed with this OS status code.
    Failed(u32),
}

/// The result of acquiring a lock after a wait that ended with `s`. An
/// abandoned lock is reported as `LockAbandoned`, never granted silently.
pub open spec fn acquire_result_of(s: WaitStatus) -> Result<(), Error> {
    match s {
        WaitStatus::Signaled => Ok(()),
        WaitStatus::Abandoned => Err(Error::LockAbandoned),
        WaitStatus::TimedOut => Err(Error::Timeout),
        WaitStatus::Failed(c) => Err(Error::UnknownOsError(c)),
    }
}

pub fn acquire_result(s: WaitStatus) -> (r: Result<(), Error>)
    ensures
        r == acquire_result_of(s),
{
    match s {
        WaitStatus::Signaled => Ok(()),
        WaitStatus::Abandoned => Err(Error::LockAbandoned),
        WaitStatus::TimedOut => Err(Error::Timeout),
        WaitStatus::Failed(c) => Err(Error::UnknownOsError(c)),
    }
}

/// The two states of an event.
#[derive(Debug, Clone, Copy, PartialEq, Eq, Structural)]
pub enum EventState {
    Cleared,
    Signaled,
}

/// The state an event keeps: whether it is signalled, and whether a
/// successful wait leaves it so (manual reset) or clears it (auto reset).
#[derive(Debug, Clone, Copy, PartialEq, Eq, Structural)]
pub struct EventControl {
    pub state: EventState,
    pub manual_reset: bool,
}

/// The state after one wait on `e`, and whether that wait saw the signal.
pub open spec fn wait_of(e: EventControl) -> (EventControl, bool) {
    match e.state {
        EventState::Signaled => if e.manual_reset {
            (e, true)
        } else {
            (EventControl { state: EventState::Cleared, ..e }, true)
        },
        EventState::Cleared => (e, false),
    }
}

impl EventControl {
    /// A freshly formatted event, cleared.
    pub fn format(manual_reset: bool) -> (r: EventControl)
        ensures
            r == (EventControl { state: EventState::Cleared, manual_reset }),
    {
        EventControl { state: EventState::Cleared, manual_reset }
    }

    pub fn set(&mut self, state: EventState)
        ensures
            *final(self) == (EventControl { state, ..*old(self) }),
    {
        self.state = state;
    }

    /// One wait that ends at once: `Ok` where the event is signalled, which
    /// clears it unless it is manual reset, in the same step; `Timeout`
    /// otherwise, with nothing changed.
    pub fn try_wait(&mut self) -> (r: Result<(), Error>)
        ensures
            *final(self) == wait_of(*old(self)).0,
            r == if wait_of(*old(self)).1 { Ok::<(), Error>(()) } else { Err(Error::Timeout) },
    {
        match self.state {
            EventState::Signaled => {
                if !self.manual_reset {
                    self.state = EventState::Cleared;
                }
                Ok(())
            },
            EventState::Cleared => Err(Error::Timeout),
        }
    }
}

/// An auto-reset event that was set is seen as signalled by exactly one
/// wait; the wait after it times out.
pub proof fn lemma_auto_reset_single_wake(e: EventControl)
    requires
        !e.manual_reset,
    ensures
        ({
            let s = EventControl { state: EventState::Signaled, ..e };
            &&& wait_of(s).1
            &&& wait_of(s).0.state == EventState::Cleared
            &&& !wait_of(wait_of(s).0).1
        }),
{
}

/// A manual-reset event that was set stays signalled for every wait.
pub proof fn lemma_manual_reset_stays(e: EventControl)
    requires
        e.manual_reset,
        e.state == EventState::Signaled,
    ensures
        wait_of(e) == (e, true),
{
}

} // verus!
