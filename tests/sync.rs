use shared_memory::bringup::{Action, BringUp, Report, Role, FLAG_READY, FLAG_UNSET};
use shared_memory::layout::{Cursor, INIT_FLAG_LEN};
use shared_memory::sync::{
    acquire_result, os_millis, EventControl, EventState, Timeout, WaitStatus, INFINITE_MS,
};
use shared_memory::Error;

#[test]
fn timeouts_become_os_millis() {
    assert_eq!(os_millis(Timeout::Infinite), INFINITE_MS);
    assert_eq!(os_millis(Timeout::Millis(250)), 250);
    assert_eq!(os_millis(Timeout::Millis(u64::MAX)), 0xFFFF_FFFE);
    assert_eq!(os_millis(Timeout::Millis(0xFFFF_FFFF)), 0xFFFF_FFFE);
}

#[test]
fn wait_statuses_become_results() {
    assert_eq!(acquire_result(WaitStatus::Signaled), Ok(()));
    assert_eq!(acquire_result(WaitStatus::Abandoned), Err(Error::LockAbandoned));
    assert_eq!(acquire_result(WaitStatus::TimedOut), Err(Error::Timeout));
    assert_eq!(acquire_result(WaitStatus::Failed(87)), Err(Error::UnknownOsError(87)));
}

#[test]
fn auto_reset_event_wakes_one_wait() {
    let mut e = EventControl::format(false);
    assert_eq!(e.try_wait(), Err(Error::Timeout));
    e.set(EventState::Signaled);
    assert_eq!(e.try_wait(), Ok(()));
    assert_eq!(e.state, EventState::Cleared);
    assert_eq!(e.try_wait(), Err(Error::Timeout));
}

#[test]
fn manual_reset_event_stays_signaled() {
    let mut e = EventControl::format(true);
    e.set(EventState::Signaled);
    assert_eq!(e.try_wait(), Ok(()));
    assert_eq!(e.try_wait(), Ok(()));
    e.set(EventState::Cleared);
    assert_eq!(e.try_wait(), Err(Error::Timeout));
}

#[test]
fn cursor_places_blocks_in_order() {
    let mut c = Cursor::after_flag(4096);
    assert_eq!(c.offset(), INIT_FLAG_LEN);
    assert_eq!(c.place(16, 1), Some((8, 24)));
    assert_eq!(c.offset(), 25);
    assert_eq!(c.reserve(4071), Some(25));
    assert_eq!(c.remaining(), 0);
    assert_eq!(c.reserve(1), None);
    assert_eq!(c.reserve(0), Some(4096));
}

#[test]
fn cursor_refuses_what_does_not_fit() {
    let mut c = Cursor::new(32);
    assert_eq!(c.place(16, 17), None);
    assert_eq!(c.offset(), 0);
    assert_eq!(c.place(usize::MAX, 1), None);
    assert_eq!(Cursor::after_flag(4).offset(), 4);
}

#[test]
fn formatter_clears_formats_then_publishes() {
    let (mut b, first) = BringUp::start(true);
    assert_eq!(b.role(), Role::Formatter);
    assert_eq!(first, Action::StoreFlag(FLAG_UNSET));
    assert_eq!(b.advance(Report::Completed), Action::Format);
    assert_eq!(b.advance(Report::Completed), Action::StoreFlag(FLAG_READY));
    assert!(!b.is_ready());
    assert_eq!(b.advance(Report::Completed), Action::Proceed);
    assert!(b.is_ready());
}

#[test]
fn attacher_polls_until_ready() {
    let (mut b, first) = BringUp::start(false);
    assert_eq!(b.role(), Role::Attacher);
    assert_eq!(first, Action::LoadFlag);
    assert_eq!(b.advance(Report::Loaded(0)), Action::LoadFlag);
    assert_eq!(b.advance(Report::Loaded(7)), Action::LoadFlag);
    assert_eq!(b.advance(Report::Completed), Action::LoadFlag);
    assert_eq!(b.advance(Report::Loaded(1)), Action::Attach);
    assert_eq!(b.advance(Report::Completed), Action::Proceed);
    assert!(b.is_ready());
}
