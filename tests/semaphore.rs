use async_sema::{apply_change, grant_from, Acquire, CountChange, Semaphore, Step};
use std::time::Duration;

fn acquire_now(s: &Semaphore, count: usize) -> bool {
    let mut op = Acquire::new(count);
    s.poll_acquire(&mut op) == Step::Done
}

#[test]
fn scenario_two_acquires_then_try() {
    let s = Semaphore::new(2);
    assert!(acquire_now(&s, 1));
    assert!(acquire_now(&s, 1));
    assert!(!s.try_acquire());
    s.add_permits(1);
    assert!(s.try_acquire());
}

#[test]
fn add_permits_on_empty_semaphore() {
    let s = Semaphore::new(0);
    assert!(!s.try_acquire());
    s.add_permits(1);
    assert!(s.try_acquire());
}

#[test]
fn scenario_timeout_with_no_permits() {
    let s = Semaphore::new(0);
    let mut op = Acquire::new(1);
    assert_eq!(s.poll_acquire(&mut op), Step::Listen);
    let listener = s.listen();
    assert_eq!(s.poll_acquire(&mut op), Step::Wait);
    assert!(!listener.wait_timeout(Duration::from_millis(100)));
    assert!(!s.cancel_acquire(&mut op));
    assert_eq!(s.available(), 0);
}

#[test]
fn scenario_batch_meets_added_permits() {
    let s = Semaphore::new(3);
    let mut op = Acquire::new(5);
    assert_eq!(s.poll_acquire(&mut op), Step::Listen);
    assert_eq!(op.acquired(), 3);
    assert_eq!(s.available(), 0);
    let listener = s.listen();
    assert_eq!(s.poll_acquire(&mut op), Step::Wait);
    s.add_permits(2);
    listener.wait();
    assert_eq!(s.poll_acquire(&mut op), Step::Done);
    assert_eq!(op.acquired(), 5);
    assert_eq!(s.available(), 0);
}

#[test]
fn conservation_over_a_sequence() {
    let s = Semaphore::new(4);
    let mut held: usize = 0;
    let mut added: usize = 0;
    for (take, add) in [(3usize, 0usize), (2, 5), (1, 0), (9, 2)] {
        let mut op = Acquire::new(take);
        let _ = s.poll_acquire(&mut op);
        held += op.acquired();
        s.add_permits(add);
        added += add;
        assert_eq!(s.available() + held, 4 + added);
    }
}

#[test]
fn one_permit_is_granted_once() {
    let s = Semaphore::new(1);
    let t = s.clone();
    assert!(s.try_acquire());
    assert!(!t.try_acquire());
    assert_eq!(s.available(), 0);
}

#[test]
fn timeout_refunds_partial_grant() {
    let s = Semaphore::new(3);
    let mut op = Acquire::new(5);
    assert_eq!(s.poll_acquire(&mut op), Step::Listen);
    assert_eq!(s.available(), 0);
    assert!(!s.cancel_acquire(&mut op));
    assert_eq!(s.available(), 3);
    assert_eq!(op.acquired(), 0);
    assert!(!s.cancel_acquire(&mut op));
    assert_eq!(s.available(), 3);
}

#[test]
fn cancel_after_completion_keeps_permits() {
    let s = Semaphore::new(3);
    let mut op = Acquire::new(2);
    assert_eq!(s.poll_acquire(&mut op), Step::Done);
    assert!(s.cancel_acquire(&mut op));
    assert_eq!(s.available(), 1);
    assert_eq!(op.acquired(), 2);
}

#[test]
fn waiter_wakes_after_one_permit() {
    let s = Semaphore::new(0);
    let mut op = Acquire::new(1);
    assert_eq!(s.poll_acquire(&mut op), Step::Listen);
    let listener = s.listen();
    assert_eq!(s.poll_acquire(&mut op), Step::Wait);
    let other = s.clone();
    other.add_permits(1);
    listener.wait();
    assert_eq!(s.poll_acquire(&mut op), Step::Done);
    assert_eq!(s.available(), 0);
}

#[test]
fn listen_then_recheck_sees_permits() {
    let s = Semaphore::new(0);
    let mut op = Acquire::new(2);
    assert_eq!(s.poll_acquire(&mut op), Step::Listen);
    s.add_permits(2);
    assert_eq!(s.poll_acquire(&mut op), Step::Done);
}

#[test]
fn request_for_zero_is_met_at_once() {
    let s = Semaphore::new(0);
    let mut op = Acquire::new(0);
    assert_eq!(s.poll_acquire(&mut op), Step::Done);
    let t = Semaphore::new(4);
    assert!(acquire_now(&t, 0));
    assert_eq!(t.available(), 4);
}

#[test]
fn add_permits_saturates() {
    let s = Semaphore::new(usize::MAX - 1);
    s.add_permits(5);
    assert_eq!(s.available(), usize::MAX);
}

#[test]
fn add_zero_permits_changes_nothing() {
    let s = Semaphore::new(2);
    s.add_permits(0);
    assert_eq!(s.available(), 2);
}

#[test]
fn take_changes() {
    assert_eq!(apply_change(3, CountChange::Take(5)), Some(0));
    assert_eq!(apply_change(3, CountChange::Take(2)), Some(1));
    assert_eq!(apply_change(3, CountChange::Take(0)), Some(3));
    assert_eq!(apply_change(0, CountChange::Take(1)), None);
}

#[test]
fn give_changes() {
    assert_eq!(apply_change(3, CountChange::Give(4)), Some(7));
    assert_eq!(apply_change(usize::MAX - 1, CountChange::Give(2)), Some(usize::MAX));
    assert_eq!(apply_change(0, CountChange::Give(0)), Some(0));
}

#[test]
fn grant_is_the_smaller() {
    assert_eq!(grant_from(3, 5), 3);
    assert_eq!(grant_from(7, 2), 2);
    assert_eq!(grant_from(0, 1), 0);
}

#[test]
fn advance_steps() {
    let mut op = Acquire::new(4);
    assert_eq!(op.advance(1), Step::Listen);
    assert_eq!(op.advance(0), Step::Wait);
    assert_eq!(op.advance(2), Step::Listen);
    assert_eq!(op.remaining(), 1);
    assert_eq!(op.advance(1), Step::Done);
    assert_eq!(op.requested(), 4);
}

#[test]
fn settle_refunds_partial() {
    let mut op = Acquire::new(4);
    let _ = op.advance(3);
    assert_eq!(op.settle(), Some(3));
    assert_eq!(op.settle(), Some(0));
    let mut done = Acquire::new(2);
    let _ = done.advance(2);
    assert_eq!(done.settle(), None);
}

#[test]
fn partial_try_acquire_takes_what_is_left() {
    let s = Semaphore::new(2);
    let mut op = Acquire::new(3);
    assert_eq!(s.poll_acquire(&mut op), Step::Listen);
    assert_eq!(op.acquired(), 2);
    assert_eq!(s.available(), 0);
}

#[test]
fn try_acquire_n_takes_up_to_count() {
    let s = Semaphore::new(3);
    assert_eq!(s.try_acquire_n(2), 2);
    assert_eq!(s.available(), 1);
    assert_eq!(s.try_acquire_n(5), 1);
    assert_eq!(s.try_acquire_n(1), 0);
    assert_eq!(s.available(), 0);
}
