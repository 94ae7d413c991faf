use crate::acquire::{advance_spec, Acquire, Step};
use crate::permits::{apply_change, grant_from, next_count, CountChange};
use event_listener::{Event, EventListener};
use std::sync::atomic::{AtomicUsize, Ordering};
use std::sync::Arc;
use vstd::prelude::*;

verus! {

#[verifier::external_type_specification]
#[verifier::external_body]
pub struct ExEvent(Event);

#[verifier::external_type_specification]
#[verifier::external_body]
pub struct ExEventListener(EventListener);

/// Relies on event_listener's `Event::new`: an event with no listeners.
pub assume_specification[ Event::new ]() -> Event;

/// Relies on event_listener's `Event::listen`: registers a listener that a
/// later notification of the event wakes.
pub assume_specification[ Event::listen ](e: &Event) -> EventListener;

/// Relies on event_listener's `Event::notify`: makes sure at least `n` of the
/// registered listeners are notified.
pub assume_specification[ Event::notify ](e: &Event, n: usize);

/// Relies on std's `AtomicUsize::fetch_update`, which retries a
/// compare-and-swap until it stores what the function computed from the
/// current value, and returns `Ok` with the value it replaced; when the
/// function declines (`None`) it stores nothing and returns `Err` with the
/// value it saw.
#[verifier::external_body]
fn update_count(count: &AtomicUsize, change: CountChange) -> (r: Result<usize, usize>)
    ensures
        match r {
            Ok(previous) => next_count(previous, change) is Some,
            Err(previous) => next_count(previous, change) is None,
        },
{
    count.fetch_update(Ordering::AcqRel, Ordering::Acquire, |b| apply_change(b, change))
}

/// The shared state: the number of available permits and the channel on
/// which callers wait for more.
#[derive(Debug)]
pub(crate) struct SemaphoreInner {
    count: AtomicUsize,
    event: Event,
}

impl SemaphoreInner {
    pub fn new(n: usize) -> (r: SemaphoreInner) {
        SemaphoreInner { count: AtomicUsize::new(n), event: Event::new() }
    }

    /// Takes up to `count` permits in one atomic step and returns how many
    /// it took: all of them when enough are available, else all that are
    /// left, and none when the pool is empty.
    pub fn try_acquire(&self, count: usize) -> (r: usize)
        ensures
            r <= count,
            exists|previous: usize| r == crate::permits::granted(previous as nat, count as nat),
    {
        match update_count(&self.count, CountChange::Take(count)) {
            Ok(previous) => grant_from(previous, count),
            Err(previous) => {
                assert(previous == 0);
                0
            },
        }
    }

    /// Tries the count for the rest of `op` and decides what its caller does
    /// next.
    pub fn poll(&self, op: &mut Acquire) -> (s: Step)
        requires
            old(op)@.wf(),
        ensures
            exists|grant: nat|
                grant <= old(op)@.remaining() && (final(op)@, s) == advance_spec(
                    old(op)@,
                    grant,
                ),
            final(op)@.wf(),
    {
        let remaining = op.remaining();
        let grant = self.try_acquire(remaining);
        op.advance(grant)
    }

    pub fn add_permits(&self, n: usize) {
        let _ = update_count(&self.count, CountChange::Give(n));
        self.event.notify(n);
    }
}

/// A counter for limiting the number of concurrent operations.
#[derive(Debug, Clone)]
pub struct Semaphore {
    inner: Arc<SemaphoreInner>,
}

impl Semaphore {
    /// Creates a new semaphore with a limit of `n` concurrent operations.
    pub fn new(n: usize) -> (r: Semaphore) {
        Semaphore { inner: Arc::new(SemaphoreInner::new(n)) }
    }

    /// Attempts to get a permit for a concurrent operation, without waiting.
    /// Returns whether a permit has been acquired.
    pub fn try_acquire(&self) -> (r: bool) {
        self.inner.try_acquire(1) > 0
    }

    /// Attempts to get up to `count` permits without waiting. Returns how many
    /// were acquired: all of them when enough are available, else all that
    /// were left.
    pub fn try_acquire_n(&self, count: usize) -> (r: usize)
        ensures
            r <= count,
            exists|previous: usize| r == crate::permits::granted(previous as nat, count as nat),
    {
        self.inner.try_acquire(count)
    }

    /// Adds `n` permits and wakes up to `n` waiting callers. The count
    /// saturates at `usize::MAX` rather than wrapping.
    pub fn add_permits(&self, n: usize) {
        self.inner.add_permits(n)
    }

    /// The number of permits available at the moment of the call.
    pub fn available(&self) -> (r: usize) {
        self.inner.count.load(Ordering::Acquire)
    }

    /// Registers a listener that the next `add_permits` may wake.
    pub fn listen(&self) -> (r: EventListener) {
        self.inner.event.listen()
    }

    /// Makes one attempt on behalf of `op`: takes what it can of the permits
    /// still outstanding and says whether the request is met, or whether its
    /// caller registers a listener or suspends on the one registered before.
    pub fn poll_acquire(&self, op: &mut Acquire) -> (s: Step)
        requires
            old(op)@.wf(),
        ensures
            exists|grant: nat|
                grant <= old(op)@.remaining() && (final(op)@, s) == advance_spec(
                    old(op)@,
                    grant,
                ),
            final(op)@.wf(),
            old(op)@.is_complete() ==> s == Step::Done && final(op)@ == old(op)@,
    {
        self.inner.poll(op)
    }

    /// Decides the outcome of a request that is being abandoned, once:
    /// a complete request keeps its permits (`true`); otherwise the permits
    /// it had obtained go back to the pool, the request starts over from
    /// nothing, and the answer is `false`.
    pub fn cancel_acquire(&self, op: &mut Acquire) -> (kept: bool)
        requires
            old(op)@.wf(),
        ensures
            kept == old(op)@.is_complete(),
            kept ==> final(op)@ == old(op)@,
            !kept ==> final(op)@.acquired == 0 && final(op)@.requested == old(op)@.requested
                && !final(op)@.listening,
    {
        match op.settle() {
            None => true,
            Some(refund) => {
                self.inner.add_permits(refund);
                false
            },
        }
    }
}

} // verus!
