//! A single-slot waker cell.
//!
//! A `Notifier` records the most recently interested task's wake handle and
//! wakes it exactly once when notified. The slot holds at most one handle at
//! any instant; `subscribe` replaces any previous entry (last subscriber
//! wins), and `notify` takes the stored handle, if any, and invokes it.
//!
//! The slot itself lives behind a mutex so that subscribers and notifiers on
//! different threads exchange the handle atomically. What one exchange does
//! to the slot is captured by the spec functions [`spec_subscribe`] and
//! [`spec_notify`]; the wake-delivery laws below are proved over them.

use vstd::prelude::*;
use core::task::Waker;
use std::sync::Mutex;

verus! {

#[verifier::external_type_specification]
#[verifier::external_body]
pub struct ExWaker(Waker);

#[verifier::external_type_specification]
#[verifier::external_body]
#[verifier::reject_recursive_types(T)]
pub struct ExMutex<T: ?Sized>(Mutex<T>);

/// Relies on `std::sync::Mutex::new`: creates a mutex holding the given
/// slot value.
#[verifier::external_body]
fn slot_new(initial: Option<Waker>) -> Mutex<Option<Waker>> {
    Mutex::new(initial)
}

/// Relies on `std::sync::Mutex::lock` and `core::mem::replace`: atomically
/// exchanges the stored slot for `new` and returns the previous slot. A
/// poisoned lock is entered anyway, since the slot holds no invariant that a
/// panic elsewhere could break; no path here panics.
#[verifier::external_body]
fn slot_swap(slot: &Mutex<Option<Waker>>, new: Option<Waker>) -> (prev: Option<Waker>)
    opens_invariants none
    no_unwind
{
    let mut guard = match slot.lock() {
        Ok(guard) => guard,
        Err(poisoned) => poisoned.into_inner(),
    };
    core::mem::replace(&mut *guard, new)
}

/// Relies on `std::task::Waker::wake`: requests that the task behind the
/// handle be rescheduled. The handle runs arbitrary executor code, which may
/// panic, so nothing is claimed of the call.
#[verifier::external_body]
fn wake_taken(taken: Option<Waker>) {
    if let Some(waker) = taken {
        waker.wake()
    }
}

/// Relies on `std::task::Waker::wake`, as [`wake_taken`] does, and in
/// addition treats the call as non-unwinding. That is an assumption, not a
/// documented guarantee: a waker built to panic when woken breaks it. It is
/// carried by this one item because a destructor must not unwind under
/// Verus's rules, yet the sender's destructor must deliver the close wake;
/// only the destructor path calls this.
#[verifier::external_body]
fn wake_taken_unwind_free(taken: Option<Waker>)
    opens_invariants none
    no_unwind
{
    if let Some(waker) = taken {
        waker.wake()
    }
}

/// Relies on `std::task::Waker::clone`: the returned handle wakes the same
/// task as the original. That the clone is the very same value is not
/// promised by std, so no equality is claimed.
#[verifier::external_body]
pub(crate) fn clone_waker(waker: &Waker) -> Waker {
    waker.clone()
}

/// What `subscribe` does to the slot: the new handle replaces any previous
/// entry, so only the most recent subscriber is guaranteed the next wake.
pub open spec fn spec_subscribe(slot: Option<Waker>, waker: Waker) -> Option<Waker> {
    Some(waker)
}

/// What `notify` does: the pair of the slot afterwards (always emptied) and
/// the handle that is woken (the previous slot content, if any).
pub open spec fn spec_notify(slot: Option<Waker>) -> (Option<Waker>, Option<Waker>) {
    (None, slot)
}

/// Wakeup delivery: a subscribed handle is woken exactly once by the next
/// notification. Notifying delivers the wake to precisely the registered
/// handle, empties the slot, and a second notification therefore wakes
/// nobody. A handle is woken only by a notification, so with no notification
/// there is no wake at all.
pub proof fn lemma_wake_exactly_once(slot: Option<Waker>, waker: Waker)
    ensures
        spec_notify(spec_subscribe(slot, waker)).1 == Some(waker),
        spec_notify(spec_subscribe(slot, waker)).0 == None::<Waker>,
        spec_notify(spec_notify(spec_subscribe(slot, waker)).0).1 == None::<Waker>,
{
}

/// Notifying with no subscriber is a safe no-op: nobody is woken and the
/// slot stays empty.
pub proof fn lemma_notify_without_subscriber()
    ensures
        spec_notify(None::<Waker>) == (None::<Waker>, None::<Waker>),
{
}

/// Last subscriber wins: of two subscriptions, only the later one is held in
/// the slot, so only the most recent subscriber is guaranteed delivery.
pub proof fn lemma_last_subscriber_wins(slot: Option<Waker>, first: Waker, second: Waker)
    ensures
        spec_subscribe(spec_subscribe(slot, first), second) == Some(second),
{
}

/// A single-slot waker cell: owns zero or one pending wake handle.
pub struct Notifier {
    slot: Mutex<Option<Waker>>,
}

impl Notifier {
    /// Creates a notifier with no subscriber.
    pub fn new() -> Notifier {
        Notifier { slot: slot_new(None) }
    }

    /// Stores `waker`, overwriting any previous entry, as [`spec_subscribe`]
    /// describes. A task calls this after observing "not ready yet" and
    /// before its final re-check, so that a racing notification cannot be
    /// missed.
    pub fn subscribe(&self, waker: Waker) {
        let _previous = slot_swap(&self.slot, Some(waker));
    }

    /// Takes the stored handle, if any, and wakes it, as [`spec_notify`]
    /// describes; with no subscriber this is a no-op.
    pub fn notify(&self) {
        let taken = slot_swap(&self.slot, None);
        wake_taken(taken);
    }

    /// The destructor's form of [`notify`]: the same exchange and the same
    /// wake, delivered through the one wake call that is assumed not to
    /// unwind, since a destructor must not.
    pub(crate) fn notify_on_drop(&self)
        opens_invariants none
        no_unwind
    {
        let taken = slot_swap(&self.slot, None);
        wake_taken_unwind_free(taken);
    }
}

} // verus!
