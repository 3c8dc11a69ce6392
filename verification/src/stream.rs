//! The cooperative polling contract: the result types of a single poll
//! attempt (`PollRecv`, `PollSend`), the `Stream` and `Sink` traits that the
//! primitives implement, and the verified mappings from a poll result to the
//! non-suspending (`try_recv`) and future-driving forms.

use vstd::prelude::*;
use core::task::Waker;

verus! {

/// Result of a single receive poll attempt.
#[derive(Debug, Clone, PartialEq, Eq)]
pub enum PollRecv<T> {
    /// An item is ready; the stream may still be polled again.
    Ready(T),
    /// No item yet; the caller's waker has been registered.
    Pending,
    /// Terminal: no item will ever come.
    Closed,
}

/// Result of a single send poll attempt.
#[derive(Debug, Clone, PartialEq, Eq)]
pub enum PollSend<T> {
    /// The value was accepted.
    Ready,
    /// The value was refused and is handed back to the caller.
    Rejected(T),
}

/// Error of a non-suspending receive attempt.
#[derive(Debug, Clone, PartialEq, Eq)]
pub enum TryRecvError {
    /// The stream may produce an item at a later time.
    Pending,
    /// The stream is closed, and will never produce an item.
    Rejected,
}

/// Relies on `futures_task::noop_waker`: a wake handle whose wake is a
/// no-op, for polls whose caller will not suspend.
#[verifier::external_body]
fn noop_handle() -> Waker {
    futures_task::noop_waker()
}

/// A source of items, driven by repeated non-blocking polls. On `Pending`
/// the implementation has already registered `waker` with its notifier, so
/// the caller may suspend and will be woken when progress is possible.
pub trait Stream {
    type Item;

    /// One non-blocking receive attempt: an item, a registered wait, or the
    /// terminal `Closed`.
    fn poll_recv(&mut self, waker: &Waker) -> PollRecv<Self::Item>;

    /// Non-suspending receive: polls once with a no-op waker and reports a
    /// `Pending` poll as a retryable error, a `Closed` poll as the terminal
    /// one, exactly as [`spec_poll_to_try`] maps them.
    fn try_recv(&mut self) -> (r: Result<Self::Item, TryRecvError>) {
        let waker = noop_handle();
        poll_to_try(self.poll_recv(&waker))
    }
}

impl<S: Stream> Stream for &mut S {
    type Item = S::Item;

    /// A mutable borrow of a stream is itself a stream, polling the
    /// borrowed one.
    fn poll_recv(&mut self, waker: &Waker) -> PollRecv<S::Item> {
        (**self).poll_recv(waker)
    }
}

/// A sink for items, driven by repeated non-blocking polls: each attempt
/// either accepts the value or hands it back.
pub trait Sink {
    type Item;

    /// One non-blocking send attempt: accepted, or refused with the value
    /// returned to the caller.
    fn poll_send(&mut self, waker: &Waker, value: Self::Item) -> PollSend<Self::Item>;
}

/// What `try_recv` reports for a given poll outcome.
pub open spec fn spec_poll_to_try<T>(p: PollRecv<T>) -> Result<T, TryRecvError> {
    match p {
        PollRecv::Ready(v) => Ok(v),
        PollRecv::Pending => Err(TryRecvError::Pending),
        PollRecv::Closed => Err(TryRecvError::Rejected),
    }
}

/// Maps the outcome of one poll to the result of a non-suspending receive:
/// a ready item is returned, `Pending` becomes a retryable error, and
/// `Closed` becomes the terminal error.
pub fn poll_to_try<T>(p: PollRecv<T>) -> (r: Result<T, TryRecvError>)
    ensures
        r == spec_poll_to_try(p),
{
    match p {
        PollRecv::Ready(v) => Ok(v),
        PollRecv::Pending => Err(TryRecvError::Pending),
        PollRecv::Closed => Err(TryRecvError::Rejected),
    }
}

/// What a future driving a stream resolves to for a given poll outcome:
/// `None` in the outer option means the task stays suspended; `Some(None)`
/// means the stream closed with no item.
pub open spec fn spec_future_step<T>(p: PollRecv<T>) -> Option<Option<T>> {
    match p {
        PollRecv::Ready(v) => Some(Some(v)),
        PollRecv::Pending => None,
        PollRecv::Closed => Some(None),
    }
}

/// Maps the outcome of one poll to the step a receive future takes: `Ready`
/// resolves to the item, `Closed` resolves to no item, `Pending` keeps the
/// task suspended.
pub fn future_step<T>(p: PollRecv<T>) -> (r: Option<Option<T>>)
    ensures
        r == spec_future_step(p),
{
    match p {
        PollRecv::Ready(v) => Some(Some(v)),
        PollRecv::Pending => None,
        PollRecv::Closed => Some(None),
    }
}

} // verus!
