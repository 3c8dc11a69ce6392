//! An atomic single-item slot.
//!
//! A `OneshotCell` accepts at most one written value and yields it to at most
//! one reader. Its three logical states and their one-way transitions are the
//! enum [`CellState`] and the spec functions [`spec_cell_send`] and
//! [`spec_cell_recv`]; the verified step functions [`cell_send_step`] and
//! [`cell_recv_step`] perform exactly those transitions, and the cell applies
//! them to its slot under a lock so that concurrent callers each see one
//! whole transition.
//!
//! The cell does not wait and does not wake: waiting is layered on top by
//! callers via a `Notifier`.

use vstd::prelude::*;
use vstd::rwlock::{RwLock, RwLockPredicate};

verus! {

/// The lock invariant of the slot: every [`CellState`] value is a legal slot
/// content, the one-way transition discipline being captured by the spec
/// step functions instead.
pub struct AnyCellState;

impl<T> RwLockPredicate<CellState<T>> for AnyCellState {
    open spec fn inv(self, state: CellState<T>) -> bool {
        true
    }
}

/// The logical state of the slot: never written, written and not yet read,
/// or consumed.
#[derive(Debug, Clone, PartialEq, Eq)]
pub enum CellState<T> {
    /// No value has been written yet.
    Empty,
    /// A value was written and not yet taken.
    Full(T),
    /// The value was taken; the cell is permanently closed to readers.
    Taken,
}

/// Error of a single read attempt on the cell.
#[derive(Debug, Clone, PartialEq, Eq)]
pub enum TryRecvError {
    /// The cell is still empty; a value may arrive later.
    Pending,
    /// The value was already taken; none will ever be observed again.
    Closed,
}

/// What one send attempt does: the pair of the state afterwards and the
/// caller's result. Only an empty cell accepts the value; any other state
/// is unchanged and the value is handed back, never silently dropped.
pub open spec fn spec_cell_send<T>(state: CellState<T>, value: T) -> (CellState<T>, Result<
    (),
    T,
>) {
    match state {
        CellState::Empty => (CellState::Full(value), Ok(())),
        CellState::Full(held) => (CellState::Full(held), Err(value)),
        CellState::Taken => (CellState::Taken, Err(value)),
    }
}

/// What one read attempt does: a full cell yields its value and becomes
/// `Taken`; an empty cell reports `Pending` and is unchanged; a taken cell
/// reports `Closed` forever.
pub open spec fn spec_cell_recv<T>(state: CellState<T>) -> (CellState<T>, Result<
    T,
    TryRecvError,
>) {
    match state {
        CellState::Empty => (CellState::Empty, Err(TryRecvError::Pending)),
        CellState::Full(value) => (CellState::Taken, Ok(value)),
        CellState::Taken => (CellState::Taken, Err(TryRecvError::Closed)),
    }
}

/// Performs one send transition on an observed state, exactly as
/// [`spec_cell_send`] describes.
pub fn cell_send_step<T>(state: CellState<T>, value: T) -> (r: (CellState<T>, Result<(), T>))
    ensures
        r == spec_cell_send(state, value),
{
    match state {
        CellState::Empty => (CellState::Full(value), Ok(())),
        other => (other, Err(value)),
    }
}

/// Performs one read transition on an observed state, exactly as
/// [`spec_cell_recv`] describes.
pub fn cell_recv_step<T>(state: CellState<T>) -> (r: (CellState<T>, Result<T, TryRecvError>))
    ensures
        r == spec_cell_recv(state),
{
    match state {
        CellState::Empty => (CellState::Empty, Err(TryRecvError::Pending)),
        CellState::Full(value) => (CellState::Taken, Ok(value)),
        CellState::Taken => (CellState::Taken, Err(TryRecvError::Closed)),
    }
}

/// A send succeeds at most once: whatever state a send attempt leaves
/// behind, every later send attempt is refused and hands its value back.
pub proof fn lemma_send_at_most_once<T>(state: CellState<T>, first: T, second: T)
    ensures
        spec_cell_send(state, first).1 matches Ok(u) ==> state == CellState::Empty::<T>,
        spec_cell_send(spec_cell_send(state, first).0, second).1 == Err::<(), T>(second),
{
}

/// A value, once taken, can never be observed again: after a successful
/// read the cell is `Taken`, and `Taken` is absorbing — no send re-fills it
/// and every later read reports `Closed`.
pub proof fn lemma_taken_is_terminal<T>(state: CellState<T>, value: T)
    ensures
        spec_cell_recv(state).1 matches Ok(v) ==> spec_cell_recv(state).0 == CellState::Taken::<T>,
        spec_cell_send(CellState::Taken::<T>, value).0 == CellState::Taken::<T>,
        spec_cell_recv(CellState::Taken::<T>) == (CellState::Taken::<T>, Err::<T, TryRecvError>(
            TryRecvError::Closed,
        )),
{
}

/// An atomic single-item slot: at most one send succeeds, at most one read
/// consumes the value.
pub struct OneshotCell<T> {
    state: RwLock<CellState<T>, AnyCellState>,
}

impl<T> OneshotCell<T> {
    /// Creates an empty cell.
    pub fn new() -> OneshotCell<T> {
        OneshotCell { state: RwLock::new(CellState::Empty, Ghost(AnyCellState)) }
    }

    /// One send attempt: succeeds exactly once, on the first call that finds
    /// the cell empty; every other call returns the caller's value unclaimed.
    /// The transition applied to the slot is [`spec_cell_send`].
    pub fn send(&self, value: T) -> (r: Result<(), T>)
        ensures
            r matches Err(v) ==> v == value,
    {
        let (state, handle) = self.state.acquire_write();
        let (next, result) = cell_send_step(state, value);
        handle.release_write(next);
        result
    }

    /// One read attempt: returns the value and consumes it on the first
    /// successful read of a full cell; reports `Pending` while empty and
    /// `Closed` once taken. The transition applied to the slot is
    /// [`spec_cell_recv`].
    pub fn try_recv(&self) -> Result<T, TryRecvError> {
        let (state, handle) = self.state.acquire_write();
        let (next, result) = cell_recv_step(state);
        handle.release_write(next);
        result
    }
}

} // verus!
