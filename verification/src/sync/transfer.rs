//! A one-shot value transfer with disconnect detection on both ends.
//!
//! A `Transfer` composes one [`OneshotCell`] and one [`Notifier`] with an
//! independent liveness flag for each endpoint. A flag moves from `Alive` to
//! `Dead` at most once and never back. The send and receive decisions, taken
//! over the values the flags and the cell were observed to hold, are the spec
//! functions [`spec_send_outcome`] and [`spec_recv_outcome`]; each poll of
//! the executable methods evaluates them at its observation points, and the
//! disconnect laws below are proved over them.

use vstd::prelude::*;
use core::task::Waker;
use atomic::Atomic;

use crate::stream::PollRecv;
use crate::sync::flag::{flag_load, flag_new, flag_store};
use crate::sync::notifier::{clone_waker, Notifier};
use crate::sync::oneshot_cell::{spec_cell_recv, spec_cell_send, CellState, OneshotCell, TryRecvError};

verus! {

/// Whether a channel endpoint's owning handle still exists.
#[derive(Debug, Clone, Copy)]
pub enum Liveness {
    /// The handle is still owned.
    Alive,
    /// The handle was destroyed; the flag never returns to `Alive`.
    Dead,
}

/// What one send attempt decides, given the observed receiver liveness and
/// cell state: a dead receiver refuses immediately and leaves the cell
/// untouched; otherwise the cell transition [`spec_cell_send`] applies. A
/// refused value is always handed back to the caller.
pub open spec fn spec_send_outcome<T>(receiver: Liveness, cell: CellState<T>, value: T) -> (
    CellState<T>,
    Result<(), T>,
) {
    match receiver {
        Liveness::Dead => (cell, Err(value)),
        Liveness::Alive => spec_cell_send(cell, value),
    }
}

/// What one receive attempt decides, given the observed cell state and
/// sender liveness: a full cell yields its value, a taken cell is `Closed`,
/// and an empty cell is `Pending` only while the sender is alive — with the
/// sender dead, no value can ever arrive, so the outcome is `Closed`.
pub open spec fn spec_recv_outcome<T>(cell: CellState<T>, sender: Liveness) -> PollRecv<T> {
    match spec_cell_recv(cell).1 {
        Ok(value) => PollRecv::Ready(value),
        Err(TryRecvError::Closed) => PollRecv::Closed,
        Err(TryRecvError::Pending) => match sender {
            Liveness::Dead => PollRecv::Closed,
            Liveness::Alive => PollRecv::Pending,
        },
    }
}

/// What a disconnect does to an endpoint's liveness flag: it becomes `Dead`,
/// whatever it was.
pub open spec fn spec_disconnect(liveness: Liveness) -> Liveness {
    Liveness::Dead
}

/// One-way liveness: disconnecting is the only transition a flag has, it
/// leads to `Dead` from every state, and repeating it changes nothing — so
/// a flag once `Dead` never returns to `Alive`.
pub proof fn lemma_liveness_one_way(liveness: Liveness)
    ensures
        spec_disconnect(liveness) == Liveness::Dead,
        spec_disconnect(spec_disconnect(liveness)) == spec_disconnect(liveness),
{
}

/// Disconnect symmetry. With the sender gone and no value in flight the
/// receiver observes a terminal outcome, never a wait: a receive with a dead
/// sender is never `Pending`, and on an empty cell it is exactly `Closed`.
/// Conversely, a send after the receiver is gone fails and returns the
/// original value.
pub proof fn lemma_disconnect_symmetry<T>(cell: CellState<T>, value: T)
    ensures
        !(spec_recv_outcome(cell, Liveness::Dead) is Pending),
        spec_recv_outcome(CellState::Empty::<T>, Liveness::Dead) == PollRecv::Closed::<T>,
        spec_send_outcome(Liveness::Dead, cell, value).1 == Err::<(), T>(value),
        spec_send_outcome(Liveness::Dead, cell, value).0 == cell,
{
}

/// The receiver-liveness gate of one send attempt, exactly the first case
/// split of [`spec_send_outcome`]: a dead receiver refuses the value at
/// once, handing it back untouched; a live receiver passes it on unchanged,
/// to be offered to the cell.
pub fn send_gate<T>(observed: Liveness, value: T) -> (g: Result<T, T>)
    ensures
        g matches Err(v) ==> v == value && observed is Dead,
        g matches Ok(v) ==> v == value && observed is Alive,
{
    match observed {
        Liveness::Dead => Err(value),
        Liveness::Alive => Ok(value),
    }
}

/// Maps the first read attempt of a receive poll: a value already present is
/// delivered exactly as the cell yields it, a taken cell is terminal, and an
/// empty cell decides nothing yet (`None`) — the liveness check that follows
/// settles it.
pub fn resolve_first<T>(attempt: Result<T, TryRecvError>) -> (p: Option<PollRecv<T>>)
    ensures
        match attempt {
            Ok(value) => p == Some(PollRecv::Ready(value)),
            Err(TryRecvError::Closed) => p == Some(PollRecv::Closed::<T>),
            Err(TryRecvError::Pending) => p == None::<PollRecv<T>>,
        },
{
    match attempt {
        Ok(value) => Some(PollRecv::Ready(value)),
        Err(TryRecvError::Closed) => Some(PollRecv::Closed),
        Err(TryRecvError::Pending) => None,
    }
}

/// Maps a read attempt made after the sender was observed dead, exactly as
/// [`spec_recv_outcome`] with a dead sender describes: a value that arrived
/// in the meantime is still delivered, and an empty cell is terminal —
/// `Closed`, never `Pending`, so a receiver cannot wait forever on an
/// abandoned sender.
pub fn resolve_after_disconnect<T>(attempt: Result<T, TryRecvError>) -> (p: PollRecv<T>)
    ensures
        match attempt {
            Ok(value) => p == PollRecv::Ready(value),
            Err(_) => p == PollRecv::Closed::<T>,
        },
        !(p is Pending),
{
    match attempt {
        Ok(value) => PollRecv::Ready(value),
        Err(_) => PollRecv::Closed,
    }
}

/// Maps the read attempt made after subscribing the waker, exactly as
/// [`spec_recv_outcome`] with a live sender describes: `Pending` is returned
/// only with the waker already registered.
pub fn resolve_subscribed<T>(attempt: Result<T, TryRecvError>) -> (p: PollRecv<T>)
    ensures
        match attempt {
            Ok(value) => p == PollRecv::Ready(value),
            Err(TryRecvError::Pending) => p == PollRecv::Pending::<T>,
            Err(TryRecvError::Closed) => p == PollRecv::Closed::<T>,
        },
{
    match attempt {
        Ok(value) => PollRecv::Ready(value),
        Err(TryRecvError::Pending) => PollRecv::Pending,
        Err(TryRecvError::Closed) => PollRecv::Closed,
    }
}

/// The shared state of a one-shot value channel: one value cell, one waker
/// slot, and a liveness flag per endpoint.
pub struct Transfer<T> {
    sender: Atomic<Liveness>,
    receiver: Atomic<Liveness>,
    value: OneshotCell<T>,
    notify_rx: Notifier,
}

impl<T> Transfer<T> {
    /// Creates the shared state: both endpoints alive, the cell empty, no
    /// subscriber.
    pub fn new() -> Transfer<T> {
        Transfer {
            sender: flag_new(Liveness::Alive),
            receiver: flag_new(Liveness::Alive),
            value: OneshotCell::new(),
            notify_rx: Notifier::new(),
        }
    }

    /// One send attempt, deciding as [`spec_send_outcome`] over the observed
    /// receiver liveness and cell state: [`send_gate`] refuses a dead
    /// receiver without touching the cell; otherwise the cell accepts at
    /// most the first value ([`spec_cell_send`], applied by the cell's own
    /// step), and on acceptance any pending receiver is notified. A refused
    /// value is returned to the caller, never dropped.
    pub fn send(&self, value: T) -> (r: Result<(), T>)
        ensures
            r matches Err(v) ==> v == value,
    {
        match send_gate(flag_load(&self.receiver), value) {
            Err(rejected) => Err(rejected),
            Ok(admitted) => match self.value.send(admitted) {
                Ok(()) => {
                    self.notify_rx.notify();
                    Ok(())
                },
                Err(v) => Err(v),
            },
        }
    }

    /// One receive attempt, deciding as [`spec_recv_outcome`] over its
    /// observation points. A ready or taken cell answers at once, through
    /// [`resolve_first`]. On an empty cell with the sender observed dead,
    /// the cell is re-read once — to
    /// catch a value that raced the liveness check — and resolved by
    /// [`resolve_after_disconnect`], so the caller sees `Closed`, not an
    /// endless `Pending`. With the sender alive, the waker is subscribed
    /// first and the cell re-read after, closing the subscribe/notify race
    /// before `Pending` is returned.
    pub fn recv(&self, waker: &Waker) -> PollRecv<T> {
        match resolve_first(self.value.try_recv()) {
            Some(settled) => settled,
            None => match flag_load(&self.sender) {
                Liveness::Dead => resolve_after_disconnect(self.value.try_recv()),
                Liveness::Alive => {
                    self.notify_rx.subscribe(clone_waker(waker));
                    resolve_subscribed(self.value.try_recv())
                },
            },
        }
    }

    /// Marks the sender's handle as destroyed — the [`spec_disconnect`]
    /// transition, after which the flag never returns to `Alive`. Does not
    /// wake anyone: the receive path itself resolves an empty cell with a
    /// dead sender as terminal.
    pub fn sender_disconnect(&self) {
        flag_store(&self.sender, Liveness::Dead);
    }

    /// Marks the receiver's handle as destroyed — the [`spec_disconnect`]
    /// transition, after which the flag never returns to `Alive`. Later
    /// sends are refused on the fast path without touching the cell.
    pub fn receiver_disconnect(&self) {
        flag_store(&self.receiver, Liveness::Dead);
    }
}

} // verus!
