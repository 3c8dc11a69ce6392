//! A multi-receiver "fire once" barrier channel.
//!
//! The channel carries a single unit event. Its shared state is one atomic
//! two-state flag together with one [`Notifier`]. The flag moves from
//! `Pending` to `Closed` at most once — on the sender's first send or on the
//! sender handle's destruction, whichever comes first — and `Closed` is
//! terminal: every receiver clone, created before or after the transition,
//! observes it as `Ready(())` on every later poll. The signal is a durable
//! level, not a consumed value.
//!
//! What one operation decides, given the flag value it observed, are the
//! spec functions [`spec_close`], [`spec_send_result`] and
//! [`spec_recv_result`]; each poll of the executable handles evaluates them
//! at its observation points, and the channel laws below are proved over
//! them.

use vstd::prelude::*;
use std::sync::Arc;
use core::task::Waker;
use atomic::Atomic;

use crate::stream::{PollRecv, PollSend, Sink, Stream};
use crate::sync::flag::{flag_load, flag_new, flag_store};
use crate::sync::notifier::{clone_waker, Notifier};

verus! {

/// The two states of the shared flag.
#[derive(Debug, Clone, Copy)]
pub enum State {
    /// The event has not fired yet.
    Pending,
    /// The event fired (or the sender is gone); terminal.
    Closed,
}

/// What `close` leaves in the flag, whatever it held: `Closed`, reached at
/// most once and never left.
pub open spec fn spec_close(state: State) -> State {
    State::Closed
}

/// What one send attempt returns, given the observed flag: the first send
/// finds `Pending` and is accepted; once closed, a send is refused and the
/// unit value handed back, with no side effect.
pub open spec fn spec_send_result(state: State) -> PollSend<()> {
    match state {
        State::Pending => PollSend::Ready,
        State::Closed => PollSend::Rejected(()),
    }
}

/// What the flag holds after one send attempt: an accepted send closes it,
/// and a refused send leaves it closed as it was.
pub open spec fn spec_send_state(state: State) -> State {
    State::Closed
}

/// What one receive poll returns, given the observed flag: the durable
/// `Ready(())` once closed, else a wait. A barrier receiver never reports
/// `Closed`: the terminal transition is the delivered event itself.
pub open spec fn spec_recv_result(state: State) -> PollRecv<()> {
    match state {
        State::Pending => PollRecv::Pending,
        State::Closed => PollRecv::Ready(()),
    }
}

/// Performs one send decision on an observed flag value, exactly as
/// [`spec_send_result`] describes.
pub fn send_step(observed: State) -> (p: PollSend<()>)
    ensures
        p == spec_send_result(observed),
{
    match observed {
        State::Pending => PollSend::Ready,
        State::Closed => PollSend::Rejected(()),
    }
}

/// Performs one receive decision on an observed flag value, exactly as
/// [`spec_recv_result`] describes.
pub fn recv_step(observed: State) -> (p: PollRecv<()>)
    ensures
        p == spec_recv_result(observed),
{
    match observed {
        State::Pending => PollRecv::Pending,
        State::Closed => PollRecv::Ready(()),
    }
}

/// At-most-once send: whatever state the first send attempt observed and
/// left behind, every later send attempt is refused with `Rejected(())`,
/// and so is any send after a close performed by a dropped sender; only an
/// attempt that observed `Pending` is accepted.
pub proof fn lemma_send_at_most_once(state: State)
    ensures
        spec_send_result(state) == PollSend::<()>::Ready <==> state == State::Pending,
        spec_send_result(spec_send_state(state)) == PollSend::Rejected(()),
        spec_send_result(spec_close(state)) == PollSend::Rejected(()),
{
}

/// Closure durability: once the flag is `Closed` it stays `Closed` under
/// every operation, and every receive poll — from any existing or future
/// clone, which all read this same flag — returns `Ready(())` again.
pub proof fn lemma_closed_is_durable()
    ensures
        spec_close(State::Closed) == State::Closed,
        spec_send_state(State::Closed) == State::Closed,
        spec_recv_result(State::Closed) == PollRecv::Ready(()),
{
}

/// Sender drop equals send: destroying the sender performs the same `close`
/// transition as an accepted send, so from any state a receiver's next
/// observation after either event is the same `Ready(())`.
pub proof fn lemma_sender_drop_equals_send(state: State)
    ensures
        spec_close(state) == spec_send_state(state),
        spec_recv_result(spec_close(state)) == PollRecv::Ready(()),
{
}

/// Multi-receiver fan-out: what a receive poll returns is a function of the
/// one shared flag alone — two clones observing the same flag value get the
/// same answer — so once the channel closes, every clone, created before or
/// after the event, independently observes `Ready(())`.
pub proof fn lemma_fan_out(first: State, second: State)
    ensures
        first == second ==> spec_recv_result(first) == spec_recv_result(second),
        spec_recv_result(spec_close(first)) == PollRecv::Ready(()),
{
}

/// Idempotent close: two `close` transitions, in whatever order two racing
/// callers perform them, leave exactly what one leaves, and a flag already
/// `Closed` is not transitioned again — `Pending` to `Closed` happens at
/// most once.
pub proof fn lemma_close_idempotent(state: State)
    ensures
        spec_close(spec_close(state)) == spec_close(state),
        state == State::Closed ==> spec_close(state) == state,
{
}

/// The shared state of one barrier channel: the two-state flag and the
/// receivers' waker slot.
pub struct Shared {
    state: Atomic<State>,
    notify_rx: Notifier,
}

impl Shared {
    /// The closing operation both the first send and the sender's
    /// destruction converge on: stores `Closed` — the [`spec_close`]
    /// transition — and wakes any pending receiver. Safe to repeat: a second
    /// call stores the value already present and finds the waker slot
    /// empty.
    pub fn close(&self) {
        flag_store(&self.state, State::Closed);
        self.notify_rx.notify();
    }

    /// The destructor's form of [`close`]: the identical store and wake, the
    /// wake going through the notifier's non-unwinding path, since a
    /// destructor must not unwind.
    pub(crate) fn close_on_drop(&self)
        opens_invariants none
        no_unwind
    {
        flag_store(&self.state, State::Closed);
        self.notify_rx.notify_on_drop();
    }
}

/// Relies on `std::sync::Arc::clone`: returns a second handle to the same
/// shared allocation.
#[verifier::external_body]
fn share(shared: &Arc<Shared>) -> (r: Arc<Shared>)
    ensures
        r == *shared,
{
    Arc::clone(shared)
}

/// Whether the two handles poll the same shared state — what every delivery
/// and fan-out property of the channel rests on.
pub closed spec fn same_shared(sender: &Sender, receiver: &Receiver) -> bool {
    sender.shared == receiver.shared
}

/// Creates a barrier channel: a unique sender and a cloneable receiver over
/// one fresh shared state, with the flag `Pending` and no subscriber.
pub fn channel() -> (p: (Sender, Receiver))
    ensures
        same_shared(&p.0, &p.1),
{
    let shared = Arc::new(
        Shared { state: flag_new(State::Pending), notify_rx: Notifier::new() },
    );

    let sender = Sender { shared: share(&shared) };

    let receiver = Receiver { shared };

    (sender, receiver)
}

/// The unique sending handle: not cloneable, so at most one owner may fire
/// the barrier, and its destruction alone closes the channel.
pub struct Sender {
    shared: Arc<Shared>,
}

impl Sink for Sender {
    type Item = ();

    /// One send attempt, deciding as [`spec_send_result`] over the observed
    /// flag: the first attempt finds `Pending`, closes the channel — waking
    /// a pending receiver — and is accepted; every later attempt returns
    /// `Rejected(())` without side effect.
    fn poll_send(&mut self, _waker: &Waker, _value: ()) -> PollSend<()> {
        let observed = flag_load(&self.shared.state);
        match observed {
            State::Pending => self.shared.close(),
            State::Closed => (),
        }
        send_step(observed)
    }
}

impl Drop for Sender {
    /// Dropping an un-sent sender is equivalent to sending: it always
    /// performs the same `close`, so receivers are never left waiting on an
    /// abandoned sender.
    fn drop(&mut self)
        opens_invariants none
        no_unwind
    {
        self.shared.close_on_drop();
    }
}

/// A receiving handle: cloneable, every clone observing the same shared
/// flag and so the same terminal transition.
#[derive(Clone)]
pub struct Receiver {
    shared: Arc<Shared>,
}

impl Stream for Receiver {
    type Item = ();

    /// One receive poll, deciding as [`spec_recv_result`] over the observed
    /// flag. A closed flag answers `Ready(())` at once, repeatably. On
    /// `Pending` the waker is subscribed first and the flag re-checked
    /// after, so that a close racing the subscription cannot leave the
    /// caller suspended unwoken; the re-check's result is returned. A
    /// barrier receiver never returns `Closed`.
    fn poll_recv(&mut self, waker: &Waker) -> (p: PollRecv<()>)
        ensures
            !(p is Closed),
    {
        match flag_load(&self.shared.state) {
            State::Closed => PollRecv::Ready(()),
            State::Pending => {
                self.shared.notify_rx.subscribe(clone_waker(waker));
                recv_step(flag_load(&self.shared.state))
            },
        }
    }
}

} // verus!
