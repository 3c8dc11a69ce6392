use futures_test::task::{new_count_waker, panic_waker};
use pollsync::channels::barrier::{channel, recv_step, send_step, State};
use pollsync::{PollRecv, PollSend, Sink, Stream, TryRecvError};

#[test]
fn send_accepted() {
    let waker = futures_task::noop_waker();
    let (mut tx, _rx) = channel();

    assert_eq!(PollSend::Ready, tx.poll_send(&waker, ()));
    assert_eq!(PollSend::Rejected(()), tx.poll_send(&waker, ()));
}

#[test]
fn send_recv() {
    let waker = futures_task::noop_waker();
    let (mut tx, mut rx) = channel();

    assert_eq!(PollSend::Ready, tx.poll_send(&waker, ()));

    assert_eq!(PollRecv::Ready(()), rx.poll_recv(&waker));
    assert_eq!(PollRecv::Ready(()), rx.poll_recv(&waker));
}

#[test]
fn sender_disconnect() {
    let waker = futures_task::noop_waker();
    let (tx, mut rx) = channel();

    drop(tx);

    assert_eq!(PollRecv::Ready(()), rx.poll_recv(&waker));
}

#[test]
fn send_then_disconnect() {
    let waker = futures_task::noop_waker();
    let (mut tx, mut rx) = channel();

    assert_eq!(PollSend::Ready, tx.poll_send(&waker, ()));

    drop(tx);

    assert_eq!(PollRecv::Ready(()), rx.poll_recv(&waker));
    assert_eq!(PollRecv::Ready(()), rx.poll_recv(&waker));
}

#[test]
fn receiver_disconnect() {
    let waker = futures_task::noop_waker();
    let (mut tx, rx) = channel();

    drop(rx);

    assert_eq!(PollSend::Ready, tx.poll_send(&waker, ()));
}

#[test]
fn receiver_clone() {
    let waker = futures_task::noop_waker();
    let (mut tx, mut rx) = channel();
    let mut rx2 = rx.clone();

    assert_eq!(PollSend::Ready, tx.poll_send(&waker, ()));

    assert_eq!(PollRecv::Ready(()), rx.poll_recv(&waker));
    assert_eq!(PollRecv::Ready(()), rx2.poll_recv(&waker));
}

#[test]
fn receiver_send_then_clone() {
    let waker = futures_task::noop_waker();
    let (mut tx, mut rx) = channel();

    assert_eq!(PollSend::Ready, tx.poll_send(&waker, ()));

    let mut rx2 = rx.clone();

    assert_eq!(PollRecv::Ready(()), rx.poll_recv(&waker));
    assert_eq!(PollRecv::Ready(()), rx2.poll_recv(&waker));
}

#[test]
fn wake_receiver() {
    let tx_waker = panic_waker();
    let (mut tx, mut rx) = channel();

    let (w, w_count) = new_count_waker();

    assert_eq!(PollRecv::Pending, rx.poll_recv(&w));

    assert_eq!(0, w_count.get());

    assert_eq!(PollSend::Ready, tx.poll_send(&tx_waker, ()));

    assert_eq!(1, w_count.get());

    assert_eq!(PollSend::Rejected(()), tx.poll_send(&tx_waker, ()));

    assert_eq!(1, w_count.get());
}

#[test]
fn wake_receiver_on_disconnect() {
    let (tx, mut rx) = channel();

    let (w1, w1_count) = new_count_waker();

    assert_eq!(PollRecv::Pending, rx.poll_recv(&w1));

    assert_eq!(0, w1_count.get());

    drop(tx);

    assert_eq!(1, w1_count.get());
}

#[test]
fn send_step_decisions() {
    assert_eq!(PollSend::Ready, send_step(State::Pending));
    assert_eq!(PollSend::Rejected(()), send_step(State::Closed));
}

#[test]
fn recv_step_decisions() {
    assert_eq!(PollRecv::Pending, recv_step(State::Pending));
    assert_eq!(PollRecv::Ready(()), recv_step(State::Closed));
}

#[test]
fn try_recv_pending_then_ready() {
    let waker = futures_task::noop_waker();
    let (mut tx, mut rx) = channel();

    assert_eq!(Err(TryRecvError::Pending), rx.try_recv());

    assert_eq!(PollSend::Ready, tx.poll_send(&waker, ()));

    assert_eq!(Ok(()), rx.try_recv());
    assert_eq!(Ok(()), rx.try_recv());
}
