use futures_test::task::new_count_waker;
use pollsync::sync::oneshot_cell::TryRecvError;
use pollsync::sync::transfer::{
    resolve_after_disconnect, resolve_first, resolve_subscribed, send_gate, Liveness, Transfer,
};
use pollsync::PollRecv;

#[test]
fn send_gate_decisions() {
    assert_eq!(Ok(5), send_gate(Liveness::Alive, 5));
    assert_eq!(Err(5), send_gate(Liveness::Dead, 5));
}

#[test]
fn resolve_first_decisions() {
    assert_eq!(Some(PollRecv::Ready(4)), resolve_first(Ok(4)));
    assert_eq!(Some(PollRecv::<u32>::Closed), resolve_first(Err(TryRecvError::Closed)));
    assert_eq!(None, resolve_first(Err::<u32, TryRecvError>(TryRecvError::Pending)));
}

#[test]
fn resolve_after_disconnect_is_terminal() {
    assert_eq!(PollRecv::Ready(4), resolve_after_disconnect(Ok(4)));
    assert_eq!(PollRecv::<u32>::Closed, resolve_after_disconnect(Err(TryRecvError::Pending)));
    assert_eq!(PollRecv::<u32>::Closed, resolve_after_disconnect(Err(TryRecvError::Closed)));
}

#[test]
fn resolve_subscribed_keeps_pending() {
    assert_eq!(PollRecv::Ready(4), resolve_subscribed(Ok(4)));
    assert_eq!(PollRecv::<u32>::Pending, resolve_subscribed(Err(TryRecvError::Pending)));
    assert_eq!(PollRecv::<u32>::Closed, resolve_subscribed(Err(TryRecvError::Closed)));
}

#[test]
fn transfer_send_recv() {
    let waker = futures_task::noop_waker();
    let transfer: Transfer<u32> = Transfer::new();

    assert_eq!(Ok(()), transfer.send(5));
    assert_eq!(PollRecv::Ready(5), transfer.recv(&waker));
    assert_eq!(PollRecv::Closed, transfer.recv(&waker));
}

#[test]
fn transfer_second_send_rejected() {
    let transfer: Transfer<u32> = Transfer::new();

    assert_eq!(Ok(()), transfer.send(1));
    assert_eq!(Err(2), transfer.send(2));
}

#[test]
fn transfer_recv_pending_while_sender_alive() {
    let waker = futures_task::noop_waker();
    let transfer: Transfer<u32> = Transfer::new();

    assert_eq!(PollRecv::Pending, transfer.recv(&waker));
    assert_eq!(PollRecv::Pending, transfer.recv(&waker));
}

#[test]
fn transfer_sender_disconnect_closes() {
    let waker = futures_task::noop_waker();
    let transfer: Transfer<u32> = Transfer::new();

    assert_eq!(PollRecv::Pending, transfer.recv(&waker));

    transfer.sender_disconnect();

    assert_eq!(PollRecv::Closed, transfer.recv(&waker));
}

#[test]
fn transfer_value_outlives_sender() {
    let waker = futures_task::noop_waker();
    let transfer: Transfer<u32> = Transfer::new();

    assert_eq!(Ok(()), transfer.send(3));

    transfer.sender_disconnect();

    assert_eq!(PollRecv::Ready(3), transfer.recv(&waker));
    assert_eq!(PollRecv::Closed, transfer.recv(&waker));
}

#[test]
fn transfer_receiver_disconnect_rejects_send() {
    let transfer: Transfer<u32> = Transfer::new();

    transfer.receiver_disconnect();

    assert_eq!(Err(7), transfer.send(7));
}

#[test]
fn transfer_wakes_receiver() {
    let transfer: Transfer<u32> = Transfer::new();

    let (w, w_count) = new_count_waker();

    assert_eq!(PollRecv::Pending, transfer.recv(&w));
    assert_eq!(0, w_count.get());

    assert_eq!(Ok(()), transfer.send(9));
    assert_eq!(1, w_count.get());

    assert_eq!(PollRecv::Ready(9), transfer.recv(&w));
    assert_eq!(1, w_count.get());
}
