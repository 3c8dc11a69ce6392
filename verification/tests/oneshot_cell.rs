use pollsync::sync::oneshot_cell::{cell_recv_step, cell_send_step, CellState, OneshotCell, TryRecvError};

#[test]
fn cell_send_once() {
    let cell: OneshotCell<u32> = OneshotCell::new();

    assert_eq!(Ok(()), cell.send(10));
    assert_eq!(Err(11), cell.send(11));
}

#[test]
fn cell_recv_consumes() {
    let cell: OneshotCell<u32> = OneshotCell::new();

    assert_eq!(Err(TryRecvError::Pending), cell.try_recv());

    assert_eq!(Ok(()), cell.send(42));

    assert_eq!(Ok(42), cell.try_recv());
    assert_eq!(Err(TryRecvError::Closed), cell.try_recv());
    assert_eq!(Err(TryRecvError::Closed), cell.try_recv());
}

#[test]
fn cell_send_after_taken_rejected() {
    let cell: OneshotCell<u32> = OneshotCell::new();

    assert_eq!(Ok(()), cell.send(1));
    assert_eq!(Ok(1), cell.try_recv());

    assert_eq!(Err(2), cell.send(2));
    assert_eq!(Err(TryRecvError::Closed), cell.try_recv());
}

#[test]
fn send_step_transitions() {
    assert_eq!((CellState::Full(5), Ok(())), cell_send_step(CellState::Empty, 5));
    assert_eq!((CellState::Full(5), Err(6)), cell_send_step(CellState::Full(5), 6));
    assert_eq!((CellState::Taken, Err(7)), cell_send_step(CellState::Taken, 7));
}

#[test]
fn recv_step_transitions() {
    assert_eq!(
        (CellState::Empty, Err(TryRecvError::Pending)),
        cell_recv_step(CellState::<u32>::Empty)
    );
    assert_eq!((CellState::Taken, Ok(5)), cell_recv_step(CellState::Full(5)));
    assert_eq!(
        (CellState::Taken, Err(TryRecvError::Closed)),
        cell_recv_step(CellState::<u32>::Taken)
    );
}
