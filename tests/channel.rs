use mutils::channel::{create, settle_receive, settle_send, RecvError, SendError};

#[test]
fn single_sender_order_is_kept() {
    let (tx, rx) = create::<i32>();
    for m in [3, 1, 4, 1, 5] {
        assert!(tx.try_send(m).is_ok());
    }
    let mut got = Vec::new();
    while let Ok(Some(m)) = rx.try_receive() {
        got.push(m);
    }
    assert_eq!(got, vec![3, 1, 4, 1, 5]);
}

#[test]
fn empty_connected_channel_gives_none() {
    let (_tx, rx) = create::<i32>();
    assert_eq!(rx.try_receive(), Ok(None));
}

#[test]
fn empty_channel_without_senders_is_disconnected() {
    let (tx, rx) = create::<i32>();
    drop(tx);
    assert_eq!(rx.try_receive(), Err(RecvError::Disconnected));
}

#[test]
fn pending_messages_outlive_the_senders() {
    let (tx, rx) = create::<&str>();
    assert!(tx.try_send("last").is_ok());
    drop(tx);
    assert_eq!(rx.try_receive(), Ok(Some("last")));
    assert_eq!(rx.try_receive(), Err(RecvError::Disconnected));
}

#[test]
fn send_without_receivers_hands_the_message_back() {
    let (tx, rx) = create::<String>();
    drop(rx);
    match tx.try_send("kept".to_string()) {
        Err(SendError::Disconnected(m)) => assert_eq!(m, "kept"),
        _ => panic!("expected a disconnected send"),
    }
}

#[test]
fn cloned_handles_share_the_queue() {
    let (tx, rx) = create::<u8>();
    let tx2 = tx.clone_handle();
    let rx2 = rx.clone_handle();
    assert!(tx2.try_send(7).is_ok());
    assert_eq!(rx.try_receive(), Ok(Some(7)));
    drop(tx);
    assert_eq!(rx2.try_receive(), Ok(None));
    drop(tx2);
    assert_eq!(rx2.try_receive(), Err(RecvError::Disconnected));
}

#[test]
fn receive_outcomes_are_told_apart() {
    assert_eq!(settle_receive::<u8>(Ok(9)), Ok(Some(9)));
    assert_eq!(settle_receive::<u8>(Err(crossbeam_channel::TryRecvError::Empty)), Ok(None));
    assert_eq!(
        settle_receive::<u8>(Err(crossbeam_channel::TryRecvError::Disconnected)),
        Err(RecvError::Disconnected)
    );
}

#[test]
fn send_outcomes_keep_their_kind() {
    assert!(settle_send::<u8>(Ok(())).is_ok());
    assert!(matches!(
        settle_send(Err(crossbeam_channel::TrySendError::Full(1u8))),
        Err(SendError::Full(1))
    ));
    assert!(matches!(
        settle_send(Err(crossbeam_channel::TrySendError::Disconnected(2u8))),
        Err(SendError::Disconnected(2))
    ));
}
