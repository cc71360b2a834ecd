use mpac_rs::{BBlockingReceive, BBlockingSend, BRecvError, BSendError, BlockingReceive, BlockingSend, RecvError, SendError};

#[test]
fn crossbeam_channel_through_the_traits() {
    let (tx, rx) = crossbeam::channel::unbounded::<i32>();
    assert!(BlockingSend::send(&tx, 1).is_ok());
    assert_eq!(Ok(1), tx.b_send(2).map_err(|_| ()));
    assert_eq!(Ok(1), BlockingReceive::recv(&rx));
    match rx.b_recv() {
        Ok((v, len)) => {
            assert_eq!(2, v);
            assert_eq!(1, len);
        }
        Err(_) => panic!("expected a value"),
    }
    drop(tx);
    assert_eq!(Err(RecvError::Closed), BlockingReceive::recv(&rx));
    assert_eq!(Err(BRecvError::Closed(0)), rx.b_recv());
}

#[test]
fn crossbeam_send_to_closed_hands_value_back() {
    let (tx, rx) = crossbeam::channel::unbounded::<String>();
    drop(rx);
    match BlockingSend::send(&tx, String::from("v")) {
        Err(SendError::Closed(s)) => assert_eq!("v", s),
        Ok(()) => panic!("send should fail"),
    }
    match tx.b_send(String::from("w")) {
        Err(BSendError::Closed((s, len))) => {
            assert_eq!("w", s);
            assert_eq!(0, len);
        }
        Ok(_) => panic!("send should fail"),
    }
}
