use mpac_rs::{v1, v2, BRecvError, BSendError, RecvError, SendError};

#[test]
fn v2_values_come_out_in_order() {
    let mut c = v2::ChannelInner::new();
    for i in 0..5u32 {
        assert!(c.send(i).is_ok());
    }
    assert_eq!(5, c.len());
    for i in 0..5u32 {
        match c.try_recv() {
            Some(Ok(v)) => assert_eq!(i, v),
            _ => panic!("expected a value"),
        }
    }
    assert_eq!(0, c.len());
    assert!(c.try_recv().is_none());
}

#[test]
fn v2_closed_only_after_drain() {
    let mut c = v2::ChannelInner::new();
    c.send(7).unwrap();
    c.send(8).unwrap();
    c.remove_sender();
    assert_eq!(0, c.senders());
    assert_eq!(Some(Ok(7)), c.try_recv());
    assert_eq!(Some(Ok(8)), c.try_recv());
    assert_eq!(Some(Err(RecvError::Closed)), c.try_recv());
    assert_eq!(Some(Err(RecvError::Closed)), c.try_recv());
}

#[test]
fn v2_send_without_receivers_hands_value_back() {
    let mut c = v2::ChannelInner::new();
    c.remove_receiver();
    match c.send(String::from("hello")) {
        Err(SendError::Closed(s)) => assert_eq!("hello", s),
        Ok(()) => panic!("send should fail"),
    }
    assert_eq!(0, c.len());
    match c.b_send(String::from("again")) {
        Err(BSendError::Closed((v, len))) => {
            assert_eq!("again", v);
            assert_eq!(0, len);
        }
        Ok(_) => panic!("send should fail"),
    }
}

#[test]
fn v2_b_operations_report_lengths() {
    let mut c = v2::ChannelInner::new();
    assert_eq!(1, c.b_send(10u64).ok().unwrap());
    assert_eq!(2, c.b_send(20u64).ok().unwrap());
    match c.b_try_recv() {
        Some(Ok((v, len))) => {
            assert_eq!(10, v);
            assert_eq!(2, len);
        }
        _ => panic!("expected a value"),
    }
    match c.b_try_recv() {
        Some(Ok((v, len))) => {
            assert_eq!(20, v);
            assert_eq!(1, len);
        }
        _ => panic!("expected a value"),
    }
    assert!(c.b_try_recv().is_none());
    c.remove_sender();
    assert_eq!(Some(Err(BRecvError::Closed(0))), c.b_try_recv());
}

#[test]
fn v2_clones_and_drops_count_handles() {
    let mut c = v2::ChannelInner::<u8>::new();
    assert_eq!(1, c.senders());
    assert_eq!(1, c.receivers());
    c.add_sender();
    c.add_receiver();
    assert_eq!(2, c.senders());
    assert_eq!(2, c.receivers());
    c.remove_sender();
    c.remove_receiver();
    assert_eq!(1, c.senders());
    assert_eq!(1, c.receivers());
    c.remove_sender();
    assert!(c.try_recv() == Some(Err(RecvError::Closed)));
}

#[test]
fn v1_behaves_as_v2() {
    let mut c = v1::ChannelInner::new();
    assert_eq!(1, c.b_send(1i32).ok().unwrap());
    c.send(2).unwrap();
    assert_eq!(Some(Ok(1)), c.try_recv());
    match c.b_try_recv() {
        Some(Ok((v, len))) => {
            assert_eq!(2, v);
            assert_eq!(1, len);
        }
        _ => panic!("expected a value"),
    }
    assert!(c.try_recv().is_none());
    c.remove_sender();
    assert_eq!(Some(Err(RecvError::Closed)), c.try_recv());
    c.remove_receiver();
    assert!(matches!(c.send(5), Err(SendError::Closed(5))));
}

#[test]
fn closing_conditions() {
    assert!(mpac_rs::state::closed_to_receivers(0, 0));
    assert!(!mpac_rs::state::closed_to_receivers(0, 1));
    assert!(!mpac_rs::state::closed_to_receivers(2, 0));
    assert!(mpac_rs::state::closed_to_senders(0));
    assert!(!mpac_rs::state::closed_to_senders(3));
}
