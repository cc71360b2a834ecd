use mpac_rs::runner::{BenchEvent, IdBank, MainBenchRunner};
use mpac_rs::v2::ChannelInner;
use mpac_rs::workload::{check_time_to_live, receiver_work, sender_work, ConfigError, Message, WorkError};
use mpac_rs::{BBlockingReceive, BBlockingSend, BRecvError, BSendError, BlockingReceive, BlockingSend, RecvError, SendError};
use std::path::PathBuf;
use std::sync::Mutex;

struct Local(Mutex<ChannelInner<Message<u32>>>);

impl BlockingSend<Message<u32>> for Local {
    fn send(&self, data: Message<u32>) -> Result<(), SendError<Message<u32>>> {
        self.0.lock().unwrap().send(data)
    }
}

impl BBlockingSend<Message<u32>> for Local {
    fn b_send(&self, data: Message<u32>) -> Result<usize, BSendError<Message<u32>>> {
        self.0.lock().unwrap().b_send(data)
    }
}

impl BlockingReceive<Message<u32>> for Local {
    fn recv(&self) -> Result<Message<u32>, RecvError> {
        match self.0.lock().unwrap().try_recv() {
            Some(r) => r,
            None => Err(RecvError::Closed),
        }
    }
}

impl BBlockingReceive<Message<u32>> for Local {
    fn b_recv(&self) -> Result<(Message<u32>, usize), BRecvError> {
        match self.0.lock().unwrap().b_try_recv() {
            Some(r) => r,
            None => Err(BRecvError::Closed(0)),
        }
    }
}

#[test]
fn spawned_runners_join_ids_and_share_the_bank() {
    let main = MainBenchRunner::new(PathBuf::from("out"));
    let v = main.spawn_runner(String::from("version_v2"));
    let c = v.spawn_runner(String::from("config_1_1"));
    assert_eq!(0, main.spawn_runner(String::from("x")).next_id());
    assert_eq!(1, c.next_id());
    assert_eq!(2, v.next_id());
    main.reset_ids();
    assert_eq!(0, c.next_id());
    let rec = c.finish();
    assert_eq!("main_runner::version_v2::config_1_1", rec.id);
    assert_eq!(PathBuf::from("out"), rec.save_to_root);
    assert!(rec.log.is_empty());
    assert!(rec.runner_start <= rec.runner_end);
    assert_eq!("main_runner", main.finish().id);
}

#[test]
fn events_are_recorded_in_order() {
    let main = MainBenchRunner::new(PathBuf::from("out"));
    let mut r = main.spawn_runner(String::from("tx"));
    let e = r.start_event();
    e.finish(5, 2);
    let e = r.start_event();
    e.discard();
    let e = r.start_event();
    e.finish(6, 0);
    let rec = r.finish();
    let ids: Vec<(u64, u64)> = rec.log.iter().map(|e: &BenchEvent| (e.id, e.backpressure)).collect();
    assert_eq!(vec![(5, 2), (6, 0)], ids);
    assert!(rec.log[0].start <= rec.log[0].end);
}

#[test]
fn sender_and_receiver_work_record_matching_ids() {
    let main = MainBenchRunner::new(PathBuf::from("out"));
    let mut tx_runner = main.spawn_runner(String::from("tx_runner_0"));
    let mut rx_runner = main.spawn_runner(String::from("rx_runner_0"));
    let ch = Local(Mutex::new(ChannelInner::new()));
    assert!(sender_work(&ch, &mut tx_runner, &|| 9u32).is_ok());
    assert!(sender_work(&ch, &mut tx_runner, &|| 9u32).is_ok());
    assert!(receiver_work(&ch, &mut rx_runner).is_ok());
    assert!(receiver_work(&ch, &mut rx_runner).is_ok());
    assert_eq!(Err(WorkError::ChannelClosed), receiver_work(&ch, &mut rx_runner));
    ch.0.lock().unwrap().remove_receiver();
    assert_eq!(Err(WorkError::ChannelClosed), sender_work(&ch, &mut tx_runner, &|| 9u32));
    let tx = tx_runner.finish();
    let rx = rx_runner.finish();
    let sent: Vec<(u64, u64)> = tx.log.iter().map(|e| (e.id, e.backpressure)).collect();
    let got: Vec<(u64, u64)> = rx.log.iter().map(|e| (e.id, e.backpressure)).collect();
    assert_eq!(vec![(0, 1), (1, 2)], sent);
    assert_eq!(vec![(0, 2), (1, 1)], got);
}

#[test]
fn spawned_runner_file_lies_under_parent_directory() {
    let main = MainBenchRunner::new(PathBuf::from("out"));
    let v = main.spawn_runner(String::from("version_v1_naive"));
    let c = v.spawn_runner(String::from("config_3_3_3_3_4"));
    let t = c.spawn_runner(String::from("tx_runner_2"));
    let rec = t.finish();
    let parts: Vec<&str> = mpac_rs::runner::id_segments(&rec.id)
        .into_iter()
        .map(|(a, b)| &rec.id[a..b])
        .collect();
    assert_eq!(
        vec!["main_runner", "version_v1_naive", "config_3_3_3_3_4", "tx_runner_2"],
        parts
    );
}

#[test]
fn ramp_counts_go_up_together_and_stop_at_their_ends() {
    assert_eq!(
        vec![(1, 1), (2, 2), (3, 3)],
        mpac_rs::workload::ramp_counts((1, 1), (3, 3))
    );
    assert_eq!(
        vec![(1, 2), (1, 3), (1, 4), (1, 5), (1, 6), (1, 7)],
        mpac_rs::workload::ramp_counts((1, 2), (1, 7))
    );
    assert_eq!(
        vec![(2, 1), (3, 2), (4, 2), (5, 2)],
        mpac_rs::workload::ramp_counts((2, 1), (5, 2))
    );
    assert_eq!(vec![(4, 4)], mpac_rs::workload::ramp_counts((4, 4), (4, 4)));
}

#[test]
fn id_bank_counts_from_zero_and_resets() {
    let mut b = IdBank::new();
    assert_eq!(0, b.draw());
    assert_eq!(1, b.draw());
    assert_eq!(2, b.draw());
    b.reset();
    assert_eq!(0, b.draw());
}

#[test]
fn a_run_needs_a_time_to_live() {
    assert_eq!(Ok(()), check_time_to_live(true, false));
    assert_eq!(Ok(()), check_time_to_live(false, true));
    assert_eq!(Ok(()), check_time_to_live(true, true));
    assert_eq!(Err(ConfigError::NoTimeToLive), check_time_to_live(false, false));
}
