use mpac_rs::aggregate::{parse_row, EventTable, ReconstructError, ReconstructedEvent};
use mpac_rs::runner::{encode_header, encode_row, id_segments};

fn to_row(v: &[u8]) -> [u8; 32] {
    let mut a = [0u8; 32];
    a.copy_from_slice(v);
    a
}

#[test]
fn row_layout_is_little_endian() {
    let start = 1.5f64.to_le_bytes();
    let end = 2.25f64.to_le_bytes();
    let row = encode_row(start, end, 0x0102030405060708, 9);
    assert_eq!(32, row.len());
    assert_eq!(&start[..], &row[0..8]);
    assert_eq!(&end[..], &row[8..16]);
    assert_eq!(&[8, 7, 6, 5, 4, 3, 2, 1], &row[16..24]);
    assert_eq!(&[9, 0, 0, 0, 0, 0, 0, 0], &row[24..32]);
}

#[test]
fn row_round_trips() {
    let start = 0.125f64.to_le_bytes();
    let end = 7.0f64.to_le_bytes();
    let row = encode_row(start, end, u64::MAX, 42);
    let (s, e, id, bp) = parse_row(&to_row(&row));
    assert_eq!(0.125, f64::from_le_bytes(s));
    assert_eq!(7.0, f64::from_le_bytes(e));
    assert_eq!(u64::MAX, id);
    assert_eq!(42, bp);
}

#[test]
fn header_has_zero_padding() {
    let h = encode_header(3.0f64.to_le_bytes(), 4.0f64.to_le_bytes());
    assert_eq!(32, h.len());
    assert_eq!(&[0u8; 16], &h[16..32]);
    let (s, e, a, b) = parse_row(&to_row(&h));
    assert_eq!(3.0, f64::from_le_bytes(s));
    assert_eq!(4.0, f64::from_le_bytes(e));
    assert_eq!((0, 0), (a, b));
}

fn parts<'a>(id: &'a str) -> Vec<&'a str> {
    id_segments(id).iter().map(|&(a, b)| &id[a..b]).collect()
}

#[test]
fn id_segments_split_on_double_colon() {
    assert_eq!(vec!["main_runner"], parts("main_runner"));
    assert_eq!(
        vec!["main_runner", "version_v1", "config_3_3", "tx_runner_0"],
        parts("main_runner::version_v1::config_3_3::tx_runner_0")
    );
    assert_eq!(vec!["", ""], parts("::"));
    assert_eq!(vec!["a", ":b"], parts("a:::b"));
    assert_eq!(vec!["a:b"], parts("a:b"));
    assert_eq!(vec![""], parts(""));
    for id in ["x::y::z", "::a::", "q:::::r", "é::ü"] {
        let expected: Vec<&str> = id.split("::").collect();
        assert_eq!(expected, parts(id));
    }
}

#[test]
fn halves_join_in_either_order() {
    let mut t: EventTable<(f64, f64)> = EventTable::with_capacity(4);
    assert_eq!(Ok(()), t.record(2, true, (0.0, 1.0)));
    assert_eq!(3, t.len());
    assert!(!t.is_complete(2));
    assert_eq!(Ok(()), t.record(2, false, (1.5, 2.0)));
    assert!(t.is_complete(2));
    assert_eq!(Ok(()), t.record(0, false, (3.0, 4.0)));
    assert_eq!(Ok(()), t.record(0, true, (2.0, 2.5)));
    let events = t.into_events();
    assert!(matches!(events[1], ReconstructedEvent::Empty));
    match events[0] {
        ReconstructedEvent::ReconstructedEvent { id, tx, rx } => {
            assert_eq!(0, id);
            assert_eq!((2.0, 2.5), tx);
            assert_eq!((3.0, 4.0), rx);
        }
        _ => panic!("event 0 should be complete"),
    }
    match events[2] {
        ReconstructedEvent::ReconstructedEvent { id, tx, rx } => {
            assert_eq!(2, id);
            assert_eq!((0.0, 1.0), tx);
            assert_eq!((1.5, 2.0), rx);
        }
        _ => panic!("event 2 should be complete"),
    }
}

#[test]
fn duplicate_halves_are_refused() {
    let mut t: EventTable<u32> = EventTable::with_capacity(0);
    assert_eq!(Ok(()), t.record(1, true, 10));
    assert_eq!(Err(ReconstructError::DuplicateSenderHalf(1)), t.record(1, true, 11));
    assert_eq!(Ok(()), t.record(5, false, 20));
    assert_eq!(Err(ReconstructError::DuplicateReceiverHalf(5)), t.record(5, false, 21));
    assert_eq!(6, t.len());
    let events = t.into_events();
    assert!(matches!(events[1], ReconstructedEvent::PartialSenderEvent { id: 1, tx: 10 }));
    assert!(matches!(events[5], ReconstructedEvent::PartialReceiverEvent { id: 5, rx: 20 }));
}

#[test]
fn event_rows_skip_header_and_partial_tail() {
    let mut file = encode_header(0.0f64.to_le_bytes(), 10.0f64.to_le_bytes());
    for i in 0..3u64 {
        file.extend(encode_row(
            (i as f64).to_le_bytes(),
            (i as f64 + 0.5).to_le_bytes(),
            i,
            10 * i,
        ));
    }
    file.extend([1u8, 2, 3]);
    let rows = mpac_rs::aggregate::event_rows(&file);
    assert_eq!(3, rows.len());
    for (i, (s, e, id, bp)) in rows.into_iter().enumerate() {
        assert_eq!(i as f64, f64::from_le_bytes(s));
        assert_eq!(i as f64 + 0.5, f64::from_le_bytes(e));
        assert_eq!(i as u64, id);
        assert_eq!(10 * i as u64, bp);
    }
    assert!(mpac_rs::aggregate::event_rows(&file[..20]).is_empty());
    assert!(mpac_rs::aggregate::event_rows(&file[..32]).is_empty());
    assert_eq!(3, mpac_rs::aggregate::rows_in_file(file.len()));
    assert_eq!(0, mpac_rs::aggregate::rows_in_file(32));
}

#[test]
fn file_side_by_name() {
    assert_eq!(Some(true), mpac_rs::aggregate::file_side("tx_runner_0.bin"));
    assert_eq!(Some(false), mpac_rs::aggregate::file_side("rx_runner_3.bin"));
    assert_eq!(None, mpac_rs::aggregate::file_side("config_1_1.bin"));
    assert_eq!(None, mpac_rs::aggregate::file_side("t"));
    assert_eq!(Some(true), mpac_rs::aggregate::file_side("tx"));
}
