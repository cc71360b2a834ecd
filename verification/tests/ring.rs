use mpac_rs::v5::queue::{reallocate, ReaderError};

#[test]
fn reallocate_contiguous_range_moves_to_front() {
    let mut ring = vec![Some(1), Some(2), Some(3), None];
    let fresh: Vec<Option<i32>> = vec![None; 8];
    reallocate(&mut ring, fresh, 0, 2);
    assert_eq!(
        vec![Some(1), Some(2), Some(3), None, None, None, None, None],
        ring
    );
}

#[test]
fn reallocate_middle_range() {
    let mut ring = vec![None, Some(5), Some(6), None];
    reallocate(&mut ring, vec![None; 4], 1, 2);
    assert_eq!(vec![Some(5), Some(6), None, None], ring);
}

#[test]
fn reallocate_wrapped_range_unrolls_in_ring_order() {
    // front at index 2, back at index 0
    let mut ring = vec![Some(40), None, Some(20), Some(30)];
    reallocate(&mut ring, vec![None; 6], 2, 0);
    assert_eq!(vec![Some(20), Some(30), Some(40), None, None, None], ring);
}

#[test]
fn reallocate_full_wrapped_ring() {
    let mut ring = vec![3, 4, 1, 2];
    reallocate(&mut ring, vec![0; 8], 2, 1);
    assert_eq!(vec![1, 2, 3, 4, 0, 0, 0, 0], ring);
}

#[test]
fn reader_error_compares() {
    assert_eq!(ReaderError::CheckFailed, ReaderError::CheckFailed);
}
