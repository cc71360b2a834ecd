//! The parts of the resizable ring-buffer queue that are plain computation.
use vstd::prelude::*;

verus! {

/// A receive gave up because the check it was given failed while it waited.
#[derive(Debug, PartialEq, Eq, Structural)]
pub enum ReaderError {
    CheckFailed,
}

/// How many slots of a ring of `len` slots lie from `start` to `end`, both
/// included, going round the end of the ring when `end` is before `start`.
pub open spec fn live_count(len: nat, start: nat, end: nat) -> nat {
    if start > end {
        (len - start + end + 1) as nat
    } else {
        (end - start + 1) as nat
    }
}

/// The slots from `start` to `end`, both included, are one more than the
/// steps from `start` forward to `end` round a ring of `len` slots: one
/// slot when they are equal, and never more than the ring holds.
pub proof fn law_live_count_is_ring_distance(len: nat, start: nat, end: nat)
    requires
        start < len,
        end < len,
    ensures
        live_count(len, start, end) == (end - start) % (len as int) + 1,
        1 <= live_count(len, start, end) <= len,
        live_count(len, start, start) == 1,
{
    if start > end {
        assert((end - start) % (len as int) == end - start + len) by (nonlinear_arith)
            requires
                start < len,
                end < start,
        ;
    } else {
        assert((end - start) % (len as int) == end - start) by (nonlinear_arith)
            requires
                start <= end,
                end < len,
        ;
    }
    assert((start - start) % (len as int) == 0) by (nonlinear_arith)
        requires
            len > 0,
    ;
}

/// Moves the slots of the ring `vec` from `start` to `end` to the front of
/// the slots `fresh`, in ring order, and makes the result the ring; the
/// other slots of the old ring are dropped.
pub fn reallocate<L>(vec: &mut Vec<L>, fresh: Vec<L>, start: usize, end: usize)
    requires
        start < old(vec)@.len(),
        end < old(vec)@.len(),
        old(vec)@.len() <= fresh@.len(),
    ensures
        final(vec)@.len() == fresh@.len(),
        forall|i: int|
            0 <= i < live_count(old(vec)@.len(), start as nat, end as nat) ==> #[trigger] final(vec)@[i]
                == old(vec)@[(start + i) % (old(vec)@.len() as int)],
        forall|i: int|
            live_count(old(vec)@.len(), start as nat, end as nat) <= i < fresh@.len()
                ==> #[trigger] final(vec)@[i] == fresh@[i],
        forall|i: int|
            0 <= i <= (end - start) % (old(vec)@.len() as int) ==> #[trigger] final(vec)@[i]
                == old(vec)@[(start + i) % (old(vec)@.len() as int)],
        final(vec)@[0] == old(vec)@[start as int],
{
    proof {
        let n = old(vec)@.len();
        law_live_count_is_ring_distance(n, start as nat, end as nat);
        assert((start + 0) % (n as int) == start) by (nonlinear_arith)
            requires
                start < n,
        ;
    }
    let ghost ring = vec@;
    let old_len = vec.len();
    let mut old = Vec::new();
    std::mem::swap(&mut old, vec);
    let mut moved: Vec<L>;
    if start > end {
        moved = old.split_off(start);
        old.truncate(end + 1);
        moved.append(&mut old);
        assert forall|i: int|
            0 <= i < live_count(old_len as nat, start as nat, end as nat) implies moved@[i] == ring[(
            start + i) % (old_len as int)] by {
            if i < old_len - start {
                assert((start + i) % (old_len as int) == start + i) by (nonlinear_arith)
                    requires
                        0 <= start + i < old_len,
                ;
            } else {
                assert((start + i) % (old_len as int) == start + i - old_len) by (nonlinear_arith)
                    requires
                        old_len <= start + i < 2 * old_len,
                ;
            }
        }
    } else {
        moved = old.split_off(start);
        moved.truncate(end - start + 1);
        assert forall|i: int|
            0 <= i < live_count(old_len as nat, start as nat, end as nat) implies moved@[i] == ring[(
            start + i) % (old_len as int)] by {
            assert((start + i) % (old_len as int) == start + i) by (nonlinear_arith)
                requires
                    0 <= start + i < old_len,
            ;
        }
    }
    let count = moved.len();
    let mut fresh = fresh;
    let mut rest = fresh.split_off(count);
    moved.append(&mut rest);
    *vec = moved;
}

} // verus!
