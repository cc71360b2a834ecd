//! Reading the benchmark's binary event files back: rows of bytes, and the
//! events put together from the sending and the receiving halves.
use vstd::bytes::{spec_u64_from_le_bytes, u64_from_le_bytes};
use vstd::prelude::*;
use vstd::string::StringSliceAdditionalSpecFns;

verus! {

/// The length in bytes of one row of an event file, and of its header.
pub const BENCH_DATA_BIN_ROW_LENGTH: usize = 32;

/// What a row of 32 bytes holds: the start and the end time as the bytes of
/// two floats, the id and the backpressure.
pub open spec fn row_fields(row: Seq<u8>) -> (Seq<u8>, Seq<u8>, u64, u64) {
    (
        row.subrange(0, 8),
        row.subrange(8, 16),
        spec_u64_from_le_bytes(row.subrange(16, 24)),
        spec_u64_from_le_bytes(row.subrange(24, 32)),
    )
}

fn take8(data: &[u8], at: usize) -> (b: [u8; 8])
    requires
        at + 8 <= data@.len(),
    ensures
        b@ == data@.subrange(at as int, at + 8),
{
    let b = [
        data[at],
        data[at + 1],
        data[at + 2],
        data[at + 3],
        data[at + 4],
        data[at + 5],
        data[at + 6],
        data[at + 7],
    ];
    assert(b@ =~= data@.subrange(at as int, at + 8));
    b
}

fn parse_row_at(data: &[u8], at: usize) -> (r: ([u8; 8], [u8; 8], u64, u64))
    requires
        at + 32 <= data@.len(),
    ensures
        (r.0@, r.1@, r.2, r.3) == row_fields(data@.subrange(at as int, at + 32)),
{
    let n = data.len();
    assert(at + 32 <= n);
    let start = take8(data, at);
    let end = take8(data, at + 8);
    let id = take8(data, at + 16);
    let backpressure = take8(data, at + 24);
    let ghost row = data@.subrange(at as int, at + 32);
    assert(row.subrange(0, 8) =~= start@);
    assert(row.subrange(8, 16) =~= end@);
    assert(row.subrange(16, 24) =~= id@);
    assert(row.subrange(24, 32) =~= backpressure@);
    (start, end, u64_from_le_bytes(id.as_slice()), u64_from_le_bytes(backpressure.as_slice()))
}

/// Splits a row into the bytes of its two times, its id and its
/// backpressure.
pub fn parse_row(row: &[u8; 32]) -> (r: ([u8; 8], [u8; 8], u64, u64))
    ensures
        (r.0@, r.1@, r.2, r.3) == row_fields(row@),
{
    let r = parse_row_at(row.as_slice(), 0);
    assert(row@.subrange(0, 32) =~= row@);
    r
}

/// The rows of an event file after its header row; bytes after the last
/// full row are ignored.
pub fn event_rows(data: &[u8]) -> (rows: Vec<([u8; 8], [u8; 8], u64, u64)>)
    ensures
        rows@.len() == if data@.len() < 32 { 0 } else { data@.len() / 32 - 1 },
        forall|k: int|
            0 <= k < rows@.len() ==> ((#[trigger] rows@[k]).0@, rows@[k].1@, rows@[k].2, rows@[k].3)
                == row_fields(data@.subrange(32 * (k + 1), 32 * (k + 2))),
{
    let n = data.len();
    let mut rows: Vec<([u8; 8], [u8; 8], u64, u64)> = Vec::new();
    if n < 32 {
        return rows;
    }
    let count = n / 32 - 1;
    let mut k: usize = 0;
    while k < count
        invariant
            n == data@.len(),
            n >= 32,
            count == n / 32 - 1,
            k <= count,
            rows@.len() == k,
            forall|j: int|
                0 <= j < k ==> ((#[trigger] rows@[j]).0@, rows@[j].1@, rows@[j].2, rows@[j].3)
                    == row_fields(data@.subrange(32 * (j + 1), 32 * (j + 2))),
        decreases count - k,
    {
        assert(32 * (k + 2) <= n) by (nonlinear_arith)
            requires
                k < count,
                count == n / 32 - 1,
        ;
        let row = parse_row_at(data, 32 * (k + 1));
        rows.push(row);
        k = k + 1;
    }
    rows
}

/// How many rows follow the header in an event file of `file_len` bytes.
pub fn rows_in_file(file_len: usize) -> (n: usize)
    requires
        file_len >= 32,
    ensures
        n == file_len / 32 - 1,
{
    file_len / BENCH_DATA_BIN_ROW_LENGTH - 1
}

/// Which side recorded an event file, by its name: `Some(true)` for a
/// sender's (`tx...`), `Some(false)` for a receiver's (`rx...`), `None`
/// for any other file.
pub fn file_side(name: &str) -> (side: Option<bool>)
    ensures
        side == if name.spec_bytes().len() >= 2 && name.spec_bytes()[0] == 116 && name.spec_bytes()[1]
            == 120 {
            Some(true)
        } else if name.spec_bytes().len() >= 2 && name.spec_bytes()[0] == 114
            && name.spec_bytes()[1] == 120 {
            Some(false)
        } else {
            None::<bool>
        },
{
    let b = name.as_bytes();
    if b.len() >= 2 && b[0] == 116u8 && b[1] == 120u8 {
        Some(true)
    } else if b.len() >= 2 && b[0] == 114u8 && b[1] == 120u8 {
        Some(false)
    } else {
        None
    }
}

/// What is known of one event id: nothing, the half its sender recorded,
/// the half its receiver recorded, or both. `S` is the time span of a half.
#[derive(Debug)]
pub enum ReconstructedEvent<S> {
    Empty,
    PartialSenderEvent { id: u64, tx: S },
    PartialReceiverEvent { id: u64, rx: S },
    ReconstructedEvent { id: u64, tx: S, rx: S },
}

/// A half of an event arrived for an id that already has that half.
#[derive(Debug, PartialEq, Eq, Structural)]
pub enum ReconstructError {
    /// The id already has a half recorded by a receiver.
    DuplicateReceiverHalf(u64),
    /// The id already has a half recorded by a sender.
    DuplicateSenderHalf(u64),
}

/// What an entry becomes when the half of event `id` recorded by a sender
/// (`is_tx`) or by a receiver, with time span `span`, arrives.
pub open spec fn merge_rule<S>(e: ReconstructedEvent<S>, id: u64, is_tx: bool, span: S) -> Result<
    ReconstructedEvent<S>,
    ReconstructError,
> {
    match e {
        ReconstructedEvent::PartialReceiverEvent { id: i, rx } => if is_tx {
            Ok(ReconstructedEvent::ReconstructedEvent { id: i, tx: span, rx })
        } else {
            Err(ReconstructError::DuplicateReceiverHalf(i))
        },
        ReconstructedEvent::PartialSenderEvent { id: i, tx } => if !is_tx {
            Ok(ReconstructedEvent::ReconstructedEvent { id: i, tx, rx: span })
        } else {
            Err(ReconstructError::DuplicateSenderHalf(i))
        },
        ReconstructedEvent::ReconstructedEvent { .. } => Ok(e),
        ReconstructedEvent::Empty => if is_tx {
            Ok(ReconstructedEvent::PartialSenderEvent { id, tx: span })
        } else {
            Ok(ReconstructedEvent::PartialReceiverEvent { id, rx: span })
        },
    }
}

/// The entries extended with empty ones until index `id` exists.
pub open spec fn padded_to<S>(events: Seq<ReconstructedEvent<S>>, id: nat) -> Seq<
    ReconstructedEvent<S>,
> {
    if events.len() <= id {
        events + Seq::new((id + 1 - events.len()) as nat, |i: int| ReconstructedEvent::Empty)
    } else {
        events
    }
}

/// The events of one run, indexed by their ids, which count up from 0.
#[derive(Debug)]
pub struct EventTable<S> {
    events: Vec<ReconstructedEvent<S>>,
}

impl<S> View for EventTable<S> {
    type V = Seq<ReconstructedEvent<S>>;

    closed spec fn view(&self) -> Seq<ReconstructedEvent<S>> {
        self.events@
    }
}

impl<S> EventTable<S> {
    /// An empty table with room for `capacity` ids.
    pub fn with_capacity(capacity: usize) -> (t: Self)
        ensures
            t@ == Seq::<ReconstructedEvent<S>>::empty(),
    {
        EventTable { events: Vec::with_capacity(capacity) }
    }

    pub fn len(&self) -> (n: usize)
        ensures
            n == self@.len(),
    {
        self.events.len()
    }

    /// Whether both halves of event `id` are known.
    pub fn is_complete(&self, id: u64) -> (b: bool)
        ensures
            b == (id < self@.len() && self@[id as int] is ReconstructedEvent),
    {
        if id < self.events.len() as u64 {
            let i = id as usize;
            match &self.events[i] {
                ReconstructedEvent::ReconstructedEvent { .. } => true,
                _ => false,
            }
        } else {
            false
        }
    }

    /// Records the half of event `id` that a sender (`is_tx`) or a receiver
    /// recorded; fails when that half of the event is already known.
    pub fn record(&mut self, id: u64, is_tx: bool, span: S) -> (r: Result<(), ReconstructError>)
        requires
            id < usize::MAX,
            !(id < old(self)@.len() && old(self)@[id as int] is ReconstructedEvent),
        ensures
            ({
                let padded = padded_to(old(self)@, id as nat);
                match merge_rule(padded[id as int], id, is_tx, span) {
                    Ok(e) => r is Ok && final(self)@ == padded.update(id as int, e),
                    Err(err) => r == Err::<(), ReconstructError>(err) && final(self)@ == padded,
                }
            }),
    {
        let idx = id as usize;
        let ghost old_events = self.events@;
        if self.events.len() < idx + 1 {
            while self.events.len() < idx + 1
                invariant
                    idx < usize::MAX,
                    old_events.len() < idx + 1,
                    old_events.len() <= self.events@.len() <= idx + 1,
                    self.events@ =~= old_events + Seq::new(
                        (self.events@.len() - old_events.len()) as nat,
                        |i: int| ReconstructedEvent::Empty,
                    ),
                decreases idx + 1 - self.events.len(),
            {
                self.events.push(ReconstructedEvent::Empty);
            }
        }
        assert(self.events@ =~= padded_to(old_events, id as nat));
        let ghost padded = self.events@;
        let mut entry = ReconstructedEvent::Empty;
        std::mem::swap(&mut entry, &mut self.events[idx]);
        let (result, next) = match entry {
            ReconstructedEvent::PartialReceiverEvent { id: i, rx } => {
                if is_tx {
                    (Ok(()), ReconstructedEvent::ReconstructedEvent { id: i, tx: span, rx })
                } else {
                    (
                        Err(ReconstructError::DuplicateReceiverHalf(i)),
                        ReconstructedEvent::PartialReceiverEvent { id: i, rx },
                    )
                }
            },
            ReconstructedEvent::PartialSenderEvent { id: i, tx } => {
                if !is_tx {
                    (Ok(()), ReconstructedEvent::ReconstructedEvent { id: i, tx, rx: span })
                } else {
                    (
                        Err(ReconstructError::DuplicateSenderHalf(i)),
                        ReconstructedEvent::PartialSenderEvent { id: i, tx },
                    )
                }
            },
            ReconstructedEvent::ReconstructedEvent { id: i, tx, rx } => {
                (Ok(()), ReconstructedEvent::ReconstructedEvent { id: i, tx, rx })
            },
            ReconstructedEvent::Empty => {
                if is_tx {
                    (Ok(()), ReconstructedEvent::PartialSenderEvent { id, tx: span })
                } else {
                    (Ok(()), ReconstructedEvent::PartialReceiverEvent { id, rx: span })
                }
            },
        };
        self.events.set(idx, next);
        assert(result is Err ==> self.events@ =~= padded);
        result
    }

    /// Hands out the entries, indexed by event id.
    pub fn into_events(self) -> (v: Vec<ReconstructedEvent<S>>)
        ensures
            v@ == self@,
    {
        self.events
    }
}

/// The halves of one event can arrive in either order: both orders give the
/// same complete event, and a second half from the same side is refused
/// with the id.
pub proof fn law_halves_commute<S>(id: u64, tx: S, rx: S)
    ensures
        merge_rule(merge_rule(ReconstructedEvent::Empty, id, true, tx)->Ok_0, id, false, rx)
            == Ok::<ReconstructedEvent<S>, ReconstructError>(
            ReconstructedEvent::ReconstructedEvent { id, tx, rx },
        ),
        merge_rule(merge_rule(ReconstructedEvent::Empty, id, false, rx)->Ok_0, id, true, tx)
            == Ok::<ReconstructedEvent<S>, ReconstructError>(
            ReconstructedEvent::ReconstructedEvent { id, tx, rx },
        ),
        merge_rule(merge_rule(ReconstructedEvent::Empty, id, true, tx)->Ok_0, id, true, rx)
            == Err::<ReconstructedEvent<S>, ReconstructError>(
            ReconstructError::DuplicateSenderHalf(id),
        ),
        merge_rule(merge_rule(ReconstructedEvent::Empty, id, false, rx)->Ok_0, id, false, tx)
            == Err::<ReconstructedEvent<S>, ReconstructError>(
            ReconstructError::DuplicateReceiverHalf(id),
        ),
{
}

} // verus!
