//! The runners of the benchmark: each records the events of one thread or
//! group of threads, and draws event ids from one bank shared by all.
use std::path::PathBuf;
use std::sync::Arc;
use std::time::Instant;
use vstd::bytes::{spec_u64_from_le_bytes, spec_u64_to_le_bytes, u64_to_le_bytes};
use vstd::prelude::*;
use vstd::rwlock::{RwLock, RwLockPredicate};
use vstd::string::StringSliceAdditionalSpecFns;
use vstd::utf8::{encode_utf8, is_ascii_chars, is_ascii_chars_encode_utf8};

use crate::aggregate::row_fields;

verus! {

#[verifier::external_type_specification]
#[verifier::external_body]
pub struct ExInstant(Instant);

#[verifier::external_type_specification]
#[verifier::external_body]
pub struct ExPathBuf(PathBuf);

/// Reads the clock with `std::time::Instant::now`; nothing is stated of the
/// instant it gives.
#[verifier::external_body]
fn now() -> Instant {
    Instant::now()
}

/// Whether `t` is an instant that a reading of the clock gave: a call of
/// `now` returned it. Nothing orders instants here, so this does not say
/// when the reading was taken; a value that no reading gave, such as an
/// instant handed in from outside, is not known to be one.
pub closed spec fn is_clock_reading(t: Instant) -> bool {
    call_ensures(now, (), t)
}

/// Copies a path with `<PathBuf as Clone>::clone`: the copy is equal to the
/// path it was made from.
#[verifier::external_body]
fn clone_path(p: &PathBuf) -> (r: PathBuf)
    ensures
        r == *p,
{
    p.clone()
}

/// One event a runner recorded: when it started and ended, the id of the
/// message, and the length of the queue the channel reported.
#[derive(Debug)]
pub struct BenchEvent {
    pub start: Instant,
    pub end: Instant,
    pub id: u64,
    pub backpressure: u64,
}

/// The bank of event ids: the id it hands out next.
pub struct IdBank {
    next: u64,
}

impl View for IdBank {
    type V = u64;

    closed spec fn view(&self) -> u64 {
        self.next
    }
}

/// The id that comes after `id`: one more, and 0 after the largest.
pub open spec fn id_after(id: u64) -> u64 {
    if id == u64::MAX {
        0
    } else {
        (id + 1) as u64
    }
}

impl IdBank {
    /// A bank that hands out 0 first.
    pub fn new() -> (b: Self)
        ensures
            b@ == 0,
    {
        IdBank { next: 0 }
    }

    /// Hands out the next id, and moves on to the one after it.
    pub fn draw(&mut self) -> (id: u64)
        ensures
            id == old(self)@,
            final(self)@ == id_after(old(self)@),
    {
        let id = self.next;
        self.next = if id == u64::MAX {
            0
        } else {
            id + 1
        };
        id
    }

    /// Makes the bank hand out 0 next.
    pub fn reset(&mut self)
        ensures
            final(self)@ == 0,
    {
        self.next = 0;
    }
}

/// Any bank may be stored in the shared lock.
pub struct AnyIdBank;

impl RwLockPredicate<IdBank> for AnyIdBank {
    open spec fn inv(self, v: IdBank) -> bool {
        true
    }
}

/// Records the events of one thread.
pub struct BenchRunner {
    id_bank: Arc<RwLock<IdBank, AnyIdBank>>,
    global_start: Arc<Instant>,
    id: String,
    runner_start: Instant,
    log: Vec<BenchEvent>,
    save_to_root: PathBuf,
}

/// The runner at the root of the tree of runners.
pub struct MainBenchRunner {
    inner: BenchRunner,
}

/// An event that has started; `finish` records it.
pub struct EventGuard<'a> {
    start: Instant,
    runner: &'a mut BenchRunner,
}

impl BenchRunner {
    /// The runner's id: the ids of the runners it was spawned from and its
    /// own, joined by `::`.
    pub closed spec fn id(&self) -> Seq<char> {
        self.id@
    }

    /// The events recorded so far, oldest first.
    pub closed spec fn log(&self) -> Seq<BenchEvent> {
        self.log@
    }

    pub closed spec fn runner_start(&self) -> Instant {
        self.runner_start
    }

    /// The instant that all times in the results are measured from.
    pub closed spec fn global_start(&self) -> Instant {
        *self.global_start
    }

    pub closed spec fn save_to_root(&self) -> PathBuf {
        self.save_to_root
    }

    /// The lock that holds the runner's bank of event ids, as a value. Two
    /// locks equal here need not be one lock: the spec cannot tell a shared
    /// lock from an equal one.
    pub closed spec fn id_bank(&self) -> RwLock<IdBank, AnyIdBank> {
        *self.id_bank
    }

    /// A runner under this one: its id is this runner's id, `::` and `id`;
    /// it starts now, with no events; its global start and directory of
    /// results are this runner's, and its id bank is equal to this runner's
    /// (in the program it is the same bank, reached through a cloned `Arc`,
    /// which the contract does not state).
    pub fn spawn_runner(&self, id: String) -> (r: Self)
        ensures
            r.id() == self.id() + "::"@ + id@,
            r.log().len() == 0,
            r.id_bank() == self.id_bank(),
            r.global_start() == self.global_start(),
            r.save_to_root() == self.save_to_root(),
            is_clock_reading(r.runner_start()),
    {
        let full = self.id.clone().concat("::").concat(id.as_str());
        proof {
            reveal_strlit("::");
        }
        BenchRunner {
            global_start: self.global_start.clone(),
            id_bank: self.id_bank.clone(),
            id: full,
            runner_start: now(),
            log: Vec::new(),
            save_to_root: clone_path(&self.save_to_root),
        }
    }

    /// Draws the next event id from the shared bank, with one `IdBank::draw`
    /// inside one exclusive section of its lock; which id comes depends on
    /// the other runners.
    pub fn next_id(&self) -> u64 {
        let (mut bank, handle) = self.id_bank.acquire_write();
        let id = bank.draw();
        handle.release_write(bank);
        id
    }

    pub fn override_start(&mut self, start: Instant)
        ensures
            final(self).runner_start() == start,
            final(self).id() == old(self).id(),
            final(self).log() == old(self).log(),
            final(self).id_bank() == old(self).id_bank(),
            final(self).global_start() == old(self).global_start(),
            final(self).save_to_root() == old(self).save_to_root(),
    {
        self.runner_start = start;
    }

    /// Starts an event now.
    pub fn start_event<'a>(&'a mut self) -> (g: EventGuard<'a>)
        ensures
            *g.runner() == *old(self),
            *final(self) == *final(g.runner()),
            is_clock_reading(g.start()),
    {
        EventGuard { start: now(), runner: self }
    }
}

/// What a finished runner hands over to be written out.
#[derive(Debug)]
pub struct RunnerRecord {
    pub id: String,
    pub save_to_root: PathBuf,
    pub global_start: Instant,
    pub runner_start: Instant,
    pub runner_end: Instant,
    pub log: Vec<BenchEvent>,
}

impl BenchRunner {
    /// Ends the runner now and hands over its id, its directory of results,
    /// its times and its events.
    pub fn finish(self) -> (rec: RunnerRecord)
        ensures
            rec.id@ == self.id(),
            rec.save_to_root == self.save_to_root(),
            rec.global_start == self.global_start(),
            rec.runner_start == self.runner_start(),
            rec.log@ == self.log(),
            is_clock_reading(rec.runner_end),
    {
        let end = now();
        RunnerRecord {
            id: self.id,
            save_to_root: self.save_to_root,
            global_start: *self.global_start,
            runner_start: self.runner_start,
            runner_end: end,
            log: self.log,
        }
    }
}

impl MainBenchRunner {
    /// The runner itself.
    pub closed spec fn runner(&self) -> BenchRunner {
        self.inner
    }

    /// The root runner, with id `main_runner`, starting now; all times are
    /// measured from now, event ids count from 0, and results go under
    /// `result_root_path`.
    pub fn new(result_root_path: PathBuf) -> (r: Self)
        ensures
            r.runner().id() == "main_runner"@,
            r.runner().log().len() == 0,
            r.runner().runner_start() == r.runner().global_start(),
            r.runner().save_to_root() == result_root_path,
            is_clock_reading(r.runner().runner_start()),
    {
        let start = now();
        MainBenchRunner {
            inner: BenchRunner {
                global_start: Arc::new(start),
                id_bank: Arc::new(RwLock::new(IdBank::new(), Ghost(AnyIdBank))),
                id: String::from_str("main_runner"),
                runner_start: start,
                log: Vec::new(),
                save_to_root: result_root_path,
            },
        }
    }

    /// A runner under the root runner, as `BenchRunner::spawn_runner`.
    pub fn spawn_runner(&self, id: String) -> (r: BenchRunner)
        ensures
            r.id() == self.runner().id() + "::"@ + id@,
            r.log().len() == 0,
            r.id_bank() == self.runner().id_bank(),
            r.global_start() == self.runner().global_start(),
            r.save_to_root() == self.runner().save_to_root(),
            is_clock_reading(r.runner_start()),
    {
        self.inner.spawn_runner(id)
    }

    /// Makes event ids count from 0 again, with one `IdBank::reset` inside
    /// one exclusive section of the bank's lock.
    pub fn reset_ids(&self) {
        let (mut bank, handle) = self.inner.id_bank.acquire_write();
        bank.reset();
        handle.release_write(bank);
    }

    /// Ends the root runner, as `BenchRunner::finish`.
    pub fn finish(self) -> (rec: RunnerRecord)
        ensures
            rec.id@ == self.runner().id(),
            rec.save_to_root == self.runner().save_to_root(),
            rec.global_start == self.runner().global_start(),
            rec.runner_start == self.runner().runner_start(),
            rec.log@ == self.runner().log(),
            is_clock_reading(rec.runner_end),
    {
        self.inner.finish()
    }
}

impl<'a> EventGuard<'a> {
    pub closed spec fn start(&self) -> Instant {
        self.start
    }

    pub closed spec fn runner(&self) -> &'a mut BenchRunner {
        self.runner
    }

    /// Drops the event without recording it; the runner is left as it was.
    pub fn discard(self)
        ensures
            *final(self.runner()) == *self.runner(),
    {
    }

    /// Ends the event now and records it with the message id and the
    /// length of the queue.
    pub fn finish(self, id: u64, len: u64)
        ensures
            final(self.runner()).log() == self.runner().log().push(
                BenchEvent {
                    start: self.start(),
                    end: final(self.runner()).log().last().end,
                    id,
                    backpressure: len,
                },
            ),
            final(self.runner()).id() == self.runner().id(),
            final(self.runner()).runner_start() == self.runner().runner_start(),
            final(self.runner()).id_bank() == self.runner().id_bank(),
            final(self.runner()).global_start() == self.runner().global_start(),
            final(self.runner()).save_to_root() == self.runner().save_to_root(),
            is_clock_reading(final(self.runner()).log().last().end),
    {
        self.runner.log.push(BenchEvent { start: self.start, end: now(), id, backpressure: len })
    }
}

/// One row of an event file: the start and the end time as the bytes of
/// two little-endian floats, then the id and the backpressure as
/// little-endian integers. A file starts with the same kind of row, holding
/// the runner's start and end and two zero integers.
pub open spec fn row_bytes(start: Seq<u8>, end: Seq<u8>, id: u64, backpressure: u64) -> Seq<u8> {
    start + end + spec_u64_to_le_bytes(id) + spec_u64_to_le_bytes(backpressure)
}

fn push_all(out: &mut Vec<u8>, bytes: &[u8])
    ensures
        final(out)@ == old(out)@ + bytes@,
{
    let mut i: usize = 0;
    while i < bytes.len()
        invariant
            i <= bytes@.len(),
            out@ == old(out)@ + bytes@.subrange(0, i as int),
        decreases bytes@.len() - i,
    {
        out.push(bytes[i]);
        i = i + 1;
        assert(bytes@.subrange(0, i as int) =~= bytes@.subrange(0, i - 1).push(bytes@[i - 1]));
    }
    assert(bytes@.subrange(0, i as int) =~= bytes@);
}

/// The bytes of one row of an event file.
pub fn encode_row(start: [u8; 8], end: [u8; 8], id: u64, backpressure: u64) -> (row: Vec<u8>)
    ensures
        row@ == row_bytes(start@, end@, id, backpressure),
{
    let mut row: Vec<u8> = Vec::with_capacity(32);
    push_all(&mut row, start.as_slice());
    push_all(&mut row, end.as_slice());
    let id_bytes = u64_to_le_bytes(id);
    push_all(&mut row, id_bytes.as_slice());
    let bp_bytes = u64_to_le_bytes(backpressure);
    push_all(&mut row, bp_bytes.as_slice());
    row
}

/// The first row of an event file: the runner's start and end.
pub fn encode_header(runner_start: [u8; 8], runner_end: [u8; 8]) -> (row: Vec<u8>)
    ensures
        row@ == row_bytes(runner_start@, runner_end@, 0, 0),
{
    encode_row(runner_start, runner_end, 0, 0)
}

/// A row of an event file reads back as what was written into it.
pub proof fn law_row_round_trip(start: Seq<u8>, end: Seq<u8>, id: u64, backpressure: u64)
    requires
        start.len() == 8,
        end.len() == 8,
    ensures
        row_bytes(start, end, id, backpressure).len() == 32,
        row_fields(row_bytes(start, end, id, backpressure)) == (start, end, id, backpressure),
{
    vstd::bytes::lemma_auto_spec_u64_to_from_le_bytes();
    let r = row_bytes(start, end, id, backpressure);
    assert(r.subrange(0, 8) =~= start);
    assert(r.subrange(8, 16) =~= end);
    assert(r.subrange(16, 24) =~= spec_u64_to_le_bytes(id));
    assert(r.subrange(24, 32) =~= spec_u64_to_le_bytes(backpressure));
}

/// Whether the bytes at `j` and `j + 1` are `::`.
pub open spec fn is_separator_at(b: Seq<u8>, j: int) -> bool {
    0 <= j && j + 1 < b.len() && b[j] == 58 && b[j + 1] == 58
}

/// The byte ranges of the parts of `b` between the separators `::`, taken
/// from the left: consecutive ranges cover `b`, each is followed by a
/// separator except the last, and no separator starts inside a range.
pub open spec fn is_split_by_separator(b: Seq<u8>, r: Seq<(usize, usize)>) -> bool {
    &&& r.len() >= 1
    &&& r[0].0 == 0
    &&& r[r.len() - 1].1 == b.len()
    &&& forall|k: int| 0 <= k < r.len() ==> #[trigger] r[k].0 <= r[k].1 <= b.len()
    &&& forall|k: int|
        0 <= k < r.len() - 1 ==> is_separator_at(b, #[trigger] r[k].1 as int) && r[k + 1].0 == r[k].1
            + 2
    &&& forall|k: int, j: int|
        0 <= k < r.len() && #[trigger] r[k].0 <= j < r[k].1 ==> !#[trigger] is_separator_at(b, j)
}

/// The byte ranges of the parts of a runner's id: the directories its
/// results go in, then the name of its file.
pub fn id_segments(id: &str) -> (r: Vec<(usize, usize)>)
    ensures
        is_split_by_separator(id.spec_bytes(), r@),
{
    let b = id.as_bytes();
    let n = b.len();
    let mut r: Vec<(usize, usize)> = Vec::new();
    let mut seg_start: usize = 0;
    let mut i: usize = 0;
    while i < n
        invariant
            n == b@.len(),
            seg_start <= i <= n,
            r@.len() == 0 ==> seg_start == 0,
            r@.len() > 0 ==> r@[r@.len() - 1].1 + 2 == seg_start,
            forall|k: int| 0 <= k < r@.len() ==> #[trigger] r@[k].0 <= r@[k].1 <= n,
            forall|k: int|
                0 <= k < r@.len() - 1 ==> is_separator_at(b@, #[trigger] r@[k].1 as int) && r@[k
                    + 1].0 == r@[k].1 + 2,
            r@.len() > 0 ==> is_separator_at(b@, r@[r@.len() - 1].1 as int),
            r@.len() > 0 ==> r@[0].0 == 0,
            forall|k: int, j: int|
                0 <= k < r@.len() && #[trigger] r@[k].0 <= j < r@[k].1 ==> !#[trigger] is_separator_at(b@, j),
            forall|j: int| seg_start <= j < i ==> !#[trigger] is_separator_at(b@, j),
        decreases n - i,
    {
        if i + 1 < n && b[i] == 58u8 && b[i + 1] == 58u8 {
            r.push((seg_start, i));
            i = i + 2;
            seg_start = i;
        } else {
            i = i + 1;
        }
    }
    r.push((seg_start, n));
    r
}

proof fn lemma_encode_utf8_concat(a: Seq<char>, b: Seq<char>)
    ensures
        encode_utf8(a + b) == encode_utf8(a) + encode_utf8(b),
    decreases a.len(),
{
    if a.len() == 0 {
        assert(a + b =~= b);
        assert(encode_utf8(a) + encode_utf8(b) =~= encode_utf8(b));
    } else {
        lemma_encode_utf8_concat(a.drop_first(), b);
        assert((a + b).drop_first() =~= a.drop_first() + b);
        assert((a + b)[0] == a[0]);
        assert(encode_utf8(a + b) =~= encode_utf8(a) + encode_utf8(b));
    }
}

/// The file of a runner lies in the directory of the runner it was spawned
/// from: when the parent's id does not end in `:` and the child's own id
/// holds no `:`, the parts of the spawned id are the parent's parts and
/// then the child's id.
pub proof fn law_spawned_runner_file_in_parent_directory(
    parent: Seq<char>,
    child: Seq<char>,
    r: Seq<(usize, usize)>,
)
    requires
        is_split_by_separator(encode_utf8(parent), r),
        encode_utf8(parent).len() == 0 || encode_utf8(parent).last() != 58,
        forall|i: int| 0 <= i < encode_utf8(child).len() ==> #[trigger] encode_utf8(child)[i] != 58,
        encode_utf8(parent + "::"@ + child).len() <= usize::MAX,
    ensures
        is_split_by_separator(
            encode_utf8(parent + "::"@ + child),
            r.push(
                (
                    (encode_utf8(parent).len() + 2) as usize,
                    encode_utf8(parent + "::"@ + child).len() as usize,
                ),
            ),
        ),
{
    reveal_strlit("::");
    let sep = "::"@;
    assert(is_ascii_chars(sep));
    is_ascii_chars_encode_utf8(sep);
    let sep_bytes = encode_utf8(sep);
    assert(sep_bytes =~= seq![58u8, 58u8]);
    lemma_encode_utf8_concat(parent, sep);
    lemma_encode_utf8_concat(parent + sep, child);
    let p = encode_utf8(parent);
    let c = encode_utf8(child);
    let b = encode_utf8(parent + sep + child);
    assert(b =~= p + seq![58u8, 58u8] + c);
    let pl = p.len() as int;
    assert(forall|i: int| 0 <= i < pl ==> #[trigger] b[i] == p[i]);
    assert(b[pl] == 58 && b[pl + 1] == 58);
    assert(forall|i: int| 0 <= i < c.len() ==> #[trigger] b[pl + 2 + i] == c[i]);
    let last = ((pl + 2) as usize, b.len() as usize);
    let r2 = r.push(last);
    assert forall|k: int| 0 <= k < r2.len() - 1 implies is_separator_at(b, #[trigger] r2[k].1 as int)
        && r2[k + 1].0 == r2[k].1 + 2 by {
        if k < r.len() - 1 {
            assert(is_separator_at(p, r[k].1 as int));
        }
    }
    assert forall|k: int, j: int|
        0 <= k < r2.len() && #[trigger] r2[k].0 <= j < r2[k].1 implies !#[trigger] is_separator_at(b, j) by {
        if k < r.len() {
            assert(!is_separator_at(p, j));
            if j + 1 == pl {
                assert(b[j] == p.last());
            }
        } else {
            assert(b[j] == c[j - pl - 2]);
        }
    }
}

} // verus!
