use std::sync::atomic::Ordering;
use vstd::prelude::*;
use vstd::rwlock::{RwLock, RwLockPredicate};

verus! {

/// The state of the queue as a whole.
#[derive(Debug, Clone, Copy, PartialEq, Eq, Structural)]
pub enum Status {
    Uninitialized,
    Active,
    /// Whoever sets this status performs the resize; readers and writers
    /// that see it stay out of the queue.
    WaitingToResize,
}

/// The number that stands for a status in a cell.
pub open spec fn status_code(s: Status) -> u8 {
    match s {
        Status::Uninitialized => 0,
        Status::Active => 1,
        Status::WaitingToResize => 2,
    }
}

impl Status {
    pub fn code(&self) -> (c: u8)
        ensures
            c == status_code(*self),
    {
        match self {
            Status::Uninitialized => 0,
            Status::Active => 1,
            Status::WaitingToResize => 2,
        }
    }

    pub fn from_code(code: u8) -> (s: Self)
        requires
            code <= 2,
        ensures
            status_code(s) == code,
    {
        match code {
            0 => Status::Uninitialized,
            1 => Status::Active,
            _ => Status::WaitingToResize,
        }
    }
}

/// Codes stand for statuses one to one, so decoding a code gives back the
/// status that was encoded.
pub proof fn law_status_codes_round_trip(s: Status)
    ensures
        status_code(s) <= 2,
        forall|t: Status| #[trigger] status_code(t) == status_code(s) ==> t == s,
{
}

/// The status that a code stands for; the codes of no status are read as
/// the last one.
pub open spec fn status_of_code(c: u8) -> Status {
    if c == 0 {
        Status::Uninitialized
    } else if c == 1 {
        Status::Active
    } else {
        Status::WaitingToResize
    }
}

/// A cell that holds the code of one status, owned by one thread.
pub struct StatusCell {
    code: u8,
}

impl View for StatusCell {
    type V = Status;

    closed spec fn view(&self) -> Status {
        status_of_code(self.code)
    }
}

impl StatusCell {
    #[verifier::type_invariant]
    spec fn wf(&self) -> bool {
        self.code <= 2
    }

    pub fn new(status: Status) -> (c: Self)
        ensures
            c@ == status,
    {
        StatusCell { code: status.code() }
    }

    pub fn load(&self) -> (s: Status)
        ensures
            s == self@,
    {
        proof {
            use_type_invariant(self);
        }
        Status::from_code(self.code)
    }

    pub fn store(&mut self, status: Status)
        ensures
            final(self)@ == status,
    {
        self.code = status.code();
    }

    /// Replaces `current` by `new` if the cell holds `current`, and gives
    /// `Ok` with the status it held; otherwise leaves the cell as it is and
    /// gives `Err` with the status it holds.
    pub fn compare_exchange(&mut self, current: Status, new: Status) -> (r: Result<Status, Status>)
        ensures
            old(self)@ == current ==> final(self)@ == new && r == Ok::<Status, Status>(current),
            old(self)@ != current ==> final(self)@ == old(self)@ && r == Err::<Status, Status>(
                old(self)@,
            ),
    {
        let held = self.load();
        if held == current {
            self.store(new);
            Ok(held)
        } else {
            Err(held)
        }
    }
}

/// Any cell may be stored in a status's lock.
pub struct AnyStatusCell;

impl RwLockPredicate<StatusCell> for AnyStatusCell {
    open spec fn inv(self, v: StatusCell) -> bool {
        true
    }
}

/// A cell shared between threads that holds one status.
///
/// A `StatusCell` lives in vstd's verified reader-writer lock; each
/// operation is one `StatusCell` operation inside one section of that lock,
/// and so acts as one atomic access to the code. Which status a section
/// meets depends on the other threads, so the results are stated for every
/// status the cell may hold; the operations themselves are stated exactly
/// on `StatusCell`. The memory orderings that the operations take are
/// accepted as given; every section is at least as strong as any of them.
pub struct AtomicStatus {
    inner: RwLock<StatusCell, AnyStatusCell>,
}

impl AtomicStatus {
    pub fn new(status: Status) -> Self {
        AtomicStatus { inner: RwLock::new(StatusCell::new(status), Ghost(AnyStatusCell)) }
    }

    /// Reads the status the cell holds at the moment of reading.
    pub fn load(&self, _ordering: Ordering) -> Status {
        let handle = self.inner.acquire_read();
        let s = handle.borrow().load();
        handle.release_read();
        s
    }

    pub fn store(&self, status: Status, _ordering: Ordering) {
        let (mut cell, handle) = self.inner.acquire_write();
        cell.store(status);
        handle.release_write(cell);
    }

    /// Replaces `current` by `new` if the cell holds `current`: `Ok` with the
    /// status it held then, or `Err` with the other status it held.
    pub fn compare_exchange(
        &self,
        current: Status,
        new: Status,
        _success: Ordering,
        _failure: Ordering,
    ) -> (r: Result<Status, Status>)
        ensures
            r matches Ok(s) ==> s == current,
            r matches Err(s) ==> s != current,
    {
        let (mut cell, handle) = self.inner.acquire_write();
        let r = cell.compare_exchange(current, new);
        handle.release_write(cell);
        r
    }
}

} // verus!
