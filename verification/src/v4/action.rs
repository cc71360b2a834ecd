use std::sync::atomic::Ordering;
use vstd::prelude::*;
use vstd::rwlock::{RwLock, RwLockPredicate};

verus! {

/// What a handle of the queue is doing at the moment.
#[derive(Debug, Clone, Copy, PartialEq, Eq, Structural)]
pub enum Action {
    Idle,
    Reading,
    Writing,
    ResizeRequested,
    ExternallyBlocked,
}

/// The number that stands for an action in a cell.
pub open spec fn action_code(a: Action) -> u8 {
    match a {
        Action::Idle => 0,
        Action::Reading => 1,
        Action::Writing => 2,
        Action::ResizeRequested => 3,
        Action::ExternallyBlocked => 4,
    }
}

impl Action {
    pub fn code(&self) -> (c: u8)
        ensures
            c == action_code(*self),
    {
        match self {
            Action::Idle => 0,
            Action::Reading => 1,
            Action::Writing => 2,
            Action::ResizeRequested => 3,
            Action::ExternallyBlocked => 4,
        }
    }

    pub fn from_code(code: u8) -> (a: Self)
        requires
            code <= 4,
        ensures
            action_code(a) == code,
    {
        match code {
            0 => Action::Idle,
            1 => Action::Reading,
            2 => Action::Writing,
            3 => Action::ResizeRequested,
            _ => Action::ExternallyBlocked,
        }
    }
}

/// Codes stand for actions one to one, so decoding a code gives back the
/// action that was encoded.
pub proof fn law_action_codes_round_trip(a: Action)
    ensures
        action_code(a) <= 4,
        forall|b: Action| #[trigger] action_code(b) == action_code(a) ==> b == a,
{
}

/// What a writer that wants exclusive access does after it failed to turn
/// another handle's action from `Idle` into `ExternallyBlocked` and found
/// the action given.
#[derive(Debug, Clone, Copy, PartialEq, Eq, Structural)]
pub enum BlockStep {
    /// The handle is busy or idle for a moment: try again.
    Retry,
    /// A reader asked for a resize, which the writer reports: try again.
    RetryAfterResizeRequest,
    /// The writer found its own request for a resize: count it and move on.
    OwnRequest,
    /// Another writer has already blocked the handle.
    BlockedElsewhere,
    /// The handle shows the action of the other role.
    WrongRole,
}

/// The step for an action observed on a reader's handle.
pub open spec fn reader_block_rule(a: Action) -> BlockStep {
    match a {
        Action::ResizeRequested => BlockStep::RetryAfterResizeRequest,
        Action::Idle => BlockStep::Retry,
        Action::Reading => BlockStep::Retry,
        Action::ExternallyBlocked => BlockStep::BlockedElsewhere,
        Action::Writing => BlockStep::WrongRole,
    }
}

/// The step for an action observed on a writer's handle.
pub open spec fn writer_block_rule(a: Action) -> BlockStep {
    match a {
        Action::ResizeRequested => BlockStep::OwnRequest,
        Action::Idle => BlockStep::Retry,
        Action::Writing => BlockStep::Retry,
        Action::ExternallyBlocked => BlockStep::BlockedElsewhere,
        Action::Reading => BlockStep::WrongRole,
    }
}

/// A writer counts a request for a resize as its own only on a writer's
/// handle, and retries on a handle exactly while that handle is idle or
/// busy in its own role.
pub proof fn law_block_steps_distinguish_roles(a: Action)
    ensures
        reader_block_rule(a) != BlockStep::OwnRequest,
        writer_block_rule(a) != BlockStep::RetryAfterResizeRequest,
        (reader_block_rule(a) == BlockStep::Retry) <==> (a == Action::Idle || a == Action::Reading),
        (writer_block_rule(a) == BlockStep::Retry) <==> (a == Action::Idle || a == Action::Writing),
{
}

/// What to do after blocking a reader failed with the action `observed`.
pub fn reader_block_step(observed: Action) -> (step: BlockStep)
    ensures
        step == reader_block_rule(observed),
{
    match observed {
        Action::ResizeRequested => BlockStep::RetryAfterResizeRequest,
        Action::Idle | Action::Reading => BlockStep::Retry,
        Action::ExternallyBlocked => BlockStep::BlockedElsewhere,
        Action::Writing => BlockStep::WrongRole,
    }
}

/// What to do after blocking a writer failed with the action `observed`.
pub fn writer_block_step(observed: Action) -> (step: BlockStep)
    ensures
        step == writer_block_rule(observed),
{
    match observed {
        Action::ResizeRequested => BlockStep::OwnRequest,
        Action::Idle | Action::Writing => BlockStep::Retry,
        Action::ExternallyBlocked => BlockStep::BlockedElsewhere,
        Action::Reading => BlockStep::WrongRole,
    }
}

/// The action that a code stands for; the codes of no action are read as
/// the last one.
pub open spec fn action_of_code(c: u8) -> Action {
    if c == 0 {
        Action::Idle
    } else if c == 1 {
        Action::Reading
    } else if c == 2 {
        Action::Writing
    } else if c == 3 {
        Action::ResizeRequested
    } else {
        Action::ExternallyBlocked
    }
}

/// A cell that holds the code of one action, owned by one thread.
pub struct ActionCell {
    code: u8,
}

impl View for ActionCell {
    type V = Action;

    closed spec fn view(&self) -> Action {
        action_of_code(self.code)
    }
}

impl ActionCell {
    #[verifier::type_invariant]
    spec fn wf(&self) -> bool {
        self.code <= 4
    }

    pub fn new(action: Action) -> (c: Self)
        ensures
            c@ == action,
    {
        ActionCell { code: action.code() }
    }

    pub fn load(&self) -> (a: Action)
        ensures
            a == self@,
    {
        proof {
            use_type_invariant(self);
        }
        Action::from_code(self.code)
    }

    pub fn store(&mut self, action: Action)
        ensures
            final(self)@ == action,
    {
        self.code = action.code();
    }

    /// Replaces `current` by `new` if the cell holds `current`, and gives
    /// `Ok` with the action it held; otherwise leaves the cell as it is and
    /// gives `Err` with the action it holds.
    pub fn compare_exchange(&mut self, current: Action, new: Action) -> (r: Result<Action, Action>)
        ensures
            old(self)@ == current ==> final(self)@ == new && r == Ok::<Action, Action>(current),
            old(self)@ != current ==> final(self)@ == old(self)@ && r == Err::<Action, Action>(
                old(self)@,
            ),
    {
        let held = self.load();
        if held == current {
            self.store(new);
            Ok(held)
        } else {
            Err(held)
        }
    }
}

/// Any cell may be stored in an action's lock.
pub struct AnyActionCell;

impl RwLockPredicate<ActionCell> for AnyActionCell {
    open spec fn inv(self, v: ActionCell) -> bool {
        true
    }
}

/// A cell shared between threads that holds one action.
///
/// An `ActionCell` lives in vstd's verified reader-writer lock; each
/// operation is one `ActionCell` operation inside one section of that lock,
/// and so acts as one atomic access to the code. Which action a section
/// meets depends on the other threads, so the results are stated for every
/// action the cell may hold; the operations themselves are stated exactly
/// on `ActionCell`. The memory orderings that the operations take are
/// accepted as given; every section is at least as strong as any of them.
pub struct AtomicAction {
    inner: RwLock<ActionCell, AnyActionCell>,
}

impl AtomicAction {
    pub fn new(action: Action) -> Self {
        AtomicAction { inner: RwLock::new(ActionCell::new(action), Ghost(AnyActionCell)) }
    }

    /// Reads the action the cell holds at the moment of reading.
    pub fn load(&self, _ordering: Ordering) -> Action {
        let handle = self.inner.acquire_read();
        let a = handle.borrow().load();
        handle.release_read();
        a
    }

    pub fn store(&self, action: Action, _ordering: Ordering) {
        let (mut cell, handle) = self.inner.acquire_write();
        cell.store(action);
        handle.release_write(cell);
    }

    /// Replaces `current` by `new` if the cell holds `current`: `Ok` with the
    /// action it held then, or `Err` with the other action it held.
    pub fn compare_exchange(
        &self,
        current: Action,
        new: Action,
        _success: Ordering,
        _failure: Ordering,
    ) -> (r: Result<Action, Action>)
        ensures
            r matches Ok(a) ==> a == current,
            r matches Err(a) ==> a != current,
    {
        let (mut cell, handle) = self.inner.acquire_write();
        let r = cell.compare_exchange(current, new);
        handle.release_write(cell);
        r
    }

    /// The same as `compare_exchange`.
    pub fn compare_exchange_weak(
        &self,
        current: Action,
        new: Action,
        success: Ordering,
        failure: Ordering,
    ) -> (r: Result<Action, Action>)
        ensures
            r matches Ok(a) ==> a == current,
            r matches Err(a) ==> a != current,
    {
        self.compare_exchange(current, new, success, failure)
    }
}

} // verus!
