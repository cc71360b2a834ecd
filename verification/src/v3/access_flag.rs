use vstd::prelude::*;
use vstd::rwlock::{RwLock, RwLockPredicate};

verus! {

// The low nibble of a flag byte holds the access status.
const RELEASED: u8 = 0b0000_0000;
const ACCESSED: u8 = 0b0000_0001;
const TAKEN: u8 = 0b0000_0010;
const DECLARE_TAKE: u8 = 0b0000_0011;

// The high nibble holds the identity of the node the flag guards.
const NODE: u8 = 0b0000_0000;
const FRONT: u8 = 0b0001_0000;
const BACK: u8 = 0b0010_0000;

const ACCESS_MASK: u8 = 0b0000_1111;
const IDENT_MASK: u8 = 0b1111_0000;

/// Which node of the list a flag belongs to.
#[derive(Debug, PartialEq, Eq, Structural)]
pub enum Identity {
    Front,
    Back,
    Node,
}

/// The access status of a flag.
#[derive(Debug, Clone, Copy, PartialEq, Eq, Structural)]
pub enum Status {
    Released,
    Accessed,
    Taken,
    DeclareTake,
}

/// The high nibble that stands for an identity.
pub open spec fn ident_code(i: Identity) -> u8 {
    match i {
        Identity::Front => 0x10,
        Identity::Back => 0x20,
        Identity::Node => 0x00,
    }
}

/// The low nibble that stands for a status.
pub open spec fn status_code(s: Status) -> u8 {
    match s {
        Status::Released => 0,
        Status::Accessed => 1,
        Status::Taken => 2,
        Status::DeclareTake => 3,
    }
}

/// The flag byte of a flag with identity `i` and status `s`.
pub open spec fn flag_byte(i: Identity, s: Status) -> u8 {
    (ident_code(i) | status_code(s)) as u8
}

/// What `try_access` does to a status: the status after it, and its result.
pub open spec fn access_rule(s: Status) -> (Status, Result<(), Status>) {
    match s {
        Status::Released => (Status::Accessed, Ok(())),
        other => (other, Err(other)),
    }
}

/// What `try_declare_take` does to a status.
pub open spec fn declare_take_rule(s: Status) -> (Status, Result<(), Status>) {
    match s {
        Status::Released => (Status::DeclareTake, Ok(())),
        other => (other, Err(other)),
    }
}

/// What `try_take` does to the status of a node's flag: a node that is not
/// accessed, and not taken yet, becomes taken.
pub open spec fn take_rule(s: Status) -> (Status, Result<(), Status>) {
    match s {
        Status::Released => (Status::Taken, Ok(())),
        Status::DeclareTake => (Status::Taken, Ok(())),
        other => (other, Err(other)),
    }
}

/// What releasing an access does to a status.
pub open spec fn release_rule(s: Status) -> Status {
    match s {
        Status::Accessed => Status::Released,
        other => other,
    }
}

/// The four ways a flag's status is changed.
#[derive(Clone, Copy)]
pub enum Transition {
    Access,
    DeclareTake,
    Take,
    Release,
}

/// The status after a transition, and its result.
pub open spec fn rule(t: Transition, s: Status) -> (Status, Result<(), Status>) {
    match t {
        Transition::Access => access_rule(s),
        Transition::DeclareTake => declare_take_rule(s),
        Transition::Take => take_rule(s),
        Transition::Release => (release_rule(s), Ok(())),
    }
}

/// Computes `rule`.
pub fn apply_rule(t: Transition, s: Status) -> (r: (Status, Result<(), Status>))
    ensures
        r == rule(t, s),
{
    match (t, s) {
        (Transition::Access, Status::Released) => (Status::Accessed, Ok(())),
        (Transition::DeclareTake, Status::Released) => (Status::DeclareTake, Ok(())),
        (Transition::Take, Status::Released) => (Status::Taken, Ok(())),
        (Transition::Take, Status::DeclareTake) => (Status::Taken, Ok(())),
        (Transition::Release, Status::Accessed) => (Status::Released, Ok(())),
        (Transition::Release, other) => (other, Ok(())),
        (_, other) => (other, Err(other)),
    }
}

fn status_byte(s: Status) -> (b: u8)
    ensures
        b == status_code(s),
{
    match s {
        Status::Released => RELEASED,
        Status::Accessed => ACCESSED,
        Status::Taken => TAKEN,
        Status::DeclareTake => DECLARE_TAKE,
    }
}

proof fn lemma_flag_byte_parts(i: Identity, s: Status)
    ensures
        flag_byte(i, s) & 0xF0 == ident_code(i),
        flag_byte(i, s) & 0x0F == status_code(s),
{
    let a = ident_code(i);
    let b = status_code(s);
    assert((a == 0u8 || a == 16u8 || a == 32u8) && b <= 3u8 ==> (a | b) & 0xF0u8 == a && (a | b)
        & 0x0Fu8 == b) by (bit_vector);
}

/// The identity that the high nibble of a flag byte stands for.
pub open spec fn ident_of_byte(b: u8) -> Identity {
    if b & 0xF0 == 0x10 {
        Identity::Front
    } else if b & 0xF0 == 0x20 {
        Identity::Back
    } else {
        Identity::Node
    }
}

/// The status that the low nibble of a flag byte stands for.
pub open spec fn status_of_byte(b: u8) -> Status {
    if b & 0x0F == 0 {
        Status::Released
    } else if b & 0x0F == 1 {
        Status::Accessed
    } else if b & 0x0F == 2 {
        Status::Taken
    } else {
        Status::DeclareTake
    }
}

proof fn lemma_flag_byte_decodes(i: Identity, s: Status)
    ensures
        ident_of_byte(flag_byte(i, s)) == i,
        status_of_byte(flag_byte(i, s)) == s,
{
    lemma_flag_byte_parts(i, s);
}

/// The byte of one flag, owned by one thread: its identity and its status.
pub struct FlagState {
    byte: u8,
}

impl View for FlagState {
    type V = (Identity, Status);

    closed spec fn view(&self) -> (Identity, Status) {
        (ident_of_byte(self.byte), status_of_byte(self.byte))
    }
}

impl FlagState {
    #[verifier::type_invariant]
    spec fn wf(&self) -> bool {
        self.byte == flag_byte(ident_of_byte(self.byte), status_of_byte(self.byte))
    }

    /// A released flag of the given identity.
    pub fn new(identity: &Identity) -> (f: Self)
        ensures
            f@ == (*identity, Status::Released),
    {
        let ident = match identity {
            Identity::Front => FRONT,
            Identity::Back => BACK,
            Identity::Node => NODE,
        };
        proof {
            lemma_flag_byte_decodes(*identity, Status::Released);
            assert((ident | RELEASED) == flag_byte(*identity, Status::Released));
        }
        FlagState { byte: ident | RELEASED }
    }

    fn ident_from_bits(bits: u8) -> (i: Identity)
        requires
            exists|j: Identity| bits == ident_code(j),
        ensures
            ident_code(i) == bits,
    {
        if bits == FRONT {
            Identity::Front
        } else if bits == BACK {
            Identity::Back
        } else {
            Identity::Node
        }
    }

    fn status_from_bits(bits: u8) -> (s: Status)
        requires
            exists|t: Status| bits == status_code(t),
        ensures
            status_code(s) == bits,
    {
        if bits == RELEASED {
            Status::Released
        } else if bits == TAKEN {
            Status::Taken
        } else if bits == ACCESSED {
            Status::Accessed
        } else {
            Status::DeclareTake
        }
    }

    pub fn identity(&self) -> (i: Identity)
        ensures
            i == self@.0,
    {
        proof {
            use_type_invariant(self);
            lemma_flag_byte_parts(self@.0, self@.1);
        }
        Self::ident_from_bits(self.byte & IDENT_MASK)
    }

    pub fn status(&self) -> (s: Status)
        ensures
            s == self@.1,
    {
        proof {
            use_type_invariant(self);
            lemma_flag_byte_parts(self@.0, self@.1);
        }
        Self::status_from_bits(self.byte & ACCESS_MASK)
    }

    /// Applies one transition: the identity stays, and the status and the
    /// result are those of the rule.
    pub fn step(&mut self, t: Transition) -> (r: Result<(), Status>)
        ensures
            final(self)@ == (old(self)@.0, rule(t, old(self)@.1).0),
            r == rule(t, old(self)@.1).1,
    {
        let s = self.status();
        let (next, out) = apply_rule(t, s);
        let ghost i = self@.0;
        proof {
            use_type_invariant(&*self);
            lemma_flag_byte_parts(i, s);
            lemma_flag_byte_decodes(i, next);
        }
        let nb = (self.byte & IDENT_MASK) | status_byte(next);
        assert(nb == flag_byte(i, next));
        self.byte = nb;
        out
    }

    /// Gains access to the node; fails with the status when the flag is
    /// accessed or a take is declared. A taken flag guards a node that is
    /// being dropped and must not be read.
    pub fn try_access(&mut self) -> (r: Result<(), Status>)
        requires
            old(self)@.1 != Status::Taken,
        ensures
            final(self)@.0 == old(self)@.0,
            (final(self)@.1, r) == access_rule(old(self)@.1),
    {
        self.step(Transition::Access)
    }

    /// Declares the intent to take the node; fails with `Accessed` while it
    /// is accessed. A take is declared once, and never on a taken flag.
    pub fn try_declare_take(&mut self) -> (r: Result<(), Status>)
        requires
            old(self)@.1 == Status::Released || old(self)@.1 == Status::Accessed,
        ensures
            final(self)@.0 == old(self)@.0,
            (final(self)@.1, r) == declare_take_rule(old(self)@.1),
    {
        self.step(Transition::DeclareTake)
    }

    /// Takes the node for good; fails with `Accessed` while it is accessed.
    /// Only a node is ever taken, and only once.
    pub fn try_take(&mut self) -> (r: Result<(), Status>)
        requires
            old(self)@.0 == Identity::Node,
            old(self)@.1 != Status::Taken,
        ensures
            final(self)@.0 == old(self)@.0,
            (final(self)@.1, r) == take_rule(old(self)@.1),
    {
        self.step(Transition::Take)
    }

    /// Ends an access: the flag is released, also when it already was.
    pub fn release(&mut self)
        requires
            old(self)@.1 == Status::Accessed || old(self)@.1 == Status::Released,
        ensures
            final(self)@ == (old(self)@.0, Status::Released),
    {
        let _ = self.step(Transition::Release);
    }
}

/// The states a flag of one identity can be in: its identity never changes.
pub struct FlagInvariant {
    pub ident: Identity,
}

impl RwLockPredicate<FlagState> for FlagInvariant {
    open spec fn inv(self, v: FlagState) -> bool {
        v@.0 == self.ident
    }
}

/// A flag that guards one node of a concurrent list.
///
/// The flag's state lives in vstd's verified reader-writer lock, whose
/// predicate keeps its identity fixed; each operation is one `FlagState`
/// step inside one exclusive section of that lock, and so acts as one
/// atomic read-modify-write of the byte. Which status a step meets depends
/// on the other threads, so the results are stated for every status the
/// flag may hold; the steps themselves are stated exactly on `FlagState`.
pub struct AccessFlag {
    flag: RwLock<FlagState, FlagInvariant>,
    ident: Ghost<Identity>,
}

/// Gives back the access that a successful `try_access` gave.
///
/// The access lasts until `release` is called: dropping the guard does not
/// end it. A `Drop` must neither unwind nor open an invariant, and a release
/// takes the lock that holds the flag's state, which may do both; where the
/// access should end with a scope, wrap the guard in a type whose `Drop`
/// calls `release`.
pub struct ReleaseGuard<'a> {
    flag: &'a AccessFlag,
}

impl AccessFlag {
    #[verifier::type_invariant]
    spec fn wf(&self) -> bool {
        self.flag.pred() == (FlagInvariant { ident: self.ident@ })
    }

    /// The identity the flag was made with.
    pub closed spec fn fixed_identity(&self) -> Identity {
        self.ident@
    }

    /// A released flag of the given identity.
    pub fn new(identity: &Identity) -> (f: Self)
        ensures
            f.fixed_identity() == *identity,
    {
        let state = FlagState::new(identity);
        let ghost inv = FlagInvariant { ident: *identity };
        AccessFlag { flag: RwLock::new(state, Ghost(inv)), ident: Ghost(*identity) }
    }

    pub fn identity(&self) -> (i: Identity)
        ensures
            i == self.fixed_identity(),
    {
        proof {
            use_type_invariant(self);
        }
        let handle = self.flag.acquire_read();
        let i = handle.borrow().identity();
        handle.release_read();
        i
    }

    /// The status the flag holds at the moment of reading.
    pub fn status(&self) -> Status {
        let handle = self.flag.acquire_read();
        let s = handle.borrow().status();
        handle.release_read();
        s
    }

    /// Applies one transition to the state in one exclusive section: the
    /// result is what the rule gives for the status the flag held then.
    fn transition(&self, t: Transition) -> (r: Result<(), Status>)
        ensures
            exists|s: Status| #[trigger] rule(t, s).1 == r,
    {
        proof {
            use_type_invariant(self);
        }
        let (mut state, handle) = self.flag.acquire_write();
        let out = state.step(t);
        handle.release_write(state);
        out
    }

    /// Gains shared access to the node; fails with the current status when
    /// the flag is not released.
    pub fn try_access<'a>(&'a self) -> (r: Result<ReleaseGuard<'a>, Status>)
        ensures
            r matches Ok(g) ==> g.flag() == self,
            r matches Err(s) ==> access_rule(s) == (s, Err::<(), Status>(s)),
    {
        match self.transition(Transition::Access) {
            Ok(()) => Ok(ReleaseGuard { flag: self }),
            Err(s) => Err(s),
        }
    }

    /// Declares the intent to take the node; fails with the current status
    /// when the flag is not released.
    pub fn try_declare_take(&self) -> (r: Result<(), Status>)
        ensures
            r matches Err(s) ==> declare_take_rule(s) == (s, Err::<(), Status>(s)),
    {
        self.transition(Transition::DeclareTake)
    }

    /// Takes the node for good; fails with the current status when it is
    /// accessed or already taken.
    pub fn try_take(&self) -> (r: Result<(), Status>)
        requires
            self.fixed_identity() == Identity::Node,
        ensures
            r matches Err(s) ==> take_rule(s) == (s, Err::<(), Status>(s)),
    {
        self.transition(Transition::Take)
    }
}

impl<'a> ReleaseGuard<'a> {
    /// The flag whose access this guard releases.
    pub closed spec fn flag(&self) -> &'a AccessFlag {
        self.flag
    }

    /// Gives the access back with one `Release` step: an accessed flag
    /// becomes released, and a flag in any other status is left as it is.
    /// A guard holds an access, so in a program that releases each access
    /// once the flag it meets is accessed or, after an earlier release of
    /// the same guard, released.
    pub fn release(&self) {
        let _ = self.flag.transition(Transition::Release);
    }
}

/// An access, once released, leaves the flag released again, and while it
/// is held a second access, a declaration of intent and a take are all
/// refused with `Accessed`.
pub proof fn law_access_is_exclusive_until_released()
    ensures
        access_rule(Status::Released) == (Status::Accessed, Ok::<(), Status>(())),
        release_rule(Status::Accessed) == Status::Released,
        access_rule(Status::Accessed).1 == Err::<(), Status>(Status::Accessed),
        declare_take_rule(Status::Accessed).1 == Err::<(), Status>(Status::Accessed),
        take_rule(Status::Accessed).1 == Err::<(), Status>(Status::Accessed),
{
}

/// A declared take shuts out new accesses and is completed by the take.
pub proof fn law_declared_take_blocks_access()
    ensures
        declare_take_rule(Status::Released) == (Status::DeclareTake, Ok::<(), Status>(())),
        access_rule(Status::DeclareTake).1 == Err::<(), Status>(Status::DeclareTake),
        take_rule(Status::DeclareTake) == (Status::Taken, Ok::<(), Status>(())),
{
}

/// A taken flag stays taken whatever is tried on it, and every attempt on
/// it fails.
pub proof fn law_taken_is_final()
    ensures
        access_rule(Status::Taken) == (Status::Taken, Err::<(), Status>(Status::Taken)),
        declare_take_rule(Status::Taken) == (Status::Taken, Err::<(), Status>(Status::Taken)),
        take_rule(Status::Taken) == (Status::Taken, Err::<(), Status>(Status::Taken)),
        release_rule(Status::Taken) == Status::Taken,
{
}

/// Every operation leaves the identity bits of the byte as they were: the
/// byte of any identity and status splits back into them.
pub proof fn law_identity_bits_survive(i: Identity, s: Status)
    ensures
        flag_byte(i, s) & 0xF0 == ident_code(i),
        flag_byte(i, s) & 0x0F == status_code(s),
{
    lemma_flag_byte_parts(i, s);
}

} // verus!
