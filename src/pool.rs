use vstd::prelude::*;

use crate::classify::Classification;

verus! {

/// Numerator of the factor applied to the available capacity on a failure.
pub const SHRINK_NUM: usize = 4;

/// Denominator of the factor applied to the available capacity on a failure.
pub const SHRINK_DEN: usize = 5;

/// The ceiling a freshly wrapped service starts with.
pub const DEFAULT_CEILING: usize = 1024;

/// Capacity of the generation that replaces one with `available` spare units:
/// four fifths of it, rounded down, and never less than one.
pub open spec fn shrink_target(available: nat) -> nat {
    if available * 4 / 5 >= 1 {
        available * 4 / 5
    } else {
        1
    }
}

/// The readiness check could not reserve a unit: the caller has to wait.
#[derive(Debug, PartialEq, Eq, Structural, Clone, Copy)]
pub struct Exhausted;

/// A dispatch was attempted without a reserved unit from a readiness check.
#[derive(Debug, PartialEq, Eq, Structural, Clone, Copy)]
pub struct ProtocolViolation;

/// What settling an in-flight call did to the pool.
#[derive(Debug, PartialEq, Eq, Structural, Clone, Copy)]
pub enum Outcome {
    /// The unit went back to the generation it was taken from.
    Credited,
    /// The generation was retired and a smaller one installed.
    Shrunk,
    /// The unit's generation is no longer current: nothing changed.
    Ignored,
}

/// The lease of one dispatched call: it remembers the pool and the generation it
/// was taken from. It cannot be copied, so it is settled at most once.
#[derive(Debug)]
pub struct Ticket {
    pool: u64,
    generation: u64,
}

impl Ticket {
    pub closed spec fn pool_spec(&self) -> u64 {
        self.pool
    }

    pub closed spec fn generation_spec(&self) -> u64 {
        self.generation
    }

    pub fn generation(&self) -> (r: u64)
        ensures
            r == self.generation_spec(),
    {
        self.generation
    }

    /// Identity of the pool the ticket was taken from.
    pub fn pool(&self) -> (r: u64)
        ensures
            r == self.pool_spec(),
    {
        self.pool
    }
}

/// The capacity pool of one wrapped service. Only the current generation is
/// held: units of retired generations are forgotten with them.
#[derive(Debug)]
pub struct Pool {
    id: u64,
    generation: u64,
    capacity: usize,
    available: usize,
    in_flight: usize,
    reserved: bool,
}

impl Pool {
    /// Identity of the pool, shared by the tickets it hands out.
    pub closed spec fn id_spec(&self) -> u64 {
        self.id
    }

    /// Identifier of the current generation.
    pub closed spec fn generation_spec(&self) -> u64 {
        self.generation
    }

    /// Units issued to the current generation.
    pub closed spec fn capacity_spec(&self) -> nat {
        self.capacity as nat
    }

    /// Units of the current generation that no one holds.
    pub closed spec fn available_spec(&self) -> nat {
        self.available as nat
    }

    /// Units of the current generation handed to dispatched calls.
    pub closed spec fn in_flight_spec(&self) -> nat {
        self.in_flight as nat
    }

    /// Whether a readiness check reserved a unit that no dispatch used yet.
    pub closed spec fn reserved_spec(&self) -> bool {
        self.reserved
    }

    /// Units of the current generation that someone holds.
    pub open spec fn held_spec(&self) -> nat {
        self.in_flight_spec() + if self.reserved_spec() { 1nat } else { 0nat }
    }

    /// Every unit of the current generation is either held or available.
    pub open spec fn wf(&self) -> bool {
        self.held_spec() + self.available_spec() == self.capacity_spec()
    }

    /// A ticket of this pool's current generation with a unit still out
    /// for it.
    pub open spec fn is_live(&self, t: &Ticket) -> bool {
        &&& t.pool_spec() == self.id_spec()
        &&& t.generation_spec() == self.generation_spec()
        &&& self.in_flight_spec() > 0
    }

    /// The pool after a shrink: a new generation sized from the spare units,
    /// which keeps the reservation of a readiness check.
    pub open spec fn shrunk(&self, next: &Pool) -> bool {
        &&& next.id_spec() == self.id_spec()
        &&& next.generation_spec() == self.generation_spec() + 1
        &&& next.capacity_spec() == shrink_target(self.available_spec())
        &&& next.in_flight_spec() == 0
        &&& next.reserved_spec() == self.reserved_spec()
        &&& next.wf()
    }

    /// The pool after one unit came back to the current generation.
    pub open spec fn credited(&self, next: &Pool) -> bool {
        &&& next.id_spec() == self.id_spec()
        &&& next.generation_spec() == self.generation_spec()
        &&& next.capacity_spec() == self.capacity_spec()
        &&& next.in_flight_spec() + 1 == self.in_flight_spec()
        &&& next.available_spec() == self.available_spec() + 1
        &&& next.reserved_spec() == self.reserved_spec()
    }

    /// What settling `t` with verdict `c` does: `r` names the one action
    /// taken, and `next` is the pool after it.
    pub open spec fn resolved(&self, t: &Ticket, c: Classification, r: Outcome, next: &Pool) -> bool {
        &&& next.wf()
        &&& r == if !self.is_live(t) {
            Outcome::Ignored
        } else if c == Classification::Success {
            Outcome::Credited
        } else {
            Outcome::Shrunk
        }
        &&& r == Outcome::Credited ==> self.credited(next)
        &&& r == Outcome::Shrunk ==> self.shrunk(next)
        &&& r == Outcome::Ignored ==> *next == *self
    }

    /// A fresh pool of `ceiling` units, all available.
    pub open spec fn is_fresh(&self, ceiling: nat) -> bool {
        &&& self.wf()
        &&& self.generation_spec() == 0
        &&& self.capacity_spec() == ceiling
        &&& self.available_spec() == ceiling
        &&& self.in_flight_spec() == 0
        &&& !self.reserved_spec()
    }

    /// A pool with `ceiling` units, all of them available.
    pub fn new(ceiling: usize) -> (r: Pool)
        ensures
            r.is_fresh(ceiling as nat),
            r.id_spec() == 0,
    {
        Pool::with_id(0, ceiling)
    }

    /// A pool of identity `id` with `ceiling` units, all of them available.
    /// Tickets of pools with other identities never act on it.
    pub fn with_id(id: u64, ceiling: usize) -> (r: Pool)
        ensures
            r.is_fresh(ceiling as nat),
            r.id_spec() == id,
    {
        Pool { id, generation: 0, capacity: ceiling, available: ceiling, in_flight: 0, reserved: false }
    }

    pub fn id(&self) -> (r: u64)
        ensures
            r == self.id_spec(),
    {
        self.id
    }

    pub fn generation(&self) -> (r: u64)
        ensures
            r == self.generation_spec(),
    {
        self.generation
    }

    pub fn capacity(&self) -> (r: usize)
        ensures
            r == self.capacity_spec(),
    {
        self.capacity
    }

    pub fn available(&self) -> (r: usize)
        ensures
            r == self.available_spec(),
    {
        self.available
    }

    pub fn in_flight(&self) -> (r: usize)
        ensures
            r == self.in_flight_spec(),
    {
        self.in_flight
    }

    pub fn is_reserved(&self) -> (r: bool)
        ensures
            r == self.reserved_spec(),
    {
        self.reserved
    }

    /// Readiness check: keeps a reservation already made, else takes one
    /// available unit. Fails, changing nothing, when none is left.
    pub fn try_acquire(&mut self) -> (r: Result<(), Exhausted>)
        requires
            old(self).wf(),
        ensures
            final(self).wf(),
            r is Ok <==> (old(self).reserved_spec() || old(self).available_spec() > 0),
            final(self).reserved_spec() == r is Ok,
            final(self).id_spec() == old(self).id_spec(),
            final(self).generation_spec() == old(self).generation_spec(),
            final(self).capacity_spec() == old(self).capacity_spec(),
            final(self).in_flight_spec() == old(self).in_flight_spec(),
            old(self).reserved_spec() ==> final(self).available_spec() == old(self).available_spec(),
            !old(self).reserved_spec() && r is Ok ==> final(self).available_spec() + 1
                == old(self).available_spec(),
            r is Err ==> *final(self) == *old(self),
    {
        if self.reserved {
            Ok(())
        } else if self.available > 0 {
            self.available = self.available - 1;
            self.reserved = true;
            Ok(())
        } else {
            Err(Exhausted)
        }
    }

    /// Dispatch: the reserved unit goes out with the call, and its fate passes
    /// to the returned ticket. Without a reservation this is a protocol
    /// violation and nothing changes.
    pub fn dispatch(&mut self) -> (r: Result<Ticket, ProtocolViolation>)
        requires
            old(self).wf(),
        ensures
            final(self).wf(),
            r is Ok <==> old(self).reserved_spec(),
            r is Err ==> *final(self) == *old(self),
            r matches Ok(t) ==> {
                &&& t.pool_spec() == old(self).id_spec()
                &&& t.generation_spec() == old(self).generation_spec()
                &&& final(self).id_spec() == old(self).id_spec()
                &&& final(self).generation_spec() == old(self).generation_spec()
                &&& final(self).capacity_spec() == old(self).capacity_spec()
                &&& final(self).available_spec() == old(self).available_spec()
                &&& final(self).in_flight_spec() == old(self).in_flight_spec() + 1
                &&& !final(self).reserved_spec()
                &&& final(self).is_live(&t)
            },
    {
        if self.reserved {
            self.reserved = false;
            self.in_flight = self.in_flight + 1;
            Ok(Ticket { pool: self.id, generation: self.generation })
        } else {
            Err(ProtocolViolation)
        }
    }

    /// Retires the current generation and installs one whose capacity is
    /// four fifths of the spare units (at least one). A pending reservation
    /// moves to the new generation; calls in flight stay with the old one.
    pub fn shrink_and_replace(&mut self)
        requires
            old(self).wf(),
            old(self).generation_spec() < u64::MAX,
        ensures
            old(self).shrunk(final(self)),
    {
        let a = self.available;
        let target: usize = a / SHRINK_DEN * SHRINK_NUM + a % SHRINK_DEN * SHRINK_NUM / SHRINK_DEN;
        let capacity: usize = if target >= 1 { target } else { 1 };
        assert(capacity as nat == shrink_target(a as nat));
        let generation: u64 = self.generation + 1;
        let available: usize = if self.reserved { capacity - 1 } else { capacity };
        self.generation = generation;
        self.capacity = capacity;
        self.available = available;
        self.in_flight = 0;
    }

    /// Returns the unit of a call that completed well, or that was given up
    /// before it completed. A ticket of a retired generation changes nothing.
    pub fn credit(&mut self, ticket: Ticket) -> (r: Outcome)
        requires
            old(self).wf(),
        ensures
            final(self).wf(),
            r == if old(self).is_live(&ticket) { Outcome::Credited } else { Outcome::Ignored },
            r == Outcome::Credited ==> old(self).credited(final(self)),
            r == Outcome::Ignored ==> *final(self) == *old(self),
    {
        if ticket.pool == self.id && ticket.generation == self.generation && self.in_flight > 0 {
            self.in_flight = self.in_flight - 1;
            self.available = self.available + 1;
            Outcome::Credited
        } else {
            Outcome::Ignored
        }
    }

    /// Settles a completed call with its classification: a success credits
    /// its unit back, a failure shrinks the pool into a new generation. Either
    /// way only a live ticket acts; any other leaves the pool as it was.
    pub fn resolve(&mut self, ticket: Ticket, c: Classification) -> (r: Outcome)
        requires
            old(self).wf(),
            old(self).generation_spec() < u64::MAX,
        ensures
            old(self).resolved(&ticket, c, r, final(self)),
    {
        if ticket.pool != self.id || ticket.generation != self.generation || self.in_flight == 0 {
            Outcome::Ignored
        } else {
            match c {
                Classification::Success => self.credit(ticket),
                Classification::Failure => {
                    self.shrink_and_replace();
                    Outcome::Shrunk
                },
            }
        }
    }
}

/// Conservation: in every well-formed pool, which each operation preserves,
/// the units held (by calls in flight and by a pending reservation) and the
/// units available add up to the capacity issued to the current generation.
pub proof fn lemma_conservation(p: &Pool)
    requires
        p.wf(),
    ensures
        p.in_flight_spec() + (if p.reserved_spec() { 1nat } else { 0nat }) + p.available_spec()
            == p.capacity_spec(),
{
}

/// Settling a live ticket takes exactly one terminal action: its unit is
/// either credited back or folded into a shrink, never both and never none.
pub proof fn lemma_single_terminal_action(p: &Pool, t: &Ticket, c: Classification, r: Outcome, next: &Pool)
    requires
        p.resolved(t, c, r, next),
        p.is_live(t),
    ensures
        p.credited(next) || p.shrunk(next),
        !(p.credited(next) && p.shrunk(next)),
        r != Outcome::Ignored,
{
}

/// Settling a ticket of a superseded generation, or of another pool, with
/// either verdict, leaves the current generation exactly as it was.
pub proof fn lemma_generation_isolation(p: &Pool, t: &Ticket, c: Classification, r: Outcome, next: &Pool)
    requires
        p.resolved(t, c, r, next),
        t.generation_spec() != p.generation_spec() || t.pool_spec() != p.id_spec(),
    ensures
        r == Outcome::Ignored,
        *next == *p,
        next.available_spec() == p.available_spec(),
        next.generation_spec() == p.generation_spec(),
{
}

/// A shrink from `N` available units yields a generation of
/// `max(1, floor(0.8 * N))` units: never empty, and never more than `N`
/// unless `N` is zero.
pub proof fn lemma_shrink_bound(p: &Pool, next: &Pool)
    requires
        p.shrunk(next),
    ensures
        next.capacity_spec() == if p.available_spec() * 4 / 5 >= 1 {
            p.available_spec() * 4 / 5
        } else {
            1
        },
        next.capacity_spec() >= 1,
        p.available_spec() >= 1 ==> next.capacity_spec() <= p.available_spec(),
        next.generation_spec() == p.generation_spec() + 1,
        !p.reserved_spec() ==> next.available_spec() == next.capacity_spec(),
        p.reserved_spec() ==> next.available_spec() + 1 == next.capacity_spec(),
{
}

} // verus!
