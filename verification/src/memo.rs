//! A cell that is filled at most once, by one caller, for good.
//!
//! The cell does not run the computation that fills it. A caller asks with
//! `request`; the one caller who is told to compute does so in its own time
//! and reports with `resolve`; whoever asks meanwhile is told to wait. What
//! has been settled is never replaced and never dropped.

use vstd::prelude::*;

verus! {

/// What a memoizer holds.
pub enum Slot<T> {
    /// Nothing yet, and nobody is at work.
    Vacant,
    /// Nothing yet, but one caller has been told to compute.
    InFlight,
    /// The value, for good.
    Settled(T),
}

/// What a caller is told when it asks.
#[derive(Clone, Copy, Debug, PartialEq, Eq)]
pub enum Turn {
    /// Compute the value and report it.
    Compute,
    /// Somebody else is computing: ask again later.
    Wait,
    /// The value is there.
    Done,
}

/// What asking does to a slot, and what the caller is told.
pub open spec fn requested<T>(slot: Slot<T>) -> (Slot<T>, Turn) {
    match slot {
        Slot::Vacant => (Slot::InFlight, Turn::Compute),
        Slot::InFlight => (Slot::InFlight, Turn::Wait),
        Slot::Settled(value) => (Slot::Settled(value), Turn::Done),
    }
}

/// What reporting a value does to a slot: the first value stays.
pub open spec fn resolved<T>(slot: Slot<T>, value: T) -> Slot<T> {
    match slot {
        Slot::Settled(first) => Slot::Settled(first),
        _ => Slot::Settled(value),
    }
}

/// The slot after `callers` requests in a row.
pub open spec fn after_requests<T>(slot: Slot<T>, callers: nat) -> Slot<T>
    decreases callers,
{
    if callers == 0 {
        slot
    } else {
        requested(after_requests(slot, (callers - 1) as nat)).0
    }
}

/// What the caller with the given number is told, counting from zero.
pub open spec fn answer_to<T>(slot: Slot<T>, caller: nat) -> Turn {
    requested(after_requests(slot, caller)).1
}

/// How many of the first `callers` callers are told to compute.
pub open spec fn computations<T>(slot: Slot<T>, callers: nat) -> nat
    decreases callers,
{
    if callers == 0 {
        0
    } else {
        let before = computations(slot, (callers - 1) as nat);
        if answer_to(slot, (callers - 1) as nat) == Turn::Compute {
            before + 1
        } else {
            before
        }
    }
}

/// A single-flight, write-once cell.
pub struct Memoizer<T> {
    slot: Slot<T>,
}

impl<T> Memoizer<T> {
    /// What the cell holds.
    pub closed spec fn slot(&self) -> Slot<T> {
        self.slot
    }

    /// An empty cell.
    pub fn new() -> (cell: Self)
        ensures
            cell.slot() is Vacant,
    {
        Memoizer { slot: Slot::Vacant }
    }

    /// What `request` would tell the caller, without claiming anything.
    pub fn peek(&self) -> (turn: Turn)
        ensures
            turn == requested(self.slot()).1,
        no_unwind
    {
        match &self.slot {
            Slot::Vacant => Turn::Compute,
            Slot::InFlight => Turn::Wait,
            Slot::Settled(_) => Turn::Done,
        }
    }

    /// Asks for the value. The first to ask an empty cell is told to compute,
    /// and the cell is in flight from then on.
    pub fn request(&mut self) -> (turn: Turn)
        ensures
            (final(self).slot(), turn) == requested(old(self).slot()),
        no_unwind
    {
        let turn = self.peek();
        if let Turn::Compute = turn {
            self.slot = Slot::InFlight;
        }
        turn
    }

    /// Reports a value. It is kept unless the cell is settled already.
    pub fn resolve(&mut self, value: T)
        ensures
            final(self).slot() == resolved(old(self).slot(), value),
        no_unwind
    {
        if let Turn::Done = self.peek() {
        } else {
            self.slot = Slot::Settled(value);
        }
    }

    /// The settled value, if there is one.
    pub fn get(&self) -> (value: Option<&T>)
        ensures
            match value {
                Some(held) => self.slot() == Slot::Settled(*held),
                None => !(self.slot() is Settled),
            },
    {
        match &self.slot {
            Slot::Settled(held) => Some(held),
            _ => None,
        }
    }
}

/// A settled cell answers every request with the value it holds, and no
/// report changes it.
pub proof fn settled_is_final<T>(slot: Slot<T>, value: T)
    requires
        slot is Settled,
    ensures
        requested(slot) == (slot, Turn::Done),
        resolved(slot, value) == slot,
{
}

/// Of two reports, the first one is kept.
pub proof fn first_report_wins<T>(slot: Slot<T>, first: T, second: T)
    ensures
        resolved(resolved(slot, first), second) == resolved(slot, first),
        !(slot is Settled) ==> resolved(slot, first) == Slot::Settled(first),
{
}

/// Requests change nothing but an empty cell, which they put in flight.
pub proof fn requests_only_claim<T>(slot: Slot<T>, callers: nat)
    ensures
        after_requests(slot, callers) == if slot is Vacant && callers > 0 {
            Slot::InFlight
        } else {
            slot
        },
    decreases callers,
{
    if callers > 0 {
        requests_only_claim(slot, (callers - 1) as nat);
    }
}

/// Single flight: of any number of callers who ask an empty cell before a
/// value is reported, the first is told to compute and every other to wait.
pub proof fn one_caller_computes<T>(callers: nat, caller: nat)
    requires
        caller < callers,
    ensures
        answer_to(Slot::<T>::Vacant, caller) == if caller == 0 {
            Turn::Compute
        } else {
            Turn::Wait
        },
        computations(Slot::<T>::Vacant, callers) == 1,
    decreases callers,
{
    requests_only_claim(Slot::<T>::Vacant, caller);
    requests_only_claim(Slot::<T>::Vacant, (callers - 1) as nat);
    if callers > 1 {
        one_caller_computes::<T>((callers - 1) as nat, 0);
    } else {
        assert(computations(Slot::<T>::Vacant, 0) == 0);
    }
}

/// Whatever the cell holds, at most one caller is ever told to compute, and
/// none once it is in flight or settled.
pub proof fn at_most_one_computation<T>(slot: Slot<T>, callers: nat)
    ensures
        computations(slot, callers) <= 1,
        !(slot is Vacant) ==> computations(slot, callers) == 0,
    decreases callers,
{
    if callers > 0 {
        at_most_one_computation(slot, (callers - 1) as nat);
        requests_only_claim(slot, (callers - 1) as nat);
        if slot is Vacant && callers > 1 {
            one_caller_computes::<T>((callers - 1) as nat, 0);
        }
    }
}

/// Once a value is reported, every caller is answered with that one value,
/// however many ask.
pub proof fn all_callers_get_the_same<T>(slot: Slot<T>, value: T, callers: nat, caller: nat)
    requires
        !(slot is Settled),
        caller < callers,
    ensures
        after_requests(resolved(slot, value), caller) == Slot::Settled(value),
        answer_to(resolved(slot, value), caller) == Turn::Done,
{
    requests_only_claim(resolved(slot, value), caller);
}

} // verus!
