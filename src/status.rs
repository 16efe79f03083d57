//! The status word of a signal: four values, two pending and two terminal.
//!
//! The pending values are numerically at or above `LOCKED` and the terminal
//! ones below it, so one comparison tells the two groups apart.
use vstd::prelude::*;

verus! {

/// Resolved with a value: the slot holds it.
pub const UNLOCKED: u8 = 0;

/// Resolved without a value: the other side is gone.
pub const TERMINATED: u8 = 1;

/// Initial state: the waiter has not published a wake handle.
pub const LOCKED: u8 = 2;

/// The waiter has published a wake handle and may suspend.
pub const LOCKED_ESCALATED: u8 = 3;

/// One of the four status values.
pub open spec fn is_status(s: u8) -> bool {
    s <= LOCKED_ESCALATED
}

/// The signal has been resolved, with or without a value.
pub open spec fn terminal(s: u8) -> bool {
    s == UNLOCKED || s == TERMINATED
}

/// The signal still waits for its one resolution.
pub open spec fn pending(s: u8) -> bool {
    s == LOCKED || s == LOCKED_ESCALATED
}

/// What a waiter learns from one look at the status: `None` while pending,
/// else whether a value was delivered.
pub open spec fn outcome_of(s: u8) -> Option<bool> {
    if terminal(s) {
        Some(s == UNLOCKED)
    } else {
        None
    }
}

/// One legal change of the status word: the waiter's escalation, or the
/// signaler's resolution of a pending signal.
pub open spec fn legal_step(from: u8, to: u8) -> bool {
    (from == LOCKED && to == LOCKED_ESCALATED) || (pending(from) && terminal(to))
}

/// Tells terminal from pending with a single comparison.
pub fn is_terminal(s: u8) -> (r: bool)
    ensures
        r == (s < LOCKED),
        is_status(s) ==> (r == terminal(s) && r == !pending(s)),
{
    s < LOCKED
}

/// One look at the status, as a waiter that polls takes it.
pub fn outcome(s: u8) -> (r: Option<bool>)
    ensures
        r == outcome_of(s),
{
    if s < LOCKED {
        Some(s == UNLOCKED)
    } else {
        None
    }
}

/// The value a compare-and-swap from `expected` to `new` leaves in a word
/// that held `current`, and what it reports: `Ok` with the old value when it
/// swapped, `Err` with the value found when it did not.
pub open spec fn cas_result(current: u8, expected: u8, new: u8) -> (u8, Result<u8, u8>) {
    if current == expected {
        (new, Ok(current))
    } else {
        (current, Err(current))
    }
}

/// The waiter's escalation: a compare-and-swap from `LOCKED` to
/// `LOCKED_ESCALATED` on a word that holds `current`.
pub fn escalate(current: u8) -> (r: (u8, Result<u8, u8>))
    ensures
        r == cas_result(current, LOCKED, LOCKED_ESCALATED),
        r.1 is Ok <==> current == LOCKED,
        r.1 is Ok ==> legal_step(current, r.0),
        r.1 is Err ==> r.0 == current,
{
    if current == LOCKED {
        (LOCKED_ESCALATED, Ok(current))
    } else {
        (current, Err(current))
    }
}

/// Whether the status `found` reports a delivered value: what a waiter
/// returns when its escalation lost to the signaler, or from its last look
/// once its deadline passed.
pub fn delivered(found: u8) -> (r: bool)
    ensures
        r == (found == UNLOCKED),
{
    found == UNLOCKED
}

/// Every legal step leaves a status value, and a terminal value is never
/// left again.
pub proof fn lemma_terminal_is_final(from: u8, to: u8)
    requires
        is_status(from),
        legal_step(from, to),
    ensures
        is_status(to),
        !terminal(from),
        pending(from),
{
}

} // verus!
