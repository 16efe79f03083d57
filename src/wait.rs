//! The waiter's loops, one decision at a time.
//!
//! Each loop alternates a look at the status word with a yield, a sleep or a
//! park. The step functions here take what the waiter observed and return
//! what it does next; the caller performs it and comes back with the next
//! observation.
use vstd::prelude::*;
use crate::status::{LOCKED, UNLOCKED, terminal};

verus! {

/// Yields that a thread waiter spends before it escalates.
pub const SPIN_LIMIT: u32 = 25;

/// Yields that the bridging wait spends before it starts to sleep.
pub const BRIDGE_YIELDS: u32 = 32;

/// The bridging wait's first sleep, in nanoseconds.
pub const SLEEP_START: u64 = 1024;

/// The bridging wait's longest sleep, in nanoseconds.
pub const SLEEP_CAP: u64 = 262144;

/// What a thread waiter does next.
#[derive(Clone, Copy, Debug, PartialEq, Eq, Structural)]
pub enum WaitAction {
    /// Return: whether a value was delivered.
    Finish(bool),
    /// Yield to the scheduler, then look again.
    Yield,
    /// Publish the thread handle and try to escalate.
    Escalate,
    /// Block until unparked, then look again.
    Park,
}

/// Where a thread waiter stands in its wait.
#[derive(Clone, Copy, Debug, PartialEq, Eq, Structural)]
pub struct ThreadWait {
    /// Yields left before escalation.
    pub spins_left: u32,
    /// The escalation succeeded: only a wake ends the wait now.
    pub escalated: bool,
}

/// A thread waiter's next step after it observed `observed`.
pub open spec fn thread_wait_step(w: ThreadWait, observed: u8) -> (ThreadWait, WaitAction) {
    if terminal(observed) {
        (w, WaitAction::Finish(observed == UNLOCKED))
    } else if w.escalated {
        (w, WaitAction::Park)
    } else if w.spins_left > 0 {
        (ThreadWait { spins_left: (w.spins_left - 1) as u32, ..w }, WaitAction::Yield)
    } else {
        (w, WaitAction::Escalate)
    }
}

/// A thread waiter's next step after its escalation reported `cas`.
pub open spec fn thread_escalation_step(w: ThreadWait, cas: Result<u8, u8>) -> (ThreadWait, WaitAction) {
    match cas {
        Ok(_) => (ThreadWait { escalated: true, ..w }, WaitAction::Park),
        Err(found) => (w, WaitAction::Finish(found == UNLOCKED)),
    }
}

/// Steps a pending, unescalated waiter may still take before it escalates.
pub open spec fn spin_budget(w: ThreadWait) -> nat {
    if w.escalated {
        0
    } else {
        w.spins_left as nat + 1
    }
}

impl ThreadWait {
    /// A waiter that has not looked yet.
    pub fn new() -> (r: Self)
        ensures
            r == (ThreadWait { spins_left: SPIN_LIMIT, escalated: false }),
    {
        ThreadWait { spins_left: SPIN_LIMIT, escalated: false }
    }

    /// Decides the next step after a look that found `observed`.
    pub fn on_status(&mut self, observed: u8) -> (r: WaitAction)
        ensures
            (*final(self), r) == thread_wait_step(*old(self), observed),
    {
        if observed < LOCKED {
            WaitAction::Finish(observed == UNLOCKED)
        } else if self.escalated {
            WaitAction::Park
        } else if self.spins_left > 0 {
            self.spins_left = self.spins_left - 1;
            WaitAction::Yield
        } else {
            WaitAction::Escalate
        }
    }

    /// Decides the next step after the escalation's compare-and-swap
    /// reported `cas`.
    pub fn on_escalation(&mut self, cas: Result<u8, u8>) -> (r: WaitAction)
        ensures
            (*final(self), r) == thread_escalation_step(*old(self), cas),
    {
        match cas {
            Ok(_) => {
                self.escalated = true;
                WaitAction::Park
            },
            Err(found) => WaitAction::Finish(found == UNLOCKED),
        }
    }
}

/// What a waiter with a deadline does next.
#[derive(Clone, Copy, Debug, PartialEq, Eq, Structural)]
pub enum TimedAction {
    /// Return: whether a value was delivered.
    Finish(bool),
    /// Block for at most this many nanoseconds, then look again.
    ParkFor(u64),
    /// The deadline passed: take one last look and return what it shows.
    Expire,
}

/// The next step of a wait with deadline `until`, after a look at time `now`
/// that found `observed`.
pub open spec fn deadline_step_of(observed: u8, now: u64, until: u64) -> TimedAction {
    if terminal(observed) {
        TimedAction::Finish(observed == UNLOCKED)
    } else if now >= until {
        TimedAction::Expire
    } else {
        TimedAction::ParkFor((until - now) as u64)
    }
}

/// Decides the next step of a wait with deadline `until`.
pub fn deadline_step(observed: u8, now: u64, until: u64) -> (r: TimedAction)
    ensures
        r == deadline_step_of(observed, now, until),
        r matches TimedAction::ParkFor(d) ==> 0 < d && now + d == until,
{
    if observed < LOCKED {
        TimedAction::Finish(observed == UNLOCKED)
    } else if now >= until {
        TimedAction::Expire
    } else {
        TimedAction::ParkFor(until - now)
    }
}

/// What the bridging wait does next.
#[derive(Clone, Copy, Debug, PartialEq, Eq, Structural)]
pub enum BridgeAction {
    /// Return: whether a value was delivered.
    Finish(bool),
    /// Yield to the scheduler, then look again.
    Yield,
    /// Sleep this many nanoseconds, then look again.
    Sleep(u64),
}

/// Where the bridging wait stands: a thread that blocks on a task-mode
/// signal, with no task runtime to wake it.
#[derive(Clone, Copy, Debug, PartialEq, Eq, Structural)]
pub struct BridgeWait {
    /// Yields left before sleeping.
    pub yields_left: u32,
    /// The next sleep, in nanoseconds.
    pub sleep_ns: u64,
}

/// A sleep the bridging wait can reach: the first sleep doubled up to eight
/// times, the last doubling reaching the cap.
pub open spec fn sleep_ok(s: u64) -> bool {
    s == 1024 || s == 2048 || s == 4096 || s == 8192 || s == 16384 || s == 32768 || s == 65536
        || s == 131072 || s == 262144
}

/// The sleep after `s`: doubled while under the cap, then held there.
pub open spec fn next_sleep(s: u64) -> u64 {
    if s < SLEEP_CAP {
        (2 * s) as u64
    } else {
        s
    }
}

/// The bridging wait's next step after a look that found `observed`.
pub open spec fn bridge_step(w: BridgeWait, observed: u8) -> (BridgeWait, BridgeAction) {
    if terminal(observed) {
        (w, BridgeAction::Finish(observed == UNLOCKED))
    } else if w.yields_left > 0 {
        (BridgeWait { yields_left: (w.yields_left - 1) as u32, ..w }, BridgeAction::Yield)
    } else {
        (BridgeWait { sleep_ns: next_sleep(w.sleep_ns), ..w }, BridgeAction::Sleep(w.sleep_ns))
    }
}

impl BridgeWait {
    /// The sleep is one that the wait can reach.
    pub open spec fn wf(self) -> bool {
        sleep_ok(self.sleep_ns)
    }

    /// A bridging wait that has not looked yet.
    pub fn new() -> (r: Self)
        ensures
            r == (BridgeWait { yields_left: BRIDGE_YIELDS, sleep_ns: SLEEP_START }),
            r.wf(),
    {
        BridgeWait { yields_left: BRIDGE_YIELDS, sleep_ns: SLEEP_START }
    }

    /// Decides the next step after a look that found `observed`.
    pub fn on_status(&mut self, observed: u8) -> (r: BridgeAction)
        requires
            old(self).wf(),
        ensures
            (*final(self), r) == bridge_step(*old(self), observed),
            final(self).wf(),
            r matches BridgeAction::Sleep(d) ==> SLEEP_START <= d <= SLEEP_CAP,
    {
        if observed < LOCKED {
            BridgeAction::Finish(observed == UNLOCKED)
        } else if self.yields_left > 0 {
            self.yields_left = self.yields_left - 1;
            BridgeAction::Yield
        } else {
            let d = self.sleep_ns;
            if self.sleep_ns < SLEEP_CAP {
                self.sleep_ns = self.sleep_ns * 2;
            }
            BridgeAction::Sleep(d)
        }
    }
}

/// A pending thread waiter that has not escalated either yields, which costs
/// one unit of its budget, or escalates; a fresh waiter's budget is one more
/// than the spin limit, so it escalates after at most that many yields.
pub proof fn lemma_spin_bounded(w: ThreadWait, observed: u8)
    requires
        !terminal(observed),
        !w.escalated,
    ensures
        thread_wait_step(w, observed).1 == WaitAction::Yield ==> spin_budget(
            thread_wait_step(w, observed).0,
        ) < spin_budget(w),
        thread_wait_step(w, observed).1 == WaitAction::Yield || thread_wait_step(w, observed).1
            == WaitAction::Escalate,
        spin_budget(ThreadWait { spins_left: SPIN_LIMIT, escalated: false }) == SPIN_LIMIT + 1,
{
}

/// A wait with a deadline reports success only when it saw `UNLOCKED`; at or
/// past the deadline on a pending status it expires, and its last look on a
/// signal that is still pending reports failure.
pub proof fn lemma_timeout_sound(observed: u8, now: u64, until: u64)
    ensures
        deadline_step_of(observed, now, until) == TimedAction::Finish(true) ==> observed == UNLOCKED,
        !terminal(observed) && now >= until ==> deadline_step_of(observed, now, until)
            == TimedAction::Expire,
        crate::status::pending(observed) ==> observed != UNLOCKED,
{
}

/// The sleep after `n` more sleeps, starting from `s`.
pub open spec fn sleep_after(s: u64, n: nat) -> u64
    decreases n,
{
    if n == 0 {
        s
    } else {
        sleep_after(next_sleep(s), (n - 1) as nat)
    }
}

/// Doublings that take the sleep `s` to the cap.
pub open spec fn doublings_left(s: u64) -> nat {
    if s >= 262144 { 0 } else if s >= 131072 { 1 } else if s >= 65536 { 2 } else if s >= 32768 {
        3
    } else if s >= 16384 { 4 } else if s >= 8192 { 5 } else if s >= 4096 { 6 } else if s >= 2048 {
        7
    } else { 8 }
}

proof fn lemma_reaches_cap(s: u64, n: nat)
    requires
        sleep_ok(s),
        n >= doublings_left(s),
    ensures
        sleep_after(s, n) == SLEEP_CAP,
    decreases n,
{
    if n > 0 {
        lemma_reaches_cap(next_sleep(s), (n - 1) as nat);
    }
}

/// The bridging wait's sleep never passes the cap, never shrinks, reaches
/// the cap after at most eight sleeps and stays there; while the signal is
/// pending every step yields or sleeps.
pub proof fn lemma_backoff_capped(w: BridgeWait, observed: u8, n: nat)
    requires
        w.wf(),
    ensures
        sleep_ok(sleep_after(w.sleep_ns, n)),
        SLEEP_START <= sleep_after(w.sleep_ns, n) <= SLEEP_CAP,
        w.sleep_ns <= next_sleep(w.sleep_ns),
        n >= 8 ==> sleep_after(w.sleep_ns, n) == SLEEP_CAP,
        next_sleep(SLEEP_CAP) == SLEEP_CAP,
        !terminal(observed) ==> (bridge_step(w, observed).1 == BridgeAction::Yield
            || bridge_step(w, observed).1 == BridgeAction::Sleep(w.sleep_ns)),
        !terminal(observed) && w.yields_left == 0 ==> bridge_step(w, observed).1
            == BridgeAction::Sleep(w.sleep_ns),
    decreases n,
{
    if n >= 8 {
        lemma_reaches_cap(w.sleep_ns, n);
    }
    if n > 0 {
        let w2 = BridgeWait { sleep_ns: next_sleep(w.sleep_ns), ..w };
        lemma_backoff_capped(w2, observed, (n - 1) as nat);
    }
}

} // verus!
