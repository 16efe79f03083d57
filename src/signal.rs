//! One signal over its lifetime, as the waiter and the signaler see it.
//!
//! Each method is one atomic step of the protocol. The status word only ever
//! takes the legal steps of `status`, and exactly one resolution moves a
//! pending signal to a terminal status.
use vstd::prelude::*;
use crate::status::{
    LOCKED, LOCKED_ESCALATED, TERMINATED, UNLOCKED, cas_result, is_status, outcome_of, pending,
    terminal, legal_step,
};
use crate::wait::{
    BridgeWait, ThreadWait, TimedAction, WaitAction, BridgeAction, bridge_step, deadline_step_of,
    thread_wait_step,
};
use crate::wake::{WakeAction, WakeHandle, handle_fits, wake_action, wake_action_of, same_task};

verus! {

/// The abstract content of a signal.
pub struct SignalView<T> {
    pub state: u8,
    pub slot: Option<T>,
    pub waker: WakeHandle,
}

impl<T> SignalView<T> {
    /// A status value, and a thread handle wherever the status is escalated.
    pub open spec fn wf(self) -> bool {
        handle_fits(self.state, self.waker)
    }

    /// A waiter is known that a resolution can wake.
    pub open spec fn has_waiter(self) -> bool {
        !(self.waker is Unregistered)
    }

    /// Ready for one of the two resolutions that deliver a value.
    pub open spec fn can_deliver(self) -> bool {
        self.wf() && pending(self.state) && self.has_waiter() && self.slot is None
    }

    /// Ready for the resolution that takes the value out of the slot.
    pub open spec fn can_consume(self) -> bool {
        self.wf() && pending(self.state) && self.has_waiter() && self.slot is Some
    }

    /// Ready for termination.
    pub open spec fn can_terminate(self) -> bool {
        self.wf() && pending(self.state) && self.has_waiter()
    }

    /// The signal after a resolution stored `target` and left `slot`.
    pub open spec fn resolved(self, target: u8, slot: Option<T>) -> SignalView<T> {
        SignalView { state: target, slot, waker: self.waker }
    }

    /// The signal after a thread waiter published `h` and tried to escalate.
    pub open spec fn escalated(self, h: u64) -> SignalView<T> {
        SignalView {
            state: cas_result(self.state, LOCKED, LOCKED_ESCALATED).0,
            slot: self.slot,
            waker: WakeHandle::Thread(Some(h)),
        }
    }

    /// The wake that resolving the signal now calls for.
    pub open spec fn wake(self) -> WakeAction {
        wake_action_of(self.state, self.waker)
    }
}

/// A single-use rendezvous cell: a status word, a slot for the one value, and
/// the handle by which the waiter is woken.
pub struct Signal<T> {
    state: u8,
    slot: Option<T>,
    waker: WakeHandle,
}

impl<T> View for Signal<T> {
    type V = SignalView<T>;

    closed spec fn view(&self) -> SignalView<T> {
        SignalView { state: self.state, slot: self.slot, waker: self.waker }
    }
}

impl<T> Signal<T> {
    /// A thread-mode signal bound to `slot`: empty where the waiter receives,
    /// filled where the waiter sends.
    pub fn new_sync(slot: Option<T>) -> (r: Self)
        ensures
            r@ == (SignalView { state: LOCKED, slot, waker: WakeHandle::Thread(None) }),
            r@.wf(),
    {
        Signal { state: LOCKED, slot, waker: WakeHandle::Thread(None) }
    }

    /// A task-mode signal with an empty slot and no wake callback yet.
    pub fn new_async() -> (r: Self)
        ensures
            r@ == (SignalView::<T> { state: LOCKED, slot: None, waker: WakeHandle::Unregistered }),
            r@.wf(),
    {
        Signal { state: LOCKED, slot: None, waker: WakeHandle::Unregistered }
    }

    /// A task-mode signal bound to `slot`, with no wake callback yet.
    pub fn new_async_ptr(slot: Option<T>) -> (r: Self)
        ensures
            r@ == (SignalView { state: LOCKED, slot, waker: WakeHandle::Unregistered }),
            r@.wf(),
    {
        Signal { state: LOCKED, slot, waker: WakeHandle::Unregistered }
    }

    /// One non-blocking look: `None` while pending, else whether a value was
    /// delivered.
    pub fn poll(&self) -> (r: Option<bool>)
        ensures
            r == outcome_of(self@.state),
    {
        crate::status::outcome(self.state)
    }

    /// The status word as it stands.
    pub fn state(&self) -> (r: u8)
        ensures
            r == self@.state,
    {
        self.state
    }

    /// Whether the signal was resolved without a value.
    pub fn is_terminated(&self) -> (r: bool)
        ensures
            r == (self@.state == TERMINATED),
    {
        self.state == TERMINATED
    }

    /// Binds a task-mode signal to its slot before the first poll.
    pub fn set_ptr(&mut self, slot: Option<T>)
        ensures
            final(self)@ == (SignalView { slot, ..old(self)@ }),
    {
        self.slot = slot;
    }

    /// Stores, or replaces, the task's wake callback.
    pub fn register_waker(&mut self, token: u64)
        requires
            !(old(self)@.waker is Thread),
        ensures
            final(self)@ == (SignalView { waker: WakeHandle::Task(token), ..old(self)@ }),
    {
        self.waker = WakeHandle::Task(token);
    }

    /// Whether the registered callback is the one with `token`, so that
    /// registering it again can be skipped.
    pub fn will_wake(&self, token: u64) -> (r: bool)
        requires
            self@.waker is Task,
        ensures
            r == (self@.waker == WakeHandle::Task(token)),
    {
        same_task(&self.waker, token)
    }

    /// The thread waiter's escalation: publishes its handle `h`, then
    /// compare-and-swaps `LOCKED` to `LOCKED_ESCALATED`. `Err` carries the
    /// terminal status that a signaler stored first.
    pub fn escalate(&mut self, h: u64) -> (r: Result<u8, u8>)
        requires
            old(self)@.wf(),
            old(self)@.waker is Thread,
            old(self)@.state != LOCKED_ESCALATED,
        ensures
            final(self)@ == old(self)@.escalated(h),
            r == cas_result(old(self)@.state, LOCKED, LOCKED_ESCALATED).1,
            final(self)@.wf(),
            r is Ok <==> old(self)@.state == LOCKED,
    {
        self.waker = WakeHandle::Thread(Some(h));
        let (next, r) = crate::status::escalate(self.state);
        self.state = next;
        r
    }

    /// Takes the value out of the slot.
    pub fn assume_init(&mut self) -> (r: T)
        requires
            old(self)@.slot is Some,
        ensures
            Some(r) == old(self)@.slot,
            final(self)@ == (SignalView::<T> { slot: None, ..old(self)@ }),
    {
        self.slot.take().unwrap()
    }

    /// Stores `target`, and says whom to wake.
    fn resolve(&mut self, target: u8) -> (r: WakeAction)
        requires
            old(self)@.wf(),
            pending(old(self)@.state),
            terminal(target),
        ensures
            r == old(self)@.wake(),
            final(self)@ == old(self)@.resolved(target, old(self)@.slot),
            final(self)@.wf(),
    {
        let r = wake_action(self.state, &self.waker);
        self.state = target;
        r
    }

    /// Delivers `d`: writes the slot, then resolves to `UNLOCKED`.
    pub fn send(&mut self, d: T) -> (r: WakeAction)
        requires
            old(self)@.can_deliver(),
        ensures
            final(self)@ == old(self)@.resolved(UNLOCKED, Some(d)),
            r == old(self)@.wake(),
    {
        self.slot = Some(d);
        self.resolve(UNLOCKED)
    }

    /// Delivers a copy of `*d`, which stays with the caller.
    pub fn send_copy(&mut self, d: &T) -> (r: WakeAction)
        where
            T: Copy,
        requires
            old(self)@.can_deliver(),
        ensures
            final(self)@ == old(self)@.resolved(UNLOCKED, Some(*d)),
            r == old(self)@.wake(),
    {
        self.slot = Some(*d);
        self.resolve(UNLOCKED)
    }

    /// Consumes the value that the waiter offered, then resolves to
    /// `UNLOCKED`.
    pub fn recv(&mut self) -> (r: (T, WakeAction))
        requires
            old(self)@.can_consume(),
        ensures
            Some(r.0) == old(self)@.slot,
            final(self)@ == old(self)@.resolved(UNLOCKED, None),
            r.1 == old(self)@.wake(),
    {
        let d = self.slot.take().unwrap();
        let w = self.resolve(UNLOCKED);
        (d, w)
    }

    /// Resolves to `TERMINATED` without touching the slot.
    pub fn terminate(&mut self) -> (r: WakeAction)
        requires
            old(self)@.can_terminate(),
        ensures
            final(self)@ == old(self)@.resolved(TERMINATED, old(self)@.slot),
            r == old(self)@.wake(),
    {
        self.resolve(TERMINATED)
    }

    /// Drops the value in the slot.
    pub fn load_and_drop(&mut self)
        requires
            old(self)@.slot is Some,
        ensures
            final(self)@ == (SignalView::<T> { slot: None, ..old(self)@ }),
    {
        self.slot = None;
    }
}

/// A resolution leaves the signal terminal, well formed and closed to any
/// further resolution; the waiter's own steps no longer change its status.
pub proof fn lemma_single_resolution<T>(v: SignalView<T>, target: u8, slot: Option<T>, h: u64)
    requires
        v.wf(),
        pending(v.state),
        terminal(target),
    ensures
        legal_step(v.state, target),
        v.resolved(target, slot).wf(),
        terminal(v.resolved(target, slot).state),
        !v.resolved(target, slot).can_deliver(),
        !v.resolved(target, slot).can_consume(),
        !v.resolved(target, slot).can_terminate(),
        v.resolved(target, slot).escalated(h).state == target,
{
}

/// A delivered value is what the waiter finds: the status reports success
/// and the slot holds the value unchanged.
pub proof fn lemma_round_trip<T>(v: SignalView<T>, x: T)
    requires
        v.can_deliver(),
    ensures
        outcome_of(v.resolved(UNLOCKED, Some(x)).state) == Some(true),
        v.resolved(UNLOCKED, Some(x)).slot == Some(x),
{
}

/// Terminating a pending signal ends every kind of wait at its next look,
/// with failure, and leaves the slot alone; an escalated waiter is unparked.
pub proof fn lemma_termination_observed<T>(
    v: SignalView<T>,
    w: ThreadWait,
    b: BridgeWait,
    now: u64,
    until: u64,
)
    requires
        v.can_terminate(),
    ensures
        outcome_of(v.resolved(TERMINATED, v.slot).state) == Some(false),
        thread_wait_step(w, v.resolved(TERMINATED, v.slot).state).1 == WaitAction::Finish(false),
        bridge_step(b, v.resolved(TERMINATED, v.slot).state).1 == BridgeAction::Finish(false),
        deadline_step_of(v.resolved(TERMINATED, v.slot).state, now, until) == TimedAction::Finish(
            false,
        ),
        v.resolved(TERMINATED, v.slot).slot == v.slot,
        v.state == LOCKED_ESCALATED ==> v.wake() is Unpark,
{
}

/// Once a thread waiter's escalation succeeds, the resolution that follows
/// unparks exactly the thread it published; had the signaler come first, the
/// escalation changes nothing and the waiter returns at once.
pub proof fn lemma_no_missed_wakeup<T>(v: SignalView<T>, h: u64)
    requires
        v.wf(),
        v.waker is Thread,
        v.state != LOCKED_ESCALATED,
    ensures
        v.state == LOCKED ==> v.escalated(h).state == LOCKED_ESCALATED,
        v.state == LOCKED ==> v.escalated(h).wake() == WakeAction::Unpark(h),
        v.escalated(h).wf(),
        terminal(v.state) ==> v.escalated(h).state == v.state,
{
}

} // verus!
