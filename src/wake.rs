//! How a waiter asks to be woken, and what the signaler does about it.
//!
//! A thread handle and a task's wake callback are carried as plain tokens:
//! the code that owns the real handles keeps one per token.
use vstd::prelude::*;
use crate::status::{LOCKED_ESCALATED, is_status};

verus! {

/// The wake handle that a signal carries.
#[derive(Clone, Copy, Debug, PartialEq, Eq, Structural)]
pub enum WakeHandle {
    /// Task mode before the first wake callback is registered.
    Unregistered,
    /// Thread mode: the blocked thread's handle, once the waiter published it.
    Thread(Option<u64>),
    /// Task mode: the registered wake callback.
    Task(u64),
}

/// What the signaler must do after it stored a terminal status.
#[derive(Clone, Copy, Debug, PartialEq, Eq, Structural)]
pub enum WakeAction {
    /// No waiter is suspended: it sees the terminal status on its next look.
    Nothing,
    /// Unpark the thread with this handle.
    Unpark(u64),
    /// Invoke the task wake callback with this token.
    WakeTask(u64),
}

/// The wake that resolving a signal in status `s` with handle `w` calls for.
/// A thread waiter is unparked only once it escalated; a task waiter is
/// woken whenever its callback is registered.
pub open spec fn wake_action_of(s: u8, w: WakeHandle) -> WakeAction {
    match w {
        WakeHandle::Thread(Some(h)) => if s == LOCKED_ESCALATED {
            WakeAction::Unpark(h)
        } else {
            WakeAction::Nothing
        },
        WakeHandle::Task(t) => WakeAction::WakeTask(t),
        _ => WakeAction::Nothing,
    }
}

/// A handle that a signal in status `s` can carry: an escalated signal has a
/// published thread handle.
pub open spec fn handle_fits(s: u8, w: WakeHandle) -> bool {
    &&& is_status(s)
    &&& s == LOCKED_ESCALATED ==> (w matches WakeHandle::Thread(Some(_)))
}

/// Decides the wake for a signal in status `s` with handle `w`.
pub fn wake_action(s: u8, w: &WakeHandle) -> (r: WakeAction)
    ensures
        r == wake_action_of(s, *w),
{
    match w {
        WakeHandle::Thread(Some(h)) => if s == LOCKED_ESCALATED {
            WakeAction::Unpark(*h)
        } else {
            WakeAction::Nothing
        },
        WakeHandle::Task(t) => WakeAction::WakeTask(*t),
        _ => WakeAction::Nothing,
    }
}

/// Whether the callback registered in `w` is the one with token `token`, so
/// that a task need not register it again.
pub fn same_task(w: &WakeHandle, token: u64) -> (r: bool)
    ensures
        r == (*w == WakeHandle::Task(token)),
{
    match w {
        WakeHandle::Task(t) => *t == token,
        _ => false,
    }
}

} // verus!
