//! The process-wide, one-shot key-release hook.
//!
//! At most one hook is active at a time.  Its state is an explicit registry
//! object — the hook thread's identifier, the opaque OS hook handle, and the
//! callback bridge — which the host layer keeps behind one mutual-exclusion
//! guard.  Registration stores the bridge after checking for a conflict; the
//! hook thread then records its own identifier and the installed handle.  The
//! observation callback fires at most once: on the first matching key-release
//! event it takes all three fields, so every later matching event finds
//! nothing left to act on and the state is back to idle.

use vstd::prelude::*;
use crate::bridge::{BridgeError, CallbackBridge};

verus! {

/// Hook-chain action code: the event carries real key data.
pub const HC_ACTION_CODE: i32 = 0;

/// Message identifier of an ordinary key-release event.
pub const WM_KEYUP_CODE: u64 = 257;

/// Virtual key code of the left Alt key, the designated modifier whose
/// release the hook observes.
pub const VK_LMENU_CODE: u32 = 164;

/// The singleton state of the global key-release hook.
///
/// Idle means every field is empty; installed means they were populated by a
/// successful registration and its hook thread.  The fields are taken
/// together when the hook fires, which restores idle.
#[derive(Clone, Copy, Debug, PartialEq, Eq, Structural)]
pub struct GlobalHookState {
    /// The opaque OS handle of the installed observer, recorded by the hook
    /// thread once installation succeeded.
    pub hook: Option<u64>,
    /// The identifier of the thread running the hook's message loop.
    pub thread_id: Option<u32>,
    /// The callback bridge to fire on the first matching release event.
    pub callback: Option<CallbackBridge>,
}

/// The side effects the host layer must perform after one observation
/// callback: deliver through the fired bridge (already recorded as invoked),
/// uninstall the named OS handle, and post a termination signal to the named
/// thread.  Every event, matching or not, is also passed on down the hook
/// chain.
#[derive(Clone, Copy, Debug, PartialEq, Eq, Structural)]
pub struct HookActions {
    /// The bridge that was taken and invoked, handed back to the host layer.
    pub fired: Option<CallbackBridge>,
    /// The OS hook handle to uninstall.
    pub unhook: Option<u64>,
    /// The thread to which a quit signal must be posted.
    pub post_quit_thread: Option<u32>,
}

/// Whether a low-level keyboard event is the designated release event: an
/// actionable key-up of the left Alt key.
pub open spec fn key_event_matches(code: i32, wparam: u64, vk_code: u32) -> bool {
    code == HC_ACTION_CODE && wparam == WM_KEYUP_CODE && vk_code == VK_LMENU_CODE
}

/// The bridge after one recorded delivery attempt.
pub open spec fn spec_fired_bridge(b: CallbackBridge) -> CallbackBridge {
    CallbackBridge { tag: b.tag, invoked: (b.invoked + 1) as u64 }
}

/// What one observation callback does to the hook state, and the actions it
/// leaves for the host layer.  A matching event empties the whole state and
/// acts on whatever was present; any other event changes nothing.
pub open spec fn spec_keyboard_proc(
    s: GlobalHookState,
    code: i32,
    wparam: u64,
    vk_code: u32,
) -> (GlobalHookState, HookActions) {
    if key_event_matches(code, wparam, vk_code) {
        (
            GlobalHookState { hook: None, thread_id: None, callback: None },
            HookActions {
                fired: match s.callback {
                    Some(b) => Some(spec_fired_bridge(b)),
                    None => None,
                },
                unhook: s.hook,
                post_quit_thread: s.thread_id,
            },
        )
    } else {
        (s, HookActions { fired: None, unhook: None, post_quit_thread: None })
    }
}

/// What registering a new hook does: a conflict error, leaving the state
/// untouched, while a hook handle or a hook thread is still recorded;
/// otherwise the bridge is stored and registration succeeds.
pub open spec fn spec_register_alt_release(
    s: GlobalHookState,
    b: CallbackBridge,
) -> (GlobalHookState, Result<(), BridgeError>) {
    if s.hook is Some || s.thread_id is Some {
        (s, Result::Err(BridgeError::RegistrationConflict))
    } else {
        (
            GlobalHookState { hook: s.hook, thread_id: s.thread_id, callback: Some(b) },
            Result::Ok(()),
        )
    }
}

impl GlobalHookState {
    /// The idle state: no hook installed, no thread running, no callback
    /// stored.
    pub fn new() -> (r: GlobalHookState)
        ensures
            r.hook is None,
            r.thread_id is None,
            r.callback is None,
    {
        GlobalHookState { hook: None, thread_id: None, callback: None }
    }

    /// The hook thread records its own identifier before installing the
    /// observer, so the observation callback can later post the quit signal
    /// to it.
    pub fn record_hook_thread(&mut self, tid: u32)
        ensures
            final(self).thread_id == Some(tid),
            final(self).hook == old(self).hook,
            final(self).callback == old(self).callback,
    {
        self.thread_id = Some(tid);
    }

    /// The hook thread records the opaque handle the OS returned for the
    /// installed observer.  Installation failure is fatal to that thread and
    /// never reaches this point.
    pub fn record_hook_handle(&mut self, handle: u64)
        ensures
            final(self).hook == Some(handle),
            final(self).thread_id == old(self).thread_id,
            final(self).callback == old(self).callback,
    {
        self.hook = Some(handle);
    }
}

/// The observation callback, run for every low-level keyboard event while
/// the hook is installed.
///
/// On the designated release event it takes and invokes the stored bridge,
/// and takes the hook handle and the thread identifier so the host layer can
/// uninstall the observer and end the loop thread.  Because every field is
/// consumed, a second matching event finds nothing to act on.  `delivery_ok`
/// is the host layer's report of whether the notification was enqueued; a
/// refusal is ignored here, never escalated.
pub fn keyboard_proc(
    state: &mut GlobalHookState,
    code: i32,
    wparam: u64,
    vk_code: u32,
    delivery_ok: bool,
) -> (r: HookActions)
    requires
        old(state).callback matches Some(b) ==> b.invoked < u64::MAX,
    ensures
        (*final(state), r) == spec_keyboard_proc(*old(state), code, wparam, vk_code),
{
    let mut actions = HookActions { fired: None, unhook: None, post_quit_thread: None };
    if code == HC_ACTION_CODE && wparam == WM_KEYUP_CODE && vk_code == VK_LMENU_CODE {
        let taken = state.callback.take();
        match taken {
            Some(mut b) => {
                let _ = b.invoke(delivery_ok);
                actions.fired = Some(b);
            }
            None => {}
        }
        actions.unhook = state.hook.take();
        actions.post_quit_thread = state.thread_id.take();
    }
    actions
}

/// Registers the global key-release hook.
///
/// Fails with `RegistrationConflict`, leaving the existing state untouched,
/// if a hook handle or a hook thread is still recorded.  On success the
/// bridge is stored; the host layer then spawns the hook thread, which
/// records its identifier and the installed handle.
pub fn register_alt_release(
    state: &mut GlobalHookState,
    bridge: CallbackBridge,
) -> (r: Result<(), BridgeError>)
    ensures
        (*final(state), r) == spec_register_alt_release(*old(state), bridge),
{
    if state.hook.is_some() {
        return Err(BridgeError::RegistrationConflict);
    }
    if state.thread_id.is_some() {
        return Err(BridgeError::RegistrationConflict);
    }
    state.callback = Some(bridge);
    Ok(())
}

/// The hook is one-shot: once a matching release event has fired it, a
/// second identical event invokes no callback, uninstalls nothing, signals
/// no thread, and leaves the state as the first event left it.
pub proof fn lemma_hook_fires_at_most_once(
    s: GlobalHookState,
    code: i32,
    wparam: u64,
    vk_code: u32,
)
    requires
        key_event_matches(code, wparam, vk_code),
    ensures
        ({
            let (s1, a1) = spec_keyboard_proc(s, code, wparam, vk_code);
            let (s2, a2) = spec_keyboard_proc(s1, code, wparam, vk_code);
            &&& a1.fired is Some <==> s.callback is Some
            &&& a2.fired is None
            &&& a2.unhook is None
            &&& a2.post_quit_thread is None
            &&& s2 == s1
        }),
{
}

/// Registering while a hook is active returns `RegistrationConflict`, and
/// the pre-existing hook is unaffected: its state is unchanged and a
/// matching release event still fires the originally stored bridge.
pub proof fn lemma_conflict_preserves_active_hook(
    s: GlobalHookState,
    b2: CallbackBridge,
    code: i32,
    wparam: u64,
    vk_code: u32,
)
    requires
        s.hook is Some || s.thread_id is Some,
        key_event_matches(code, wparam, vk_code),
    ensures
        ({
            let (s1, r) = spec_register_alt_release(s, b2);
            let (_, a) = spec_keyboard_proc(s1, code, wparam, vk_code);
            &&& r == Result::<(), BridgeError>::Err(BridgeError::RegistrationConflict)
            &&& s1 == s
            &&& a.fired == match s.callback {
                Some(b) => Some(spec_fired_bridge(b)),
                None => None::<CallbackBridge>,
            }
        }),
{
}

} // verus!
