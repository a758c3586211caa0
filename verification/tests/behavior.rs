use hotkey_bridge::bridge::{BridgeError, CallbackBridge};
use hotkey_bridge::hook::{keyboard_proc, register_alt_release, GlobalHookState};
use hotkey_bridge::hotkey::{
    register_hotkey, HotkeyListener, HotkeyRegistry, LoopEvent, LoopExit,
};
use hotkey_bridge::modifiers::{modifiers_to_flags, Modifiers};
use hotkey_bridge::surface::{open_webview, SurfaceAction, SurfaceToken};

const WM_HOTKEY: u32 = 786;
const VK_A: u32 = 65;

fn own_hotkey_msg(id: i32) -> LoopEvent {
    LoopEvent::Msg { message: WM_HOTKEY, wparam: id as u64, delivery_ok: true }
}

#[test]
fn modifier_flags_match_os_encoding() {
    assert_eq!(modifiers_to_flags(Modifiers::Alt), 0x0001);
    assert_eq!(modifiers_to_flags(Modifiers::Control), 0x0002);
    assert_eq!(modifiers_to_flags(Modifiers::Shift), 0x0004);
    assert_eq!(modifiers_to_flags(Modifiers::Win), 0x0008);
}

#[test]
fn identifiers_strictly_increase_across_registrations() {
    let mut registry = HotkeyRegistry::new();
    let a = register_hotkey(&mut registry, Modifiers::Control, VK_A, CallbackBridge::new(1));
    let mut b = register_hotkey(&mut registry, Modifiers::Alt, 66, CallbackBridge::new(2));
    // The second registration's OS call fails; its identifier is still consumed.
    let outcome = b.compute(Err(5), &Vec::new());
    assert!(!outcome.registered);
    let c = register_hotkey(&mut registry, Modifiers::Shift, 67, CallbackBridge::new(3));
    assert_eq!(a.hotkey_id, 1);
    assert_eq!(b.hotkey_id, 2);
    assert_eq!(c.hotkey_id, 3);
    assert!(a.hotkey_id < b.hotkey_id && b.hotkey_id < c.hotkey_id);
}

#[test]
fn matching_event_invokes_callback_once_and_loop_continues() {
    let mut registry = HotkeyRegistry::new();
    let mut listener =
        register_hotkey(&mut registry, Modifiers::Control, VK_A, CallbackBridge::new(9));
    let events = vec![
        own_hotkey_msg(listener.hotkey_id),
        // A foreign message afterwards shows the loop kept running.
        LoopEvent::Msg { message: 273, wparam: 0, delivery_ok: true },
        LoopEvent::Quit,
    ];
    let outcome = listener.compute(Ok(()), &events);
    assert!(outcome.registered);
    assert_eq!(outcome.invocations, 1);
    assert_eq!(outcome.delivery_failures, 0);
    assert_eq!(outcome.dispatched, 1);
    assert_eq!(outcome.exit, LoopExit::CleanQuit);
    assert!(outcome.unregister_attempted);
    assert_eq!(outcome.settlement, Ok(()));
    assert_eq!(listener.bridge.invoked, 1);
}

#[test]
fn foreign_hotkey_identifier_is_dispatched_not_invoked() {
    let mut registry = HotkeyRegistry::new();
    let mut listener =
        register_hotkey(&mut registry, Modifiers::Win, VK_A, CallbackBridge::new(4));
    let events = vec![
        LoopEvent::Msg { message: WM_HOTKEY, wparam: 999, delivery_ok: true },
        LoopEvent::Quit,
    ];
    let outcome = listener.compute(Ok(()), &events);
    assert_eq!(outcome.invocations, 0);
    assert_eq!(outcome.dispatched, 1);
    assert_eq!(listener.bridge.invoked, 0);
}

#[test]
fn registration_failure_settles_failed_without_loop_or_unregistration() {
    let mut registry = HotkeyRegistry::new();
    let mut listener =
        register_hotkey(&mut registry, Modifiers::Alt, VK_A, CallbackBridge::new(5));
    let events = vec![own_hotkey_msg(listener.hotkey_id), LoopEvent::Quit];
    let outcome = listener.compute(Err(1004), &events);
    assert!(!outcome.registered);
    assert_eq!(outcome.invocations, 0);
    assert_eq!(outcome.dispatched, 0);
    assert!(!outcome.unregister_attempted);
    assert_eq!(outcome.settlement, Err(BridgeError::OsCallFailure { code: 1004 }));
    // The failed task is rejected: the error propagates and unregistration
    // is attempted defensively on the way out.
    let rejection = listener.reject(BridgeError::OsCallFailure { code: 1004 });
    assert!(rejection.unregister_attempted);
    assert_eq!(rejection.error, BridgeError::OsCallFailure { code: 1004 });
}

#[test]
fn termination_signal_exits_cleanly_and_unregisters() {
    let mut registry = HotkeyRegistry::new();
    let mut listener =
        register_hotkey(&mut registry, Modifiers::Control, VK_A, CallbackBridge::new(6));
    let outcome = listener.compute(Ok(()), &vec![LoopEvent::Quit]);
    assert_eq!(outcome.exit, LoopExit::CleanQuit);
    assert!(outcome.unregister_attempted);
    assert_eq!(outcome.settlement, Ok(()));
    assert_eq!(listener.resolve(), Ok(()));
}

#[test]
fn retrieval_error_also_exits_and_unregisters() {
    let mut registry = HotkeyRegistry::new();
    let mut listener =
        register_hotkey(&mut registry, Modifiers::Control, VK_A, CallbackBridge::new(6));
    let events = vec![
        own_hotkey_msg(listener.hotkey_id),
        LoopEvent::Fatal { code: -7 },
        // Never retrieved: the loop exited on the error.
        own_hotkey_msg(listener.hotkey_id),
    ];
    let outcome = listener.compute(Ok(()), &events);
    assert_eq!(outcome.exit, LoopExit::Fatal { code: -7 });
    assert!(outcome.unregister_attempted);
    assert_eq!(outcome.invocations, 1);
    // A loop ended by a retrieval error still settles successfully.
    assert_eq!(outcome.settlement, Ok(()));
}

#[test]
fn exhausted_script_leaves_loop_pending_without_unregistration() {
    let mut registry = HotkeyRegistry::new();
    let mut listener =
        register_hotkey(&mut registry, Modifiers::Shift, VK_A, CallbackBridge::new(2));
    let events = vec![own_hotkey_msg(listener.hotkey_id)];
    let outcome = listener.compute(Ok(()), &events);
    assert_eq!(outcome.exit, LoopExit::Pending);
    assert!(!outcome.unregister_attempted);
    assert_eq!(outcome.invocations, 1);
}

#[test]
fn refused_delivery_is_counted_and_never_stops_the_loop() {
    let mut registry = HotkeyRegistry::new();
    let mut listener =
        register_hotkey(&mut registry, Modifiers::Control, VK_A, CallbackBridge::new(3));
    let id = listener.hotkey_id;
    let events = vec![
        LoopEvent::Msg { message: WM_HOTKEY, wparam: id as u64, delivery_ok: false },
        own_hotkey_msg(id),
        LoopEvent::Quit,
    ];
    let outcome = listener.compute(Ok(()), &events);
    assert_eq!(outcome.invocations, 2);
    assert_eq!(outcome.delivery_failures, 1);
    assert_eq!(outcome.exit, LoopExit::CleanQuit);
    assert_eq!(outcome.settlement, Ok(()));
}

#[test]
fn callback_delivery_failure_surfaces_only_from_the_bridge() {
    let mut bridge = CallbackBridge::new(11);
    assert_eq!(bridge.invoke(true), Ok(()));
    assert_eq!(bridge.invoke(false), Err(BridgeError::CallbackDeliveryFailure));
    assert_eq!(bridge.invoked, 2);
}

#[test]
fn second_hook_registration_conflicts_and_first_still_fires() {
    let mut state = GlobalHookState::new();
    assert_eq!(register_alt_release(&mut state, CallbackBridge::new(1)), Ok(()));
    // The hook thread records itself and the installed observer.
    state.record_hook_thread(77);
    state.record_hook_handle(4242);
    let before = state;
    assert_eq!(
        register_alt_release(&mut state, CallbackBridge::new(2)),
        Err(BridgeError::RegistrationConflict)
    );
    assert_eq!(state, before);
    // The original callback is still the one that fires.
    let actions = keyboard_proc(&mut state, 0, 257, 164, true);
    let fired = actions.fired.expect("the stored bridge fires");
    assert_eq!(fired.tag, 1);
    assert_eq!(fired.invoked, 1);
    assert_eq!(actions.unhook, Some(4242));
    assert_eq!(actions.post_quit_thread, Some(77));
}

#[test]
fn hook_fires_exactly_once_for_identical_events() {
    let mut state = GlobalHookState::new();
    assert_eq!(register_alt_release(&mut state, CallbackBridge::new(8)), Ok(()));
    state.record_hook_thread(12);
    state.record_hook_handle(500);
    let first = keyboard_proc(&mut state, 0, 257, 164, true);
    assert!(first.fired.is_some());
    assert!(first.unhook.is_some());
    assert!(first.post_quit_thread.is_some());
    // An identical release event finds nothing left to act on.
    let second = keyboard_proc(&mut state, 0, 257, 164, true);
    assert!(second.fired.is_none());
    assert!(second.unhook.is_none());
    assert!(second.post_quit_thread.is_none());
    // The singleton is back to idle, so a new registration succeeds.
    assert_eq!(register_alt_release(&mut state, CallbackBridge::new(9)), Ok(()));
}

#[test]
fn hook_ignores_non_matching_events() {
    let mut state = GlobalHookState::new();
    assert_eq!(register_alt_release(&mut state, CallbackBridge::new(8)), Ok(()));
    state.record_hook_thread(12);
    state.record_hook_handle(500);
    let before = state;
    // Key-down of the designated key, key-up of another key, and a
    // non-actionable chain code: none of them fires.
    assert!(keyboard_proc(&mut state, 0, 256, 164, true).fired.is_none());
    assert!(keyboard_proc(&mut state, 0, 257, 65, true).fired.is_none());
    assert!(keyboard_proc(&mut state, -1, 257, 164, true).fired.is_none());
    assert_eq!(state, before);
}

#[test]
fn early_exit_on_unbuilt_surface_is_a_silent_noop() {
    let (mut handle, config) = open_webview(String::from("Test"), 800, 600);
    assert_eq!(config.title, "Test");
    assert_eq!(config.width, 800);
    assert_eq!(config.height, 600);
    assert!(!config.resizable);
    assert!(config.frameless);
    assert!(!config.debug);
    assert!(!config.visible);
    // Dispatches before the owning thread populated the slot are no-ops.
    assert!(handle.exit().is_none());
    assert!(handle.set_title(String::from("late")).is_none());
    assert!(handle.set_visible(true).is_none());
    // Construction completes afterwards; the stale exit is not replayed and
    // the surface is reachable from then on.
    handle.populate(SurfaceToken { id: 3 });
    let dispatch = handle.set_visible(true).expect("populated slot dispatches");
    assert_eq!(dispatch.target, SurfaceToken { id: 3 });
    assert_eq!(dispatch.action, SurfaceAction::SetVisible { visible: true });
}

#[test]
fn exit_takes_the_handle_so_later_dispatches_are_noops() {
    let (mut handle, _config) = open_webview(String::from("w"), 10, 20);
    handle.populate(SurfaceToken { id: 1 });
    let title_dispatch = handle.set_title(String::from("renamed")).unwrap();
    assert_eq!(
        title_dispatch.action,
        SurfaceAction::SetTitle { title: String::from("renamed") }
    );
    let exit_dispatch = handle.exit().expect("first exit dispatches");
    assert_eq!(exit_dispatch.action, SurfaceAction::Exit);
    // The token was taken: every further dispatch is a silent no-op.
    assert!(handle.exit().is_none());
    assert!(handle.set_title(String::from("gone")).is_none());
    assert!(handle.set_visible(false).is_none());
}

#[test]
fn full_session_across_components() {
    // One process: a hotkey registration and the global hook live side by
    // side, each with its own bridge.
    let mut registry = HotkeyRegistry::new();
    let mut hook = GlobalHookState::new();
    let mut listener: HotkeyListener =
        register_hotkey(&mut registry, Modifiers::Alt, 90, CallbackBridge::new(100));
    assert_eq!(register_alt_release(&mut hook, CallbackBridge::new(200)), Ok(()));
    hook.record_hook_thread(31);
    hook.record_hook_handle(8000);

    let events = vec![own_hotkey_msg(listener.hotkey_id), LoopEvent::Quit];
    let outcome = listener.compute(Ok(()), &events);
    assert_eq!(outcome.invocations, 1);
    assert!(outcome.unregister_attempted);

    let actions = keyboard_proc(&mut hook, 0, 257, 164, true);
    assert_eq!(actions.fired.unwrap().tag, 200);
    assert!(keyboard_proc(&mut hook, 0, 257, 164, true).fired.is_none());
}
