//! The per-registration hotkey listener: identifier allocation, the blocking
//! message loop, and settlement of the pending result.
//!
//! Each registration takes the next identifier from a process-wide, strictly
//! increasing counter, then runs a dedicated loop that retrieves system
//! events until the OS reports an error or posts a termination signal.  The
//! host layer performs the blocking retrieval and hands each outcome in as a
//! [`LoopEvent`]; [`HotkeyListener::compute`] replays such a script of events
//! and returns everything the loop decided, so the decisions are verified
//! for every possible script.

use vstd::prelude::*;
use crate::bridge::{BridgeError, CallbackBridge};
use crate::modifiers::{modifiers_to_flags, spec_modifier_flags, Modifiers};

verus! {

/// Message identifier of a hotkey notification.
pub const WM_HOTKEY_CODE: u32 = 786;

/// The outcome of one blocking event retrieval, as the host layer reports
/// it.
#[derive(Clone, Copy, Debug, PartialEq, Eq, Structural)]
pub enum LoopEvent {
    /// The retrieval call itself failed with the given OS error code.
    Fatal { code: i32 },
    /// The OS posted the termination signal for this thread.
    Quit,
    /// An ordinary message.  `message` and `wparam` identify it;
    /// `delivery_ok` is the host layer's report of whether a callback
    /// notification could be enqueued, consulted only when the message is
    /// this listener's own hotkey.
    Msg { message: u32, wparam: u64, delivery_ok: bool },
}

/// How the message loop ended.
#[derive(Clone, Copy, Debug, PartialEq, Eq, Structural)]
pub enum LoopExit {
    /// The loop is still blocked: no retrieval has ended it yet.
    Pending,
    /// The termination signal arrived and the loop exited cleanly.
    CleanQuit,
    /// A retrieval error ended the loop; carries the OS error code.
    Fatal { code: i32 },
}

/// What a listener's loop did over a prefix of its event script: how often
/// its callback was invoked, how many of those deliveries were refused, how
/// many foreign messages were dispatched onward, and whether the loop has
/// exited.
pub struct LoopSummary {
    pub invocations: nat,
    pub delivery_failures: nat,
    pub dispatched: nat,
    pub exit: LoopExit,
}

/// The decision the loop takes for one retrieved event.
#[derive(Clone, Copy, Debug, PartialEq, Eq, Structural)]
pub enum StepAction {
    /// The message is this listener's hotkey: invoke the callback bridge,
    /// non-blockingly, and keep looping.
    InvokeCallback,
    /// A foreign message: hand it to standard OS processing so other work
    /// sharing this thread's queue is not starved, and keep looping.
    DispatchToOs,
    /// Stop looping.
    ExitLoop { exit: LoopExit },
}

/// The decision for one event of the listener with identifier `id`.
pub open spec fn spec_listener_step(id: i32, ev: LoopEvent) -> StepAction {
    match ev {
        LoopEvent::Fatal { code } => StepAction::ExitLoop { exit: LoopExit::Fatal { code } },
        LoopEvent::Quit => StepAction::ExitLoop { exit: LoopExit::CleanQuit },
        LoopEvent::Msg { message, wparam, delivery_ok: _ } => {
            if message == WM_HOTKEY_CODE && wparam == id as u64 {
                StepAction::InvokeCallback
            } else {
                StepAction::DispatchToOs
            }
        }
    }
}

/// Classifies one retrieved event for the listener with identifier `id`.
/// The host layer's live loop takes this decision for each event it
/// retrieves; [`HotkeyListener::compute`] takes the same one inside its
/// verified replay.
pub fn listener_step(id: i32, ev: LoopEvent) -> (r: StepAction)
    ensures
        r == spec_listener_step(id, ev),
{
    match ev {
        LoopEvent::Fatal { code } => StepAction::ExitLoop { exit: LoopExit::Fatal { code } },
        LoopEvent::Quit => StepAction::ExitLoop { exit: LoopExit::CleanQuit },
        LoopEvent::Msg { message, wparam, delivery_ok: _ } => {
            if message == WM_HOTKEY_CODE && wparam == id as u64 {
                StepAction::InvokeCallback
            } else {
                StepAction::DispatchToOs
            }
        }
    }
}

/// Folds one event into the loop summary.  Once the loop has exited, later
/// events of the script are never retrieved, so they change nothing.
pub open spec fn spec_step_summary(acc: LoopSummary, id: i32, ev: LoopEvent) -> LoopSummary {
    if !(acc.exit is Pending) {
        acc
    } else {
        match spec_listener_step(id, ev) {
            StepAction::InvokeCallback => LoopSummary {
                invocations: acc.invocations + 1,
                delivery_failures: acc.delivery_failures + if delivery_refused(ev) {
                    1nat
                } else {
                    0nat
                },
                dispatched: acc.dispatched,
                exit: acc.exit,
            },
            StepAction::DispatchToOs => LoopSummary {
                invocations: acc.invocations,
                delivery_failures: acc.delivery_failures,
                dispatched: acc.dispatched + 1,
                exit: acc.exit,
            },
            StepAction::ExitLoop { exit } => LoopSummary {
                invocations: acc.invocations,
                delivery_failures: acc.delivery_failures,
                dispatched: acc.dispatched,
                exit: exit,
            },
        }
    }
}

/// Whether a message event reports that callback delivery was refused.
pub open spec fn delivery_refused(ev: LoopEvent) -> bool {
    match ev {
        LoopEvent::Msg { message: _, wparam: _, delivery_ok } => !delivery_ok,
        _ => false,
    }
}

/// The summary before any event is retrieved.
pub open spec fn empty_summary() -> LoopSummary {
    LoopSummary { invocations: 0, delivery_failures: 0, dispatched: 0, exit: LoopExit::Pending }
}

/// What the loop of listener `id` has done after the first `n` events of
/// the script.
pub open spec fn spec_run_prefix(events: Seq<LoopEvent>, id: i32, n: nat) -> LoopSummary
    decreases n,
{
    if n == 0 {
        empty_summary()
    } else {
        spec_step_summary(spec_run_prefix(events, id, (n - 1) as nat), id, events[n - 1])
    }
}

/// Once the loop has exited, the summary never changes again, whatever the
/// rest of the script holds.
pub proof fn lemma_run_prefix_stable(events: Seq<LoopEvent>, id: i32, i: nat, j: nat)
    requires
        i <= j,
        !(spec_run_prefix(events, id, i).exit is Pending),
    ensures
        spec_run_prefix(events, id, j) == spec_run_prefix(events, id, i),
    decreases j,
{
    if i < j {
        lemma_run_prefix_stable(events, id, i, (j - 1) as nat);
    }
}

/// The process-wide counter from which every hotkey registration takes its
/// identifier.  The host layer keeps the one instance for the process;
/// identifiers grow strictly and are never reused, whether or not the
/// registration that received one later succeeds.
#[derive(Clone, Copy, Debug, PartialEq, Eq, Structural)]
pub struct HotkeyRegistry {
    pub next_id: i32,
}

/// One identifier allocation: the counter's current value is issued and the
/// counter advances.
pub open spec fn spec_allocate(r: HotkeyRegistry) -> (HotkeyRegistry, i32) {
    (HotkeyRegistry { next_id: (r.next_id + 1) as i32 }, r.next_id)
}

/// The registry after `n` allocations.
pub open spec fn registry_after(r: HotkeyRegistry, n: nat) -> HotkeyRegistry
    decreases n,
{
    if n == 0 {
        r
    } else {
        spec_allocate(registry_after(r, (n - 1) as nat)).0
    }
}

/// The identifier issued by the `n`-th allocation (counting from zero).
pub open spec fn issued_id(r: HotkeyRegistry, n: nat) -> i32 {
    spec_allocate(registry_after(r, n)).1
}

proof fn lemma_registry_after_next_id(r: HotkeyRegistry, n: nat)
    requires
        r.next_id + n <= i32::MAX,
    ensures
        registry_after(r, n).next_id == r.next_id + n,
    decreases n,
{
    if n > 0 {
        lemma_registry_after_next_id(r, (n - 1) as nat);
    }
}

/// Identifiers are strictly increasing over any sequence of allocations
/// that stays within the counter's range, and are therefore never reused:
/// distinct allocations receive distinct identifiers, regardless of whether
/// the registrations they serve later succeed or fail.
pub proof fn lemma_ids_strictly_increasing(r: HotkeyRegistry, i: nat, j: nat)
    requires
        i < j,
        r.next_id + j <= i32::MAX,
    ensures
        issued_id(r, i) < issued_id(r, j),
{
    lemma_registry_after_next_id(r, i);
    lemma_registry_after_next_id(r, j);
}

impl HotkeyRegistry {
    /// A registry is well formed while its counter is positive, as it is
    /// from the initial state on: issued identifiers are then positive.
    pub open spec fn wf(self) -> bool {
        1 <= self.next_id
    }

    /// The registry at process start: the first identifier issued is 1.
    pub fn new() -> (r: HotkeyRegistry)
        ensures
            r.next_id == 1,
            r.wf(),
    {
        HotkeyRegistry { next_id: 1 }
    }

    /// Issues the next identifier and advances the counter.  The identifier
    /// is issued before any OS registration is attempted and the counter
    /// never rolls back, so a failed registration still consumes it.
    pub fn allocate_id(&mut self) -> (r: i32)
        requires
            old(self).next_id < i32::MAX,
        ensures
            (*final(self), r) == spec_allocate(*old(self)),
            old(self).wf() ==> final(self).wf(),
    {
        let id = self.next_id;
        self.next_id = self.next_id + 1;
        id
    }
}

/// One hotkey registration: the identifier issued to it, the modifier mask
/// and virtual key code it registered for, and the callback bridge it owns.
pub struct HotkeyListener {
    pub hotkey_id: i32,
    pub mask: u32,
    pub vk: u32,
    pub bridge: CallbackBridge,
}

/// Everything a listener's run decided, for settlement and inspection by
/// the host layer.
#[derive(Clone, Copy, Debug, PartialEq, Eq)]
pub struct ListenerOutcome {
    /// Whether the initial OS registration succeeded and the loop was
    /// entered.
    pub registered: bool,
    /// How often the callback bridge was invoked.
    pub invocations: u64,
    /// How many of those delivery attempts the bridge refused (each is
    /// logged by the host layer, never escalated).
    pub delivery_failures: u64,
    /// How many foreign messages were handed to standard OS processing.
    pub dispatched: u64,
    /// How the loop ended; `Pending` while no retrieval has ended it.
    pub exit: LoopExit,
    /// Whether OS-level unregistration of the identifier was attempted.
    pub unregister_attempted: bool,
    /// How the pending result settles: the registration error, or success
    /// once the loop has exited for any reason.
    pub settlement: Result<(), BridgeError>,
}

/// How a rejected listener task settles: the propagated error, and the
/// defensive unregistration attempt made on the way out.
#[derive(Clone, Copy, Debug, PartialEq, Eq, Structural)]
pub struct RejectOutcome {
    pub error: BridgeError,
    pub unregister_attempted: bool,
}

impl HotkeyListener {
    /// A listener is well formed when it carries an identifier the registry
    /// issued: a positive one.
    pub open spec fn wf(self) -> bool {
        1 <= self.hotkey_id
    }

    /// Runs the listener's task over the script of what the OS reported:
    /// first the outcome of the initial registration call, then one
    /// [`LoopEvent`] per blocking retrieval.
    ///
    /// If registration failed, no loop is entered, nothing is unregistered
    /// here, and the task settles as failed with the OS error.  Otherwise
    /// the loop folds the events exactly as [`spec_run_prefix`] describes —
    /// its own hotkey message invokes the bridge, a foreign message is
    /// dispatched onward, an error or the termination signal ends the loop —
    /// and unregistration is attempted if and only if the loop exited, for
    /// any reason; the settlement is then successful even after a fatal
    /// retrieval error.
    pub fn compute(
        &mut self,
        registration: Result<(), i32>,
        events: &Vec<LoopEvent>,
    ) -> (outcome: ListenerOutcome)
        requires
            old(self).bridge.invoked + events@.len() <= u64::MAX,
        ensures
            final(self).hotkey_id == old(self).hotkey_id,
            final(self).mask == old(self).mask,
            final(self).vk == old(self).vk,
            final(self).bridge.tag == old(self).bridge.tag,
            outcome.registered == registration.is_ok(),
            registration matches Err(code) ==> {
                &&& outcome == (ListenerOutcome {
                    registered: false,
                    invocations: 0,
                    delivery_failures: 0,
                    dispatched: 0,
                    exit: LoopExit::Pending,
                    unregister_attempted: false,
                    settlement: Err(BridgeError::OsCallFailure { code }),
                })
                &&& *final(self) == *old(self)
            },
            registration.is_ok() ==> {
                let summary = spec_run_prefix(events@, old(self).hotkey_id, events@.len());
                &&& outcome.invocations == summary.invocations
                &&& outcome.delivery_failures == summary.delivery_failures
                &&& outcome.dispatched == summary.dispatched
                &&& outcome.exit == summary.exit
                &&& outcome.unregister_attempted == !(summary.exit is Pending)
                &&& outcome.settlement == Result::<(), BridgeError>::Ok(())
                &&& final(self).bridge.invoked == old(self).bridge.invoked
                    + summary.invocations
            },
            outcome.unregister_attempted == (registration.is_ok() && !(outcome.exit
                is Pending)),
    {
        if let Err(code) = registration {
            return ListenerOutcome {
                registered: false,
                invocations: 0,
                delivery_failures: 0,
                dispatched: 0,
                exit: LoopExit::Pending,
                unregister_attempted: false,
                settlement: Err(BridgeError::OsCallFailure { code }),
            };
        }

        let ghost script = events@;
        let ghost id = self.hotkey_id;
        let ghost bridge0 = self.bridge;

        let mut i: usize = 0;
        let mut invocations: u64 = 0;
        let mut delivery_failures: u64 = 0;
        let mut dispatched: u64 = 0;
        let mut exit_state: LoopExit = LoopExit::Pending;
        let mut pending: bool = true;

        while i < events.len() && pending
            invariant
                i <= script.len(),
                events@ == script,
                self.hotkey_id == id,
                pending == (exit_state is Pending),
                invocations <= i,
                delivery_failures <= i,
                dispatched <= i,
                bridge0.invoked + script.len() <= u64::MAX,
                self.bridge.tag == bridge0.tag,
                self.bridge.invoked == bridge0.invoked + invocations,
                self.mask == old(self).mask,
                self.vk == old(self).vk,
                spec_run_prefix(script, id, i as nat) == (LoopSummary {
                    invocations: invocations as nat,
                    delivery_failures: delivery_failures as nat,
                    dispatched: dispatched as nat,
                    exit: exit_state,
                }),
            decreases script.len() - i,
        {
            let ev = events[i];
            match listener_step(self.hotkey_id, ev) {
                StepAction::InvokeCallback => {
                    let accepted = match ev {
                        LoopEvent::Msg { message: _, wparam: _, delivery_ok } => delivery_ok,
                        _ => true,
                    };
                    let _ = self.bridge.invoke(accepted);
                    invocations = invocations + 1;
                    if !accepted {
                        delivery_failures = delivery_failures + 1;
                    }
                }
                StepAction::DispatchToOs => {
                    dispatched = dispatched + 1;
                }
                StepAction::ExitLoop { exit } => {
                    exit_state = exit;
                    pending = false;
                }
            }
            i = i + 1;
        }

        proof {
            if !(exit_state is Pending) {
                lemma_run_prefix_stable(script, id, i as nat, script.len());
            }
        }

        ListenerOutcome {
            registered: true,
            invocations,
            delivery_failures,
            dispatched,
            exit: exit_state,
            unregister_attempted: !pending,
            settlement: Ok(()),
        }
    }

    /// Settlement of a task whose run completed: the pending result
    /// resolves successfully.
    pub fn resolve(&self) -> (r: Result<(), BridgeError>)
        ensures
            r == Result::<(), BridgeError>::Ok(()),
    {
        Ok(())
    }

    /// Settlement of a task whose run failed: the error is propagated so
    /// the caller's pending result rejects, and unregistration of the
    /// identifier is attempted defensively on the way out — harmless if
    /// nothing was ever registered.
    pub fn reject(&self, error: BridgeError) -> (r: RejectOutcome)
        ensures
            r.error == error,
            r.unregister_attempted,
    {
        RejectOutcome { error, unregister_attempted: true }
    }
}

/// Starts one hotkey registration: issues the next identifier from the
/// process-wide registry, converts the modifier to its OS flags, and builds
/// the listener that the host layer will run on a dedicated thread with the
/// moved-in callback bridge.
pub fn register_hotkey(
    registry: &mut HotkeyRegistry,
    modifier: Modifiers,
    vk: u32,
    bridge: CallbackBridge,
) -> (listener: HotkeyListener)
    requires
        old(registry).next_id < i32::MAX,
    ensures
        listener.hotkey_id == spec_allocate(*old(registry)).1,
        *final(registry) == spec_allocate(*old(registry)).0,
        listener.mask == spec_modifier_flags(modifier),
        // A single modifier key always yields a nonzero mask.
        listener.mask != 0,
        listener.vk == vk,
        listener.bridge == bridge,
        old(registry).wf() ==> final(registry).wf() && listener.wf(),
{
    let id = registry.allocate_id();
    let mask = modifiers_to_flags(modifier);
    HotkeyListener { hotkey_id: id, mask, vk, bridge }
}

} // verus!
