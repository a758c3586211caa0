//! The callback bridge: the mechanism by which a worker thread notifies the
//! caller's asynchronous callback, together with the error taxonomy shared by
//! every component.
//!
//! A bridge is created once per registration, moved into the listener or hook
//! that owns it, and never shared afterwards.  Delivery is fire-and-forget:
//! the worker records the attempt and reports a delivery failure to its own
//! caller, which may log it but never escalates it.

use vstd::prelude::*;

verus! {

/// Why a caller-facing operation failed.
#[derive(Clone, Copy, Debug, PartialEq, Eq, Structural)]
pub enum BridgeError {
    /// A second global hook registration was attempted while one is active,
    /// or an identifier collision was reported at registration time.
    RegistrationConflict,
    /// An underlying OS operation failed; carries the OS-reported error code.
    OsCallFailure { code: i32 },
    /// The bridge could not enqueue the notification for the caller.
    CallbackDeliveryFailure,
}

/// Wraps one caller-supplied callback so a worker thread can invoke it.
///
/// The `tag` identifies the caller's callback; `invoked` counts how many
/// delivery attempts the owning worker has made through this bridge.
#[derive(Clone, Copy, Debug, PartialEq, Eq, Structural)]
pub struct CallbackBridge {
    pub tag: u64,
    pub invoked: u64,
}

impl CallbackBridge {
    /// A fresh bridge for the callback identified by `tag`; nothing has been
    /// delivered through it yet.
    pub fn new(tag: u64) -> (r: CallbackBridge)
        ensures
            r.tag == tag,
            r.invoked == 0,
    {
        CallbackBridge { tag, invoked: 0 }
    }

    /// One non-blocking delivery attempt.  `accepted` is the host layer's
    /// report of whether the notification could be enqueued; the attempt is
    /// recorded either way, and a refusal surfaces only as
    /// `CallbackDeliveryFailure`, which callers log and never escalate.
    pub fn invoke(&mut self, accepted: bool) -> (r: Result<(), BridgeError>)
        requires
            old(self).invoked < u64::MAX,
        ensures
            final(self).tag == old(self).tag,
            final(self).invoked == old(self).invoked + 1,
            r == if accepted {
                Result::<(), BridgeError>::Ok(())
            } else {
                Result::<(), BridgeError>::Err(BridgeError::CallbackDeliveryFailure)
            },
    {
        self.invoked = self.invoked + 1;
        if accepted {
            Ok(())
        } else {
            Err(BridgeError::CallbackDeliveryFailure)
        }
    }
}

} // verus!
