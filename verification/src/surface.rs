//! The deferred, thread-safe handle to a UI surface owned by another
//! thread.
//!
//! Creation returns immediately with an empty handle and the configuration
//! the owning thread will build the surface from.  That thread populates the
//! handle exactly once, after construction; any caller may dispatch commands
//! through the handle at any time.  Before population a dispatch is a silent
//! no-op by design — callers tolerate the construction race, they do not
//! retry — and a command posted later may still be dropped if the owning
//! thread has already exited.

use vstd::prelude::*;

verus! {

/// An opaque token for the dispatch channel of one constructed surface; the
/// host layer maps it to the real cross-thread handle.
#[derive(Clone, Copy, Debug, PartialEq, Eq, Structural)]
pub struct SurfaceToken {
    pub id: u64,
}

/// A command for the surface's owning thread.
#[derive(Clone, Debug, PartialEq, Eq)]
pub enum SurfaceAction {
    /// End the surface's own event loop.
    Exit,
    /// Replace the surface's title.
    SetTitle { title: String },
    /// Show or hide the surface.
    SetVisible { visible: bool },
}

/// One command to post, addressed through the token of the surface that
/// must perform it.
#[derive(Clone, Debug, PartialEq, Eq)]
pub struct SurfaceDispatch {
    pub target: SurfaceToken,
    pub action: SurfaceAction,
}

/// How the owning thread is to build the surface: the caller's title and
/// size, and the fixed traits of this surface kind — not resizable,
/// frameless, no debugging, created hidden.
#[derive(Clone, Debug, PartialEq, Eq)]
pub struct SurfaceConfig {
    pub title: String,
    pub width: i32,
    pub height: i32,
    pub resizable: bool,
    pub frameless: bool,
    pub debug: bool,
    pub visible: bool,
}

/// The deferred handle: a single-assignment slot for the surface's dispatch
/// token, plus the record that the one assignment has happened.
pub struct WebviewHandle {
    /// The dispatch token, present from population until `exit` takes it.
    pub handle: Option<SurfaceToken>,
    /// Whether the owning thread has performed its one assignment.
    pub assigned: bool,
}

impl WebviewHandle {
    /// Posts the shutdown command: if the slot is populated the token is
    /// taken — so every later dispatch through this handle is a no-op — and
    /// the command to post is returned; before population this is a silent
    /// no-op that changes nothing, and a population that completes later is
    /// unaffected by it.
    pub fn exit(&mut self) -> (r: Option<SurfaceDispatch>)
        ensures
            old(self).handle is None ==> r is None && *final(self) == *old(self),
            old(self).handle matches Some(t) ==> {
                &&& r == Some(SurfaceDispatch { target: t, action: SurfaceAction::Exit })
                &&& final(self).handle is None
                &&& final(self).assigned == old(self).assigned
            },
    {
        match self.handle.take() {
            Some(t) => Some(SurfaceDispatch { target: t, action: SurfaceAction::Exit }),
            None => None,
        }
    }

    /// Posts a title change: returns the command to post if the slot is
    /// populated, and is a silent no-op before population.  The handle
    /// itself never changes.
    pub fn set_title(&self, title: String) -> (r: Option<SurfaceDispatch>)
        ensures
            self.handle is None ==> r is None,
            self.handle matches Some(t) ==> r matches Some(d) && d.target == t && (d.action
                matches SurfaceAction::SetTitle { title: posted } && posted@ == title@),
    {
        match &self.handle {
            Some(t) => Some(
                SurfaceDispatch { target: *t, action: SurfaceAction::SetTitle { title } },
            ),
            None => None,
        }
    }

    /// Posts a visibility change: returns the command to post if the slot
    /// is populated, and is a silent no-op before population.  The handle
    /// itself never changes.
    pub fn set_visible(&self, visible: bool) -> (r: Option<SurfaceDispatch>)
        ensures
            self.handle is None ==> r is None,
            self.handle matches Some(t) ==> r == Some(
                SurfaceDispatch { target: t, action: SurfaceAction::SetVisible { visible } },
            ),
    {
        match &self.handle {
            Some(t) => Some(
                SurfaceDispatch { target: *t, action: SurfaceAction::SetVisible { visible } },
            ),
            None => None,
        }
    }

    /// The owning thread's single assignment, made once its surface is
    /// constructed.  Dispatches that arrived earlier found the slot empty
    /// and were dropped; they are not replayed.
    pub fn populate(&mut self, token: SurfaceToken)
        requires
            !old(self).assigned,
        ensures
            final(self).handle == Some(token),
            final(self).assigned,
    {
        self.handle = Some(token);
        self.assigned = true;
    }
}

/// Initiates creation of a UI surface: returns, immediately, the empty
/// deferred handle for callers and the configuration from which the host
/// layer's dedicated thread builds the surface before populating the
/// handle.
pub fn open_webview(title: String, width: i32, height: i32) -> (r: (
    WebviewHandle,
    SurfaceConfig,
))
    ensures
        r.0.handle is None,
        !r.0.assigned,
        r.1.title@ == title@,
        r.1.width == width,
        r.1.height == height,
        !r.1.resizable,
        r.1.frameless,
        !r.1.debug,
        !r.1.visible,
{
    let handle = WebviewHandle { handle: None, assigned: false };
    let config = SurfaceConfig {
        title,
        width,
        height,
        resizable: false,
        frameless: true,
        debug: false,
        visible: false,
    };
    (handle, config)
}

} // verus!
