//! Safe, handle-based model of a callback-driven compositor backend.
//!
//! Compositor entities (outputs and views) are owned by an external
//! event-driven runtime and identified by opaque numeric handles.  This
//! library tracks the lifetime of those handles so that application code can
//! hold long-lived weak references that are checked for validity before use:
//!
//! * a [`Registry`] maps each handle to a liveness token,
//! * [`WeakOutput`] and [`WeakView`] capture a handle together with its
//!   token and can only be used after a successful upgrade,
//! * a [`UserData`] store attaches an optional typed value to a handle,
//!   with shared-read and exclusive-take access,
//! * a [`Dispatcher`] turns raw backend events into typed calls on a
//!   user-supplied [`Callback`], deregistering handles before the
//!   destruction notification fires.

use vstd::prelude::*;

mod dispatch;
mod event_loop;
mod input;
mod output;
mod registry;
mod render;
mod types;
mod userdata;
mod view;

pub use dispatch::{Callback, Context, Dispatcher};
pub use event_loop::{
    io_ready, timer_fire, timer_interval_ms, EventFlags, EventSource, IoCallback, Timer,
    TimerCallback, EVENT_ERROR, EVENT_HANGUP, EVENT_MASK, EVENT_READABLE, EVENT_WRITABLE,
};
pub use input::{known_button_code, known_key_code, Button, Key, BUTTON_LEFT, BUTTON_MIDDLE, BUTTON_RIGHT};
pub use output::{Output, WeakOutput};
pub use registry::{
    lemma_no_resurrection, lemma_stale_stays_stale, lemma_weak_reference_twice, resolves_in,
    run_steps, stale_in,
    step_map, step_next, step_ok, steps_ok, Registry, RegistryOp,
};
pub use render::{
    GLES2PixelFormat, GLES2Renderer, NoPixelFormat, NoRenderer, NoTexture, PixelFormat,
    RenderInstance, RenderOutput, RenderView, Renderer, Texture,
};
pub use types::{
    backend_type_code, backend_type_from, button_state_code, button_state_from, geometry_cmp,
    key_state_code, key_state_from, point_cmp, size_cmp, touch_type_code, touch_type_from,
    BackendType, ButtonState, Geometry, KeyState, Led, Modifier, Modifiers, Point, ResizeEdge,
    ScrollAxis, Size, TouchType, ViewPropertyUpdate, ViewState, LED_CAPS, LED_MASK, LED_NUM,
    LED_SCROLL, MOD_ALT, MOD_CAPS, MOD_CTRL, MOD_LOGO, MOD_MASK, MOD_MOD2, MOD_MOD3, MOD_MOD5,
    MOD_SHIFT, RESIZE_EDGE_BOTTOM, RESIZE_EDGE_LEFT, RESIZE_EDGE_MASK, RESIZE_EDGE_RIGHT,
    RESIZE_EDGE_TOP, SCROLL_AXIS_HORIZONTAL, SCROLL_AXIS_MASK, SCROLL_AXIS_VERTICAL,
    VIEW_PROPERTY_APP_ID, VIEW_PROPERTY_CLASS, VIEW_PROPERTY_MASK, VIEW_PROPERTY_PID,
    VIEW_PROPERTY_TITLE, VIEW_STATE_ACTIVATED, VIEW_STATE_FULLSCREEN, VIEW_STATE_MASK,
    VIEW_STATE_MAXIMIZED, VIEW_STATE_MOVING, VIEW_STATE_RESIZING,
};
pub use userdata::{
    cleared, lemma_clear_absent_noop, lemma_clear_idempotent, lemma_stored_reads_back, stored,
    Handle, SharedRef, UserData,
};
pub use view::{Positioner, View, WeakView};

verus! {

/// Failure to start the compositor.
#[derive(Clone, Copy, PartialEq, Eq, Structural, Hash, Debug)]
pub enum Error {
    /// A compositor was already started and did not yet terminate.
    AlreadyRunning,
    /// The backend encountered an internal error, such as a failure to
    /// allocate resources.
    InternalError,
}

impl Error {
    /// A short description of the failure.
    pub fn description(&self) -> &'static str {
        match *self {
            Error::AlreadyRunning => "An instance of Wlc is already running",
            Error::InternalError => "Wlc encountered an internal Error",
        }
    }
}

/// The process-wide run state of the compositor.
///
/// At most one callback object is active per process; `init` checks this
/// and refuses a second initialization while one is active.  The active
/// state lasts for the life of the process: there is no teardown short of
/// process exit.
pub struct Runtime {
    active: bool,
}

impl Runtime {
    /// Whether a compositor has been initialized in this process.
    pub closed spec fn is_active(self) -> bool {
        self.active
    }

    /// The run state of a fresh process: no compositor active.
    pub fn new() -> (r: Runtime)
        ensures
            !r.is_active(),
    {
        Runtime { active: false }
    }

    /// Returns whether a compositor has been initialized.
    pub fn active(&self) -> (r: bool)
        ensures
            r == self.is_active(),
    {
        self.active
    }
}

/// Token witnessing a successfully initialized compositor.
///
/// While it is alive, the backend's run loop is entitled to deliver
/// events to the dispatcher `init` returned alongside it.
pub struct Wlc {
    token: (),
}

/// Initializes the compositor with the given callback object.
///
/// Fails with [`Error::AlreadyRunning`] if a compositor is already active
/// in this process, and with [`Error::InternalError`] if the backend could
/// not be brought up (`backend_ready` is false, the value reported by the
/// backend's own initialization).  On either failure no state is changed:
/// no callback is registered, the run state is untouched.  On success the
/// process is marked active and a fresh [`Dispatcher`] owning `callback`
/// is returned; events are then fed to it for the life of the process.
pub fn init<C: Callback>(runtime: &mut Runtime, callback: C, backend_ready: bool) -> (r: Result<
    (Wlc, Dispatcher<C>),
    Error,
>)
    ensures
        r is Err <==> old(runtime).is_active() || !backend_ready,
        old(runtime).is_active() ==> (r matches Err(e) && e == Error::AlreadyRunning
            && final(runtime).is_active()),
        !old(runtime).is_active() && !backend_ready ==> (r matches Err(e) && e
            == Error::InternalError && !final(runtime).is_active()),
        !old(runtime).is_active() && backend_ready ==> final(runtime).is_active(),
        r matches Ok(p) ==> p.1.cb() == callback,
        r matches Ok(p) ==> p.1.wf() && p.1.ctx().spec_outputs().live() == Map::<
            u64,
            u64,
        >::empty() && p.1.ctx().spec_views().live() == Map::<u64, u64>::empty() && (forall|h: u64|
            !p.1.ctx().spec_output_data().contains(h)) && (forall|h: u64|
            !p.1.ctx().spec_view_data().contains(h)),
{
    if runtime.active {
        return Err(Error::AlreadyRunning);
    }
    if !backend_ready {
        return Err(Error::InternalError);
    }
    runtime.active = true;
    Ok((Wlc { token: () }, Dispatcher::new(callback)))
}

} // verus!
