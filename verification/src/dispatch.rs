//! The event dispatch adapter.
//!
//! A [`Dispatcher`] owns the per-process compositor state — one handle
//! [`Registry`] and one [`UserData`] store per entity kind, bundled in a
//! [`Context`] — together with the user's [`Callback`] object.  Raw backend
//! events enter as plain values; the dispatcher resolves handles to entity
//! references, decodes enumerants, and calls the matching callback method.
//!
//! Two rules of the destruction path are load-bearing and stated as
//! contracts:
//!
//! * the handle is removed from its registry *before* the destruction
//!   handler runs, so a weak-reference upgrade performed inside the handler
//!   (re-entrantly) already observes the entity as gone — the destruction
//!   handlers' `requires` record this;
//! * the user-data slot of the handle is cleared after the handler
//!   returns, and every token issued for the handle before the event is
//!   stale when dispatch returns — the dispatch functions' `ensures`
//!   record this, and every dispatch function promises that stale pairs
//!   stay stale, so a destroyed entity stays gone across any further
//!   events.
//!
//! An event enumerant outside the known vocabulary is dropped (the event
//! reports "not handled") where it gates optional behaviour, such as an
//! unknown key or button code.  Where the enumerant is foundational to
//! interpreting the event — a key state, a button state, a touch type —
//! acting on a misread value would corrupt compositor state with no
//! recovery path, so such an event must never reach dispatch: the
//! dispatchers exclude those codes by `requires`, and the boundary that
//! receives raw backend events checks them and aborts on an unknown one
//! rather than guessing.

use vstd::prelude::*;

use crate::input::{known_button_code, known_key_code, Button, Key};
use crate::output::Output;
use crate::registry::{stale_in, Registry};
use crate::types::{
    button_state_from, key_state_from, touch_type_from, ButtonState, Geometry, KeyState,
    Modifiers, Point, ResizeEdge, ScrollAxis, Size, TouchType, ViewPropertyUpdate, ViewState,
};
use crate::userdata::UserData;
use crate::view::View;

verus! {

/// The per-process compositor state the callbacks operate on: the handle
/// registry and the user-data store of each entity kind.
///
/// `OD` and `VD` are the user-data payload types for outputs and views.
pub struct Context<OD, VD> {
    outputs: Registry,
    views: Registry,
    output_data: UserData<OD>,
    view_data: UserData<VD>,
}

impl<OD, VD> Context<OD, VD> {
    /// The handle registry for outputs.
    pub closed spec fn spec_outputs(self) -> Registry {
        self.outputs
    }

    /// The handle registry for views.
    pub closed spec fn spec_views(self) -> Registry {
        self.views
    }

    /// The user-data store for outputs.
    pub closed spec fn spec_output_data(self) -> UserData<OD> {
        self.output_data
    }

    /// The user-data store for views.
    pub closed spec fn spec_view_data(self) -> UserData<VD> {
        self.view_data
    }

    /// Every weak reference that is stale in this context is still stale
    /// in `post`, for both entity kinds: neither registry has resurrected
    /// a destroyed handle/token pair, and neither token horizon has moved
    /// backwards.  Every public context operation preserves this.
    pub open spec fn preserves_stale(self, post: Context<OD, VD>) -> bool {
        &&& self.spec_outputs().preserves_stale(post.spec_outputs())
        &&& self.spec_views().preserves_stale(post.spec_views())
    }

    /// Every component is well-formed.
    pub open spec fn wf(self) -> bool {
        &&& self.spec_outputs().wf()
        &&& self.spec_views().wf()
        &&& self.spec_output_data().wf()
        &&& self.spec_view_data().wf()
    }

    /// Creates a context with empty registries and empty user-data stores.
    pub fn new() -> (r: Context<OD, VD>)
        ensures
            r.wf(),
            r.spec_outputs().live() == Map::<u64, u64>::empty(),
            r.spec_views().live() == Map::<u64, u64>::empty(),
            forall|h: u64| !r.spec_output_data().contains(h),
            forall|h: u64| !r.spec_view_data().contains(h),
    {
        Context {
            outputs: Registry::new(),
            views: Registry::new(),
            output_data: UserData::new(),
            view_data: UserData::new(),
        }
    }

    /// Borrows the output registry.
    pub fn outputs(&self) -> (r: &Registry)
        ensures
            *r == self.spec_outputs(),
    {
        &self.outputs
    }

    /// Borrows the view registry.
    pub fn views(&self) -> (r: &Registry)
        ensures
            *r == self.spec_views(),
    {
        &self.views
    }

    /// Borrows the output user-data store.
    pub fn output_data(&self) -> (r: &UserData<OD>)
        ensures
            *r == self.spec_output_data(),
    {
        &self.output_data
    }

    /// Borrows the view user-data store.
    pub fn view_data(&self) -> (r: &UserData<VD>)
        ensures
            *r == self.spec_view_data(),
    {
        &self.view_data
    }

    /// Borrows the output registry for mutation.
    pub fn outputs_mut(&mut self) -> (r: &mut Registry)
        ensures
            *r == old(self).spec_outputs(),
            final(self).spec_outputs() == *final(r),
            final(self).spec_views() == old(self).spec_views(),
            final(self).spec_output_data() == old(self).spec_output_data(),
            final(self).spec_view_data() == old(self).spec_view_data(),
    {
        &mut self.outputs
    }

    /// Borrows the view registry for mutation.
    pub fn views_mut(&mut self) -> (r: &mut Registry)
        ensures
            *r == old(self).spec_views(),
            final(self).spec_views() == *final(r),
            final(self).spec_outputs() == old(self).spec_outputs(),
            final(self).spec_output_data() == old(self).spec_output_data(),
            final(self).spec_view_data() == old(self).spec_view_data(),
    {
        &mut self.views
    }

    /// Borrows the output user-data store for mutation.
    pub fn output_data_mut(&mut self) -> (r: &mut UserData<OD>)
        ensures
            *r == old(self).spec_output_data(),
            final(self).spec_output_data() == *final(r),
            final(self).spec_outputs() == old(self).spec_outputs(),
            final(self).spec_views() == old(self).spec_views(),
            final(self).spec_view_data() == old(self).spec_view_data(),
    {
        &mut self.output_data
    }

    /// Borrows the view user-data store for mutation.
    pub fn view_data_mut(&mut self) -> (r: &mut UserData<VD>)
        ensures
            *r == old(self).spec_view_data(),
            final(self).spec_view_data() == *final(r),
            final(self).spec_outputs() == old(self).spec_outputs(),
            final(self).spec_views() == old(self).spec_views(),
            final(self).spec_output_data() == old(self).spec_output_data(),
    {
        &mut self.view_data
    }
}

/// The callback interface the dispatcher calls into.
///
/// Implement this and hand the object to `init`.  Every method receives
/// the [`Context`] so that it can take weak references and reach the
/// user-data stores; every method must leave the context well-formed,
/// which every public context operation does.
///
/// The destruction handlers may rely on their handle already being gone
/// from the registry: a weak reference to the destroyed entity no longer
/// upgrades inside them.
pub trait Callback: Sized {
    /// The user-data payload type attached to outputs.
    type OutputData;

    /// The user-data payload type attached to views.
    type ViewData;

    /// An output was created.  Return `false` to reject the output, which
    /// tells the backend to dispose of it.  This is not necessarily the
    /// first event of a new output; no order is guaranteed.
    fn output_created(
        &mut self,
        ctx: &mut Context<Self::OutputData, Self::ViewData>,
        output: &Output,
    ) -> (accept: bool)
        requires
            old(ctx).wf(),
        ensures
            final(ctx).wf(),
            old(ctx).preserves_stale(*final(ctx)),
    {
        true
    }

    /// An output was destroyed.  Weak references to it already fail to
    /// upgrade; its user-data slot is cleared right after this returns.
    fn output_destroyed(
        &mut self,
        ctx: &mut Context<Self::OutputData, Self::ViewData>,
        output: &Output,
    )
        requires
            old(ctx).wf(),
            !old(ctx).spec_outputs().live().contains_key(output.id()),
        ensures
            final(ctx).wf(),
            old(ctx).preserves_stale(*final(ctx)),
    {
    }

    /// An output got or lost focus.
    fn output_focus(
        &mut self,
        ctx: &mut Context<Self::OutputData, Self::ViewData>,
        output: &Output,
        focus: bool,
    )
        requires
            old(ctx).wf(),
        ensures
            final(ctx).wf(),
            old(ctx).preserves_stale(*final(ctx)),
    {
    }

    /// An output's resolution changed.
    fn output_resolution(
        &mut self,
        ctx: &mut Context<Self::OutputData, Self::ViewData>,
        output: &Output,
        from: Size,
        to: Size,
    )
        requires
            old(ctx).wf(),
        ensures
            final(ctx).wf(),
            old(ctx).preserves_stale(*final(ctx)),
    {
    }

    /// An output is about to be rendered.
    fn output_render_pre(
        &mut self,
        ctx: &mut Context<Self::OutputData, Self::ViewData>,
        output: &Output,
    )
        requires
            old(ctx).wf(),
        ensures
            final(ctx).wf(),
            old(ctx).preserves_stale(*final(ctx)),
    {
    }

    /// An output finished rendering.
    fn output_render_post(
        &mut self,
        ctx: &mut Context<Self::OutputData, Self::ViewData>,
        output: &Output,
    )
        requires
            old(ctx).wf(),
        ensures
            final(ctx).wf(),
            old(ctx).preserves_stale(*final(ctx)),
    {
    }

    /// An output's rendering context was created; this happens on startup
    /// and when the current tty changes.
    fn output_context_created(
        &mut self,
        ctx: &mut Context<Self::OutputData, Self::ViewData>,
        output: &Output,
    )
        requires
            old(ctx).wf(),
        ensures
            final(ctx).wf(),
            old(ctx).preserves_stale(*final(ctx)),
    {
    }

    /// An output's rendering context was destroyed.
    fn output_context_destroyed(
        &mut self,
        ctx: &mut Context<Self::OutputData, Self::ViewData>,
        output: &Output,
    )
        requires
            old(ctx).wf(),
        ensures
            final(ctx).wf(),
            old(ctx).preserves_stale(*final(ctx)),
    {
    }

    /// A view was created.  Return `false` to reject the view, which tells
    /// the backend to dispose of it.  This is not necessarily the first
    /// event of a new view; no order is guaranteed.
    fn view_created(
        &mut self,
        ctx: &mut Context<Self::OutputData, Self::ViewData>,
        view: &View,
    ) -> (accept: bool)
        requires
            old(ctx).wf(),
        ensures
            final(ctx).wf(),
            old(ctx).preserves_stale(*final(ctx)),
    {
        true
    }

    /// A view was destroyed.  Weak references to it already fail to
    /// upgrade; its user-data slot is cleared right after this returns.
    fn view_destroyed(&mut self, ctx: &mut Context<Self::OutputData, Self::ViewData>, view: &View)
        requires
            old(ctx).wf(),
            !old(ctx).spec_views().live().contains_key(view.id()),
        ensures
            final(ctx).wf(),
            old(ctx).preserves_stale(*final(ctx)),
    {
    }

    /// A view got or lost focus.
    fn view_focus(
        &mut self,
        ctx: &mut Context<Self::OutputData, Self::ViewData>,
        view: &View,
        focus: bool,
    )
        requires
            old(ctx).wf(),
        ensures
            final(ctx).wf(),
            old(ctx).preserves_stale(*final(ctx)),
    {
    }

    /// A view was moved from one output to another.
    fn view_move_to_output(
        &mut self,
        ctx: &mut Context<Self::OutputData, Self::ViewData>,
        view: &View,
        from: &Output,
        to: &Output,
    )
        requires
            old(ctx).wf(),
        ensures
            final(ctx).wf(),
            old(ctx).preserves_stale(*final(ctx)),
    {
    }

    /// A view asks for the given geometry; apply it to agree.
    fn view_request_geometry(
        &mut self,
        ctx: &mut Context<Self::OutputData, Self::ViewData>,
        view: &View,
        geometry: Geometry,
    )
        requires
            old(ctx).wf(),
        ensures
            final(ctx).wf(),
            old(ctx).preserves_stale(*final(ctx)),
    {
    }

    /// A view asks to enable or disable the given state; apply it to
    /// agree.
    fn view_request_state(
        &mut self,
        ctx: &mut Context<Self::OutputData, Self::ViewData>,
        view: &View,
        state: ViewState,
        toggle: bool,
    )
        requires
            old(ctx).wf(),
        ensures
            final(ctx).wf(),
            old(ctx).preserves_stale(*final(ctx)),
    {
    }

    /// A view asks to be moved interactively; start the move to agree.
    fn view_request_move(
        &mut self,
        ctx: &mut Context<Self::OutputData, Self::ViewData>,
        view: &View,
        origin: Point,
    )
        requires
            old(ctx).wf(),
        ensures
            final(ctx).wf(),
            old(ctx).preserves_stale(*final(ctx)),
    {
    }

    /// A view asks to be resized interactively along the given edges;
    /// start the resize to agree.
    fn view_request_resize(
        &mut self,
        ctx: &mut Context<Self::OutputData, Self::ViewData>,
        view: &View,
        edges: ResizeEdge,
        origin: Point,
    )
        requires
            old(ctx).wf(),
        ensures
            final(ctx).wf(),
            old(ctx).preserves_stale(*final(ctx)),
    {
    }

    /// A view is about to be rendered.
    fn view_render_pre(&mut self, ctx: &mut Context<Self::OutputData, Self::ViewData>, view: &View)
        requires
            old(ctx).wf(),
        ensures
            final(ctx).wf(),
            old(ctx).preserves_stale(*final(ctx)),
    {
    }

    /// A view finished rendering.
    fn view_render_post(
        &mut self,
        ctx: &mut Context<Self::OutputData, Self::ViewData>,
        view: &View,
    )
        requires
            old(ctx).wf(),
        ensures
            final(ctx).wf(),
            old(ctx).preserves_stale(*final(ctx)),
    {
    }

    /// Properties of a view (title, class, application id, pid) changed.
    fn view_properties_updated(
        &mut self,
        ctx: &mut Context<Self::OutputData, Self::ViewData>,
        view: &View,
        mask: ViewPropertyUpdate,
    )
        requires
            old(ctx).wf(),
        ensures
            final(ctx).wf(),
            old(ctx).preserves_stale(*final(ctx)),
    {
    }

    /// A key event; `view` is `None` when no view has focus.  Return
    /// `true` to consume the event instead of forwarding it to clients.
    fn keyboard_key(
        &mut self,
        ctx: &mut Context<Self::OutputData, Self::ViewData>,
        view: Option<&View>,
        time: u32,
        modifiers: Modifiers,
        key: Key,
        state: KeyState,
    ) -> (handled: bool)
        requires
            old(ctx).wf(),
        ensures
            final(ctx).wf(),
            old(ctx).preserves_stale(*final(ctx)),
    {
        false
    }

    /// A pointer-button event; `view` is `None` when no view has focus.
    /// Return `true` to consume the event instead of forwarding it to
    /// clients.
    fn pointer_button(
        &mut self,
        ctx: &mut Context<Self::OutputData, Self::ViewData>,
        view: Option<&View>,
        time: u32,
        modifiers: Modifiers,
        button: Button,
        state: ButtonState,
        origin: Point,
    ) -> (handled: bool)
        requires
            old(ctx).wf(),
        ensures
            final(ctx).wf(),
            old(ctx).preserves_stale(*final(ctx)),
    {
        false
    }

    /// A scroll event; `view` is `None` when no view has focus.  The two
    /// amounts are the axis deltas as raw IEEE-754 bit patterns, handed
    /// through unchanged.  Return `true` to consume the event instead of
    /// forwarding it to clients.
    fn pointer_scroll(
        &mut self,
        ctx: &mut Context<Self::OutputData, Self::ViewData>,
        view: Option<&View>,
        time: u32,
        modifiers: Modifiers,
        axis: ScrollAxis,
        amount: [u64; 2],
    ) -> (handled: bool)
        requires
            old(ctx).wf(),
        ensures
            final(ctx).wf(),
            old(ctx).preserves_stale(*final(ctx)),
    {
        false
    }

    /// A pointer-motion event; `view` is `None` when no view has focus.
    /// Return `true` to consume the event instead of forwarding it to
    /// clients.
    fn pointer_motion(
        &mut self,
        ctx: &mut Context<Self::OutputData, Self::ViewData>,
        view: Option<&View>,
        time: u32,
        origin: Point,
    ) -> (handled: bool)
        requires
            old(ctx).wf(),
        ensures
            final(ctx).wf(),
            old(ctx).preserves_stale(*final(ctx)),
    {
        false
    }

    /// A touch event; `view` is `None` when no view has focus.  Return
    /// `true` to consume the event instead of forwarding it to clients.
    fn touch(
        &mut self,
        ctx: &mut Context<Self::OutputData, Self::ViewData>,
        view: Option<&View>,
        time: u32,
        modifiers: Modifiers,
        touch_type: TouchType,
        slot: i32,
        origin: Point,
    ) -> (handled: bool)
        requires
            old(ctx).wf(),
        ensures
            final(ctx).wf(),
            old(ctx).preserves_stale(*final(ctx)),
    {
        false
    }

    /// The compositor is ready to accept clients.
    fn compositor_ready(&mut self, ctx: &mut Context<Self::OutputData, Self::ViewData>)
        requires
            old(ctx).wf(),
        ensures
            final(ctx).wf(),
            old(ctx).preserves_stale(*final(ctx)),
    {
    }

    /// The compositor is about to terminate.
    fn compositor_terminate(&mut self, ctx: &mut Context<Self::OutputData, Self::ViewData>)
        requires
            old(ctx).wf(),
        ensures
            final(ctx).wf(),
            old(ctx).preserves_stale(*final(ctx)),
    {
    }
}

impl Callback for () {
    type OutputData = ();

    type ViewData = ();
}

/// Turns raw backend events into typed calls on the user's [`Callback`].
///
/// Owns the [`Context`] and the callback object; `init` creates one per
/// compositor.  The driver of the backend's run loop feeds each raw event
/// to the matching `dispatch_*` method.
pub struct Dispatcher<C: Callback> {
    context: Context<C::OutputData, C::ViewData>,
    callback: C,
}

impl<C: Callback> Dispatcher<C> {
    /// The compositor state the callbacks operate on.
    pub closed spec fn ctx(self) -> Context<C::OutputData, C::ViewData> {
        self.context
    }

    /// The installed callback object.
    pub closed spec fn cb(self) -> C {
        self.callback
    }

    /// The context is well-formed.
    pub open spec fn wf(self) -> bool {
        self.ctx().wf()
    }

    pub(crate) fn new(callback: C) -> (r: Dispatcher<C>)
        ensures
            r.wf(),
            r.cb() == callback,
            r.ctx().spec_outputs().live() == Map::<u64, u64>::empty(),
            r.ctx().spec_views().live() == Map::<u64, u64>::empty(),
            forall|h: u64| !r.ctx().spec_output_data().contains(h),
            forall|h: u64| !r.ctx().spec_view_data().contains(h),
    {
        Dispatcher { context: Context::new(), callback }
    }

    /// Borrows the compositor state, for use between events.
    pub fn context(&self) -> (r: &Context<C::OutputData, C::ViewData>)
        ensures
            *r == self.ctx(),
    {
        &self.context
    }

    /// Borrows the compositor state for mutation, for use between events.
    pub fn context_mut(&mut self) -> (r: &mut Context<C::OutputData, C::ViewData>)
        ensures
            *r == old(self).ctx(),
            final(self).ctx() == *final(r),
            final(self).cb() == old(self).cb(),
    {
        &mut self.context
    }

    /// Borrows the installed callback object.
    pub fn callback(&self) -> (r: &C)
        ensures
            *r == self.cb(),
    {
        &self.callback
    }

    /// Borrows the installed callback object for mutation.
    pub fn callback_mut(&mut self) -> (r: &mut C)
        ensures
            *r == old(self).cb(),
            final(self).cb() == *final(r),
            final(self).ctx() == old(self).ctx(),
    {
        &mut self.callback
    }

    /// Dispatches an output-creation event; the result is the callback's
    /// accept/reject answer, to be handed back to the backend unchanged.
    pub fn dispatch_output_created(&mut self, handle: u64) -> (accept: bool)
        requires
            old(self).wf(),
            handle != 0,
        ensures
            final(self).wf(),
            old(self).ctx().preserves_stale(final(self).ctx()),
    {
        let output = Output::from_handle(handle);
        self.callback.output_created(&mut self.context, &output)
    }

    /// Dispatches an output-destruction event.  In order: removes the
    /// handle from the output registry, so that weak references to it stop
    /// upgrading; notifies the callback; clears the output's user-data
    /// slot.  Every token issued for any handle up to this point is stale
    /// for this handle afterwards: no weak reference taken before the
    /// destruction upgrades again, whatever the handler did.
    pub fn dispatch_output_destroyed(&mut self, handle: u64)
        requires
            old(self).wf(),
            handle != 0,
        ensures
            final(self).wf(),
            old(self).ctx().preserves_stale(final(self).ctx()),
            !final(self).ctx().spec_output_data().contains(handle),
            forall|t: u64|
                t < old(self).ctx().spec_outputs().horizon() ==> stale_in(
                    final(self).ctx().spec_outputs().live(),
                    final(self).ctx().spec_outputs().horizon(),
                    handle,
                    t,
                ),
    {
        self.context.outputs.on_destroyed(handle);
        let output = Output::from_handle(handle);
        self.callback.output_destroyed(&mut self.context, &output);
        self.context.output_data.clear_user_data(handle);
    }

    /// Dispatches an output focus change.
    pub fn dispatch_output_focus(&mut self, handle: u64, focus: bool)
        requires
            old(self).wf(),
            handle != 0,
        ensures
            final(self).wf(),
            old(self).ctx().preserves_stale(final(self).ctx()),
    {
        let output = Output::from_handle(handle);
        self.callback.output_focus(&mut self.context, &output, focus)
    }

    /// Dispatches an output resolution change.
    pub fn dispatch_output_resolution(&mut self, handle: u64, from: Size, to: Size)
        requires
            old(self).wf(),
            handle != 0,
        ensures
            final(self).wf(),
            old(self).ctx().preserves_stale(final(self).ctx()),
    {
        let output = Output::from_handle(handle);
        self.callback.output_resolution(&mut self.context, &output, from, to)
    }

    /// Dispatches the pre-render hook of an output.
    pub fn dispatch_output_render_pre(&mut self, handle: u64)
        requires
            old(self).wf(),
            handle != 0,
        ensures
            final(self).wf(),
            old(self).ctx().preserves_stale(final(self).ctx()),
    {
        let output = Output::from_handle(handle);
        self.callback.output_render_pre(&mut self.context, &output)
    }

    /// Dispatches the post-render hook of an output.
    pub fn dispatch_output_render_post(&mut self, handle: u64)
        requires
            old(self).wf(),
            handle != 0,
        ensures
            final(self).wf(),
            old(self).ctx().preserves_stale(final(self).ctx()),
    {
        let output = Output::from_handle(handle);
        self.callback.output_render_post(&mut self.context, &output)
    }

    /// Dispatches the creation of an output's rendering context.
    pub fn dispatch_output_context_created(&mut self, handle: u64)
        requires
            old(self).wf(),
            handle != 0,
        ensures
            final(self).wf(),
            old(self).ctx().preserves_stale(final(self).ctx()),
    {
        let output = Output::from_handle(handle);
        self.callback.output_context_created(&mut self.context, &output)
    }

    /// Dispatches the destruction of an output's rendering context.
    pub fn dispatch_output_context_destroyed(&mut self, handle: u64)
        requires
            old(self).wf(),
            handle != 0,
        ensures
            final(self).wf(),
            old(self).ctx().preserves_stale(final(self).ctx()),
    {
        let output = Output::from_handle(handle);
        self.callback.output_context_destroyed(&mut self.context, &output)
    }

    /// Dispatches a view-creation event; the result is the callback's
    /// accept/reject answer, to be handed back to the backend unchanged.
    pub fn dispatch_view_created(&mut self, handle: u64) -> (accept: bool)
        requires
            old(self).wf(),
            handle != 0,
        ensures
            final(self).wf(),
            old(self).ctx().preserves_stale(final(self).ctx()),
    {
        let view = View::from_handle(handle);
        self.callback.view_created(&mut self.context, &view)
    }

    /// Dispatches a view-destruction event.  In order: removes the handle
    /// from the view registry, so that weak references to it stop
    /// upgrading; notifies the callback; clears the view's user-data slot.
    /// Every token issued for any handle up to this point is stale for
    /// this handle afterwards: no weak reference taken before the
    /// destruction upgrades again, whatever the handler did.
    pub fn dispatch_view_destroyed(&mut self, handle: u64)
        requires
            old(self).wf(),
            handle != 0,
        ensures
            final(self).wf(),
            old(self).ctx().preserves_stale(final(self).ctx()),
            !final(self).ctx().spec_view_data().contains(handle),
            forall|t: u64|
                t < old(self).ctx().spec_views().horizon() ==> stale_in(
                    final(self).ctx().spec_views().live(),
                    final(self).ctx().spec_views().horizon(),
                    handle,
                    t,
                ),
    {
        self.context.views.on_destroyed(handle);
        let view = View::from_handle(handle);
        self.callback.view_destroyed(&mut self.context, &view);
        self.context.view_data.clear_user_data(handle);
    }

    /// Dispatches a view focus change.
    pub fn dispatch_view_focus(&mut self, handle: u64, focus: bool)
        requires
            old(self).wf(),
            handle != 0,
        ensures
            final(self).wf(),
            old(self).ctx().preserves_stale(final(self).ctx()),
    {
        let view = View::from_handle(handle);
        self.callback.view_focus(&mut self.context, &view, focus)
    }

    /// Dispatches a move of a view between outputs.
    pub fn dispatch_view_move_to_output(&mut self, handle: u64, from: u64, to: u64)
        requires
            old(self).wf(),
            handle != 0,
            from != 0,
            to != 0,
        ensures
            final(self).wf(),
            old(self).ctx().preserves_stale(final(self).ctx()),
    {
        let view = View::from_handle(handle);
        let from_output = Output::from_handle(from);
        let to_output = Output::from_handle(to);
        self.callback.view_move_to_output(&mut self.context, &view, &from_output, &to_output)
    }

    /// Dispatches a view's geometry request.
    pub fn dispatch_view_request_geometry(&mut self, handle: u64, geometry: Geometry)
        requires
            old(self).wf(),
            handle != 0,
        ensures
            final(self).wf(),
            old(self).ctx().preserves_stale(final(self).ctx()),
    {
        let view = View::from_handle(handle);
        self.callback.view_request_geometry(&mut self.context, &view, geometry)
    }

    /// Dispatches a view's state-toggle request.  Bits outside the known
    /// state vocabulary are dropped from the mask.
    pub fn dispatch_view_request_state(&mut self, handle: u64, state_bits: u32, toggle: bool)
        requires
            old(self).wf(),
            handle != 0,
        ensures
            final(self).wf(),
            old(self).ctx().preserves_stale(final(self).ctx()),
    {
        let view = View::from_handle(handle);
        let state = ViewState::from_bits_truncate(state_bits);
        self.callback.view_request_state(&mut self.context, &view, state, toggle)
    }

    /// Dispatches a view's interactive-move request.
    pub fn dispatch_view_request_move(&mut self, handle: u64, origin: Point)
        requires
            old(self).wf(),
            handle != 0,
        ensures
            final(self).wf(),
            old(self).ctx().preserves_stale(final(self).ctx()),
    {
        let view = View::from_handle(handle);
        self.callback.view_request_move(&mut self.context, &view, origin)
    }

    /// Dispatches a view's interactive-resize request.  Bits outside the
    /// known edge vocabulary are dropped from the mask.
    pub fn dispatch_view_request_resize(&mut self, handle: u64, edge_bits: u32, origin: Point)
        requires
            old(self).wf(),
            handle != 0,
        ensures
            final(self).wf(),
            old(self).ctx().preserves_stale(final(self).ctx()),
    {
        let view = View::from_handle(handle);
        let edges = ResizeEdge::from_bits_truncate(edge_bits);
        self.callback.view_request_resize(&mut self.context, &view, edges, origin)
    }

    /// Dispatches the pre-render hook of a view.
    pub fn dispatch_view_render_pre(&mut self, handle: u64)
        requires
            old(self).wf(),
            handle != 0,
        ensures
            final(self).wf(),
            old(self).ctx().preserves_stale(final(self).ctx()),
    {
        let view = View::from_handle(handle);
        self.callback.view_render_pre(&mut self.context, &view)
    }

    /// Dispatches the post-render hook of a view.
    pub fn dispatch_view_render_post(&mut self, handle: u64)
        requires
            old(self).wf(),
            handle != 0,
        ensures
            final(self).wf(),
            old(self).ctx().preserves_stale(final(self).ctx()),
    {
        let view = View::from_handle(handle);
        self.callback.view_render_post(&mut self.context, &view)
    }

    /// Dispatches a view's property update.  Bits outside the known
    /// property vocabulary are dropped from the mask.
    pub fn dispatch_view_properties_updated(&mut self, handle: u64, mask_bits: u32)
        requires
            old(self).wf(),
            handle != 0,
        ensures
            final(self).wf(),
            old(self).ctx().preserves_stale(final(self).ctx()),
    {
        let view = View::from_handle(handle);
        let mask = ViewPropertyUpdate::from_bits_truncate(mask_bits);
        self.callback.view_properties_updated(&mut self.context, &view, mask)
    }

    /// Dispatches a key event.  `handle` is zero when no view has focus.
    ///
    /// A key code outside the known vocabulary drops the event: the
    /// callback is not consulted and the event reports "not handled".  An
    /// unknown key-state code of a known key is fatal: it is excluded by
    /// precondition, and the boundary that receives raw backend events
    /// must check it and abort rather than guess.  Otherwise the result
    /// is the callback's consume answer, handed back to the backend
    /// unchanged.
    pub fn dispatch_keyboard_key(
        &mut self,
        handle: u64,
        time: u32,
        leds: u32,
        mods: u32,
        key: u32,
        state: u32,
    ) -> (handled: bool)
        requires
            old(self).wf(),
            known_key_code(key) ==> key_state_from(state) is Some,
        ensures
            final(self).wf(),
            old(self).ctx().preserves_stale(final(self).ctx()),
            !known_key_code(key) ==> handled == false,
    {
        match Key::from_u32(key) {
            None => false,
            Some(key) => match KeyState::from_u32(state) {
                None => vstd::pervasive::unreached(),
                Some(key_state) => {
                    let modifiers = Modifiers::from_raw(leds, mods);
                    if handle == 0 {
                        self.callback.keyboard_key(
                            &mut self.context,
                            None,
                            time,
                            modifiers,
                            key,
                            key_state,
                        )
                    } else {
                        let view = View::from_handle(handle);
                        self.callback.keyboard_key(
                            &mut self.context,
                            Some(&view),
                            time,
                            modifiers,
                            key,
                            key_state,
                        )
                    }
                }
            },
        }
    }

    /// Dispatches a pointer-button event.  `handle` is zero when no view
    /// has focus.
    ///
    /// A button code outside the known vocabulary drops the event: the
    /// callback is not consulted and the event reports "not handled".  An
    /// unknown button-state code of a known button is fatal: it is
    /// excluded by precondition, and the boundary that receives raw
    /// backend events must check it and abort rather than guess.
    /// Otherwise the result is the callback's consume answer, handed back
    /// to the backend unchanged.
    pub fn dispatch_pointer_button(
        &mut self,
        handle: u64,
        time: u32,
        leds: u32,
        mods: u32,
        button: u32,
        state: u32,
        origin: Point,
    ) -> (handled: bool)
        requires
            old(self).wf(),
            known_button_code(button) ==> button_state_from(state) is Some,
        ensures
            final(self).wf(),
            old(self).ctx().preserves_stale(final(self).ctx()),
            !known_button_code(button) ==> handled == false,
    {
        match Button::from_u32(button) {
            None => false,
            Some(button) => match ButtonState::from_u32(state) {
                None => vstd::pervasive::unreached(),
                Some(button_state) => {
                    let modifiers = Modifiers::from_raw(leds, mods);
                    if handle == 0 {
                        self.callback.pointer_button(
                            &mut self.context,
                            None,
                            time,
                            modifiers,
                            button,
                            button_state,
                            origin,
                        )
                    } else {
                        let view = View::from_handle(handle);
                        self.callback.pointer_button(
                            &mut self.context,
                            Some(&view),
                            time,
                            modifiers,
                            button,
                            button_state,
                            origin,
                        )
                    }
                }
            },
        }
    }

    /// Dispatches a scroll event.  `handle` is zero when no view has
    /// focus.  The two amounts are the axis deltas as raw IEEE-754 bit
    /// patterns, handed through unchanged; axis bits outside the known
    /// vocabulary are dropped from the mask.  The result is the callback's
    /// consume answer.
    pub fn dispatch_pointer_scroll(
        &mut self,
        handle: u64,
        time: u32,
        leds: u32,
        mods: u32,
        axis_bits: u8,
        amount: [u64; 2],
    ) -> (handled: bool)
        requires
            old(self).wf(),
        ensures
            final(self).wf(),
            old(self).ctx().preserves_stale(final(self).ctx()),
    {
        let modifiers = Modifiers::from_raw(leds, mods);
        let axis = ScrollAxis::from_bits_truncate(axis_bits);
        if handle == 0 {
            self.callback.pointer_scroll(&mut self.context, None, time, modifiers, axis, amount)
        } else {
            let view = View::from_handle(handle);
            self.callback.pointer_scroll(
                &mut self.context,
                Some(&view),
                time,
                modifiers,
                axis,
                amount,
            )
        }
    }

    /// Dispatches a pointer-motion event.  `handle` is zero when no view
    /// has focus.  The result is the callback's consume answer.
    pub fn dispatch_pointer_motion(&mut self, handle: u64, time: u32, origin: Point) -> (handled:
        bool)
        requires
            old(self).wf(),
        ensures
            final(self).wf(),
            old(self).ctx().preserves_stale(final(self).ctx()),
    {
        if handle == 0 {
            self.callback.pointer_motion(&mut self.context, None, time, origin)
        } else {
            let view = View::from_handle(handle);
            self.callback.pointer_motion(&mut self.context, Some(&view), time, origin)
        }
    }

    /// Dispatches a touch event.  `handle` is zero when no view has
    /// focus.
    ///
    /// An unknown touch-type code is fatal: it is excluded by
    /// precondition, and the boundary that receives raw backend events
    /// must check it and abort rather than guess.  The result is the
    /// callback's consume answer, handed back to the backend unchanged.
    pub fn dispatch_touch(
        &mut self,
        handle: u64,
        time: u32,
        leds: u32,
        mods: u32,
        touch_type: u32,
        slot: i32,
        origin: Point,
    ) -> (handled: bool)
        requires
            old(self).wf(),
            touch_type_from(touch_type) is Some,
        ensures
            final(self).wf(),
            old(self).ctx().preserves_stale(final(self).ctx()),
    {
        match TouchType::from_u32(touch_type) {
            None => vstd::pervasive::unreached(),
            Some(touch) => {
                let modifiers = Modifiers::from_raw(leds, mods);
                if handle == 0 {
                    self.callback.touch(
                        &mut self.context,
                        None,
                        time,
                        modifiers,
                        touch,
                        slot,
                        origin,
                    )
                } else {
                    let view = View::from_handle(handle);
                    self.callback.touch(
                        &mut self.context,
                        Some(&view),
                        time,
                        modifiers,
                        touch,
                        slot,
                        origin,
                    )
                }
            }
        }
    }

    /// Dispatches the compositor-ready event.
    pub fn dispatch_compositor_ready(&mut self)
        requires
            old(self).wf(),
        ensures
            final(self).wf(),
            old(self).ctx().preserves_stale(final(self).ctx()),
    {
        self.callback.compositor_ready(&mut self.context)
    }

    /// Dispatches the compositor-terminate event.
    pub fn dispatch_compositor_terminate(&mut self)
        requires
            old(self).wf(),
        ensures
            final(self).wf(),
            old(self).ctx().preserves_stale(final(self).ctx()),
    {
        self.callback.compositor_terminate(&mut self.context)
    }
}

} // verus!
