//! View entities: transient references, weak references, and positioners.

use vstd::prelude::*;

use crate::registry::{resolves_in, step_map, step_next, Registry, RegistryOp};
use crate::userdata::Handle;

verus! {

/// A transient reference to a view managed by the backend.
///
/// A `View` stands for a live entity only for the duration of the callback
/// invocation that produced it; it must not be stored.  To retain a view
/// past a callback, take a [`WeakView`] with [`View::weak_reference`] and
/// go through [`WeakView::run`].
#[derive(Debug, Hash)]
pub struct View {
    handle: u64,
}

impl View {
    /// The numeric handle the backend assigned to this view.
    pub closed spec fn id(self) -> u64 {
        self.handle
    }

    /// Wraps a raw backend handle.  Zero is the reserved sentinel for "no
    /// entity" and never denotes a view.
    pub fn from_handle(handle: u64) -> (r: View)
        requires
            handle != 0,
        ensures
            r.id() == handle,
    {
        View { handle }
    }

    /// Returns the raw backend handle.
    pub fn handle(&self) -> (h: u64)
        ensures
            h == self.id(),
    {
        self.handle
    }

    /// Obtains a weak reference to this view that may outlive it.
    ///
    /// Looks the handle up in `registry`, inserting a fresh liveness token
    /// if the handle has none yet, and captures the handle together with
    /// that token.  The returned reference resolves immediately and keeps
    /// resolving exactly until the registry is told of this handle's
    /// destruction.
    pub fn weak_reference(&self, registry: &mut Registry) -> (w: WeakView)
        requires
            old(registry).wf(),
            old(registry).can_acquire(self.id()),
        ensures
            final(registry).wf(),
            old(registry).preserves_stale(*final(registry)),
            w.id() == self.id(),
            w.token() == old(registry).token_for(self.id()),
            resolves_in(final(registry).live(), w.id(), w.token()),
            final(registry).live() == step_map(
                old(registry).live(),
                old(registry).horizon(),
                (RegistryOp::Acquire { handle: self.id() }),
            ),
            final(registry).horizon() == step_next(
                old(registry).live(),
                old(registry).horizon(),
                (RegistryOp::Acquire { handle: self.id() }),
            ),
    {
        let token = registry.acquire(self.handle);
        WeakView { handle: self.handle, token }
    }
}

/// A long-lived weak reference to a view.
///
/// Obtained from [`View::weak_reference`]; holds a copy of the handle and
/// the liveness token issued for it.  It upgrades exactly while the
/// registry still maps the handle to that token.
#[derive(Clone, Copy, Debug)]
pub struct WeakView {
    handle: u64,
    token: u64,
}

impl WeakView {
    /// The captured backend handle.
    pub closed spec fn id(self) -> u64 {
        self.handle
    }

    /// The liveness token this reference was issued with.
    pub closed spec fn token(self) -> u64 {
        self.token
    }

    /// Upgrades this weak reference to a view reference.
    ///
    /// Succeeds if and only if the liveness token is still registered for
    /// the captured handle, i.e. the view's destruction has not been
    /// dispatched.  The returned reference is only known to be valid until
    /// further events run; prefer [`WeakView::run`], which bounds its use
    /// to a single scope.
    pub fn upgrade(&self, registry: &Registry) -> (r: Option<View>)
        ensures
            r.is_some() <==> resolves_in(registry.live(), self.id(), self.token()),
            r matches Some(v) ==> v.id() == self.id(),
    {
        if registry.resolves(self.handle, self.token) {
            Some(View { handle: self.handle })
        } else {
            None
        }
    }

    /// Runs `f` on the referenced view if it is still live, returning the
    /// result of the call, and returns `None` without calling `f` if the
    /// reference has gone stale.  This is the sanctioned way to act on a
    /// weak reference: the view reference handed to `f` cannot escape the
    /// call that proved it live.
    pub fn run<R, F: FnOnce(&View) -> R>(&self, registry: &Registry, f: F) -> (r: Option<R>)
        requires
            forall|v: View| v.id() == self.id() ==> call_requires(f, (&v,)),
        ensures
            r.is_some() <==> resolves_in(registry.live(), self.id(), self.token()),
            r matches Some(x) ==> exists|v: View| v.id() == self.id() && call_ensures(f, (&v,), x),
    {
        match self.upgrade(registry) {
            Some(view) => Some(f(&view)),
            None => None,
        }
    }
}

/// A collection of placement rules for a child view relative to its parent.
///
/// The backend attaches a positioner to some views; which rules it holds
/// (anchor, gravity, constraint adjustment, offset, size) is the backend's
/// business and read back through it.  This layer only carries the handle
/// of the view the positioner belongs to.
#[derive(Debug, Hash)]
pub struct Positioner {
    handle: u64,
}

impl Positioner {
    /// The handle of the view this positioner belongs to.
    pub closed spec fn id(self) -> u64 {
        self.handle
    }

    /// Wraps the raw handle of the view the positioner belongs to.
    pub fn from_handle(handle: u64) -> (r: Positioner)
        requires
            handle != 0,
        ensures
            r.id() == handle,
    {
        Positioner { handle }
    }

    /// Returns the raw handle of the view this positioner belongs to.
    pub fn handle(&self) -> (h: u64)
        ensures
            h == self.id(),
    {
        self.handle
    }
}

impl Handle for View {
    open spec fn entity_id(&self) -> u64 {
        self.id()
    }

    fn handle(&self) -> u64 {
        self.handle
    }
}

impl PartialEq for View {
    /// Views compare equal exactly when they refer to the same handle.
    fn eq(&self, other: &View) -> bool {
        self.handle == other.handle
    }
}

impl Eq for View {}

impl vstd::std_specs::cmp::PartialEqSpecImpl for View {
    open spec fn obeys_eq_spec() -> bool {
        true
    }

    open spec fn eq_spec(&self, other: &View) -> bool {
        self.id() == other.id()
    }
}

impl PartialEq for WeakView {
    /// Weak references compare equal exactly when they capture the same
    /// handle, even if they were obtained independently.
    fn eq(&self, other: &WeakView) -> bool {
        self.handle == other.handle
    }
}

impl Eq for WeakView {}

impl vstd::std_specs::cmp::PartialEqSpecImpl for WeakView {
    open spec fn obeys_eq_spec() -> bool {
        true
    }

    open spec fn eq_spec(&self, other: &WeakView) -> bool {
        self.id() == other.id()
    }
}

impl PartialEq<WeakView> for View {
    /// A view and a weak reference compare equal exactly when they refer to
    /// the same handle.
    fn eq(&self, other: &WeakView) -> bool {
        self.handle == other.handle
    }
}

impl vstd::std_specs::cmp::PartialEqSpecImpl<WeakView> for View {
    open spec fn obeys_eq_spec() -> bool {
        true
    }

    open spec fn eq_spec(&self, other: &WeakView) -> bool {
        self.id() == other.id()
    }
}

impl PartialEq<View> for WeakView {
    /// A weak reference and a view compare equal exactly when they refer to
    /// the same handle.
    fn eq(&self, other: &View) -> bool {
        self.handle == other.handle
    }
}

impl vstd::std_specs::cmp::PartialEqSpecImpl<View> for WeakView {
    open spec fn obeys_eq_spec() -> bool {
        true
    }

    open spec fn eq_spec(&self, other: &View) -> bool {
        self.id() == other.id()
    }
}

} // verus!
