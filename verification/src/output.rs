//! Output entities: transient references and long-lived weak references.

use vstd::prelude::*;

use crate::registry::{resolves_in, step_map, step_next, Registry, RegistryOp};
use crate::userdata::Handle;

verus! {

/// A transient reference to an output managed by the backend.
///
/// An `Output` stands for a live entity only for the duration of the
/// callback invocation that produced it; it must not be stored.  To retain
/// an output past a callback, take a [`WeakOutput`] with
/// [`Output::weak_reference`] and go through [`WeakOutput::run`].
#[derive(Debug, Hash)]
pub struct Output {
    handle: u64,
}

impl Output {
    /// The numeric handle the backend assigned to this output.
    pub closed spec fn id(self) -> u64 {
        self.handle
    }

    /// Wraps a raw backend handle.  Zero is the reserved sentinel for "no
    /// entity" and never denotes an output.
    pub fn from_handle(handle: u64) -> (r: Output)
        requires
            handle != 0,
        ensures
            r.id() == handle,
    {
        Output { handle }
    }

    /// Returns the raw backend handle.
    pub fn handle(&self) -> (h: u64)
        ensures
            h == self.id(),
    {
        self.handle
    }

    /// Obtains a weak reference to this output that may outlive it.
    ///
    /// Looks the handle up in `registry`, inserting a fresh liveness token
    /// if the handle has none yet, and captures the handle together with
    /// that token.  The returned reference resolves immediately and keeps
    /// resolving exactly until the registry is told of this handle's
    /// destruction.
    pub fn weak_reference(&self, registry: &mut Registry) -> (w: WeakOutput)
        requires
            old(registry).wf(),
            old(registry).can_acquire(self.id()),
        ensures
            final(registry).wf(),
            old(registry).preserves_stale(*final(registry)),
            w.id() == self.id(),
            w.token() == old(registry).token_for(self.id()),
            resolves_in(final(registry).live(), w.id(), w.token()),
            final(registry).live() == step_map(
                old(registry).live(),
                old(registry).horizon(),
                (RegistryOp::Acquire { handle: self.id() }),
            ),
            final(registry).horizon() == step_next(
                old(registry).live(),
                old(registry).horizon(),
                (RegistryOp::Acquire { handle: self.id() }),
            ),
    {
        let token = registry.acquire(self.handle);
        WeakOutput { handle: self.handle, token }
    }
}

/// A long-lived weak reference to an output.
///
/// Obtained from [`Output::weak_reference`]; holds a copy of the handle and
/// the liveness token issued for it.  It upgrades exactly while the
/// registry still maps the handle to that token.
#[derive(Clone, Copy, Debug)]
pub struct WeakOutput {
    handle: u64,
    token: u64,
}

impl WeakOutput {
    /// The captured backend handle.
    pub closed spec fn id(self) -> u64 {
        self.handle
    }

    /// The liveness token this reference was issued with.
    pub closed spec fn token(self) -> u64 {
        self.token
    }

    /// Upgrades this weak reference to an output reference.
    ///
    /// Succeeds if and only if the liveness token is still registered for
    /// the captured handle, i.e. the output's destruction has not been
    /// dispatched.  The returned reference is only known to be valid until
    /// further events run; prefer [`WeakOutput::run`], which bounds its use
    /// to a single scope.
    pub fn upgrade(&self, registry: &Registry) -> (r: Option<Output>)
        ensures
            r.is_some() <==> resolves_in(registry.live(), self.id(), self.token()),
            r matches Some(o) ==> o.id() == self.id(),
    {
        if registry.resolves(self.handle, self.token) {
            Some(Output { handle: self.handle })
        } else {
            None
        }
    }

    /// Runs `f` on the referenced output if it is still live, returning the
    /// result of the call, and returns `None` without calling `f` if the
    /// reference has gone stale.  This is the sanctioned way to act on a
    /// weak reference: the output reference handed to `f` cannot escape the
    /// call that proved it live.
    pub fn run<R, F: FnOnce(&Output) -> R>(&self, registry: &Registry, f: F) -> (r: Option<R>)
        requires
            forall|o: Output| o.id() == self.id() ==> call_requires(f, (&o,)),
        ensures
            r.is_some() <==> resolves_in(registry.live(), self.id(), self.token()),
            r matches Some(x) ==> exists|o: Output|
                o.id() == self.id() && call_ensures(f, (&o,), x),
    {
        match self.upgrade(registry) {
            Some(output) => Some(f(&output)),
            None => None,
        }
    }
}

impl Handle for Output {
    open spec fn entity_id(&self) -> u64 {
        self.id()
    }

    fn handle(&self) -> u64 {
        self.handle
    }
}

impl PartialEq for Output {
    /// Outputs compare equal exactly when they refer to the same handle.
    fn eq(&self, other: &Output) -> bool {
        self.handle == other.handle
    }
}

impl Eq for Output {}

impl vstd::std_specs::cmp::PartialEqSpecImpl for Output {
    open spec fn obeys_eq_spec() -> bool {
        true
    }

    open spec fn eq_spec(&self, other: &Output) -> bool {
        self.id() == other.id()
    }
}

impl PartialEq for WeakOutput {
    /// Weak references compare equal exactly when they capture the same
    /// handle, even if they were obtained independently.
    fn eq(&self, other: &WeakOutput) -> bool {
        self.handle == other.handle
    }
}

impl Eq for WeakOutput {}

impl vstd::std_specs::cmp::PartialEqSpecImpl for WeakOutput {
    open spec fn obeys_eq_spec() -> bool {
        true
    }

    open spec fn eq_spec(&self, other: &WeakOutput) -> bool {
        self.id() == other.id()
    }
}

impl PartialEq<WeakOutput> for Output {
    /// An output and a weak reference compare equal exactly when they refer
    /// to the same handle.
    fn eq(&self, other: &WeakOutput) -> bool {
        self.handle == other.handle
    }
}

impl vstd::std_specs::cmp::PartialEqSpecImpl<WeakOutput> for Output {
    open spec fn obeys_eq_spec() -> bool {
        true
    }

    open spec fn eq_spec(&self, other: &WeakOutput) -> bool {
        self.id() == other.id()
    }
}

impl PartialEq<Output> for WeakOutput {
    /// A weak reference and an output compare equal exactly when they refer
    /// to the same handle.
    fn eq(&self, other: &Output) -> bool {
        self.handle == other.handle
    }
}

impl vstd::std_specs::cmp::PartialEqSpecImpl<Output> for WeakOutput {
    open spec fn obeys_eq_spec() -> bool {
        true
    }

    open spec fn eq_spec(&self, other: &Output) -> bool {
        self.id() == other.id()
    }
}

} // verus!
