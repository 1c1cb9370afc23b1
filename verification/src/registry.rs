//! Process-wide mapping from an entity handle to its liveness token.
//!
//! A token is created lazily the first time a weak reference to a handle is
//! requested and removed when the backend reports destruction of that
//! handle.  A weak reference captures the token it was issued with; it can
//! be upgraded exactly while the registry still maps its handle to that
//! token.  Tokens are never reissued, so a weak reference that has once gone
//! stale stays stale even if the backend later reuses the numeric handle.

use vstd::prelude::*;

verus! {

use std::collections::HashMap;

/// A request made of a registry: either a weak-reference acquisition or a
/// destruction notification.
pub enum RegistryOp {
    /// A weak reference to `handle` is requested.
    Acquire { handle: u64 },
    /// The backend reported destruction of `handle`.
    Destroy { handle: u64 },
}

/// Whether the mapping `m` lets a weak reference carrying `(handle, token)`
/// upgrade.
pub open spec fn resolves_in(m: Map<u64, u64>, handle: u64, token: u64) -> bool {
    m.contains_key(handle) && m[handle] == token
}

/// A weak reference carrying `(handle, token)` is stale in a registry state
/// with mapping `m` and next fresh token `next`: its token was issued in the
/// past and no longer resolves.
pub open spec fn stale_in(m: Map<u64, u64>, next: u64, handle: u64, token: u64) -> bool {
    token < next && !resolves_in(m, handle, token)
}

/// The mapping a registry holds after serving `op`.
pub open spec fn step_map(m: Map<u64, u64>, next: u64, op: RegistryOp) -> Map<u64, u64> {
    match op {
        RegistryOp::Acquire { handle } => if m.contains_key(handle) {
            m
        } else {
            m.insert(handle, next)
        },
        RegistryOp::Destroy { handle } => m.remove(handle),
    }
}

/// The next fresh token after serving `op`.
pub open spec fn step_next(m: Map<u64, u64>, next: u64, op: RegistryOp) -> u64 {
    match op {
        RegistryOp::Acquire { handle } => if m.contains_key(handle) {
            next
        } else {
            (next + 1) as u64
        },
        RegistryOp::Destroy { handle: _ } => next,
    }
}

/// Whether `op` can be served in this state without exhausting the token
/// space.
pub open spec fn step_ok(m: Map<u64, u64>, next: u64, op: RegistryOp) -> bool {
    op matches RegistryOp::Acquire { .. } ==> next < u64::MAX
}

/// The registry state after serving every operation of `ops` in order.
pub open spec fn run_steps(m: Map<u64, u64>, next: u64, ops: Seq<RegistryOp>) -> (
    Map<u64, u64>,
    u64,
)
    decreases ops.len(),
{
    if ops.len() == 0 {
        (m, next)
    } else {
        run_steps(step_map(m, next, ops[0]), step_next(m, next, ops[0]), ops.drop_first())
    }
}

/// Whether every operation of `ops`, served in order, finds token space.
pub open spec fn steps_ok(m: Map<u64, u64>, next: u64, ops: Seq<RegistryOp>) -> bool
    decreases ops.len(),
{
    ops.len() == 0 || (step_ok(m, next, ops[0]) && steps_ok(
        step_map(m, next, ops[0]),
        step_next(m, next, ops[0]),
        ops.drop_first(),
    ))
}

/// One registry instance exists per handle-bearing entity kind (one for
/// outputs, one for views).  It maps each handle that currently has live
/// weak references to the liveness token those references share.
pub struct Registry {
    entries: HashMap<u64, u64>,
    next_token: u64,
}

impl Registry {
    /// The current handle-to-token mapping.
    pub closed spec fn live(self) -> Map<u64, u64> {
        self.entries@
    }

    /// All tokens issued so far lie strictly below this bound; the next
    /// fresh token is exactly this value.
    pub closed spec fn horizon(self) -> u64 {
        self.next_token
    }

    /// Every registered token lies below the horizon.
    pub open spec fn wf(self) -> bool {
        forall|h: u64| #[trigger]
            self.live().contains_key(h) ==> self.live()[h] < self.horizon()
    }

    /// A fresh token can still be issued.
    pub open spec fn can_issue(self) -> bool {
        self.horizon() < u64::MAX
    }

    /// `acquire(handle)` can be served: either the handle is already
    /// registered, in which case no token is issued, or a fresh token can
    /// still be issued.
    pub open spec fn can_acquire(self, handle: u64) -> bool {
        self.live().contains_key(handle) || self.can_issue()
    }

    /// Every weak reference that is stale in this state is still stale in
    /// `post`, and the token horizon has not moved backwards.  Every
    /// registry operation preserves this, so it holds across any sequence
    /// of them.
    pub open spec fn preserves_stale(self, post: Registry) -> bool {
        &&& post.horizon() >= self.horizon()
        &&& forall|h: u64, t: u64|
            stale_in(self.live(), self.horizon(), h, t) ==> stale_in(
                post.live(),
                post.horizon(),
                h,
                t,
            )
    }

    /// The token `acquire` hands out for `handle` in this state.
    pub open spec fn token_for(self, handle: u64) -> u64 {
        if self.live().contains_key(handle) {
            self.live()[handle]
        } else {
            self.horizon()
        }
    }

    /// Creates an empty registry.
    pub fn new() -> (r: Registry)
        ensures
            r.live() == Map::<u64, u64>::empty(),
            r.horizon() == 1u64,
            r.wf(),
    {
        Registry { entries: HashMap::new(), next_token: 1 }
    }

    /// Looks up the liveness token for `handle`, inserting a fresh one if
    /// the handle has none yet.  This is the registry half of
    /// `weak_reference`; it never fails.
    pub fn acquire(&mut self, handle: u64) -> (token: u64)
        requires
            old(self).wf(),
            old(self).can_acquire(handle),
        ensures
            final(self).wf(),
            old(self).preserves_stale(*final(self)),
            token == old(self).token_for(handle),
            token < final(self).horizon(),
            final(self).live() == old(self).live().insert(handle, token),
            old(self).live().contains_key(handle) ==> final(self).horizon() == old(self).horizon(),
            !old(self).live().contains_key(handle) ==> final(self).horizon() == old(self).horizon()
                + 1,
            final(self).live() == step_map(
                old(self).live(),
                old(self).horizon(),
                (RegistryOp::Acquire { handle }),
            ),
            final(self).horizon() == step_next(
                old(self).live(),
                old(self).horizon(),
                (RegistryOp::Acquire { handle }),
            ),
    {
        match self.entries.get(&handle) {
            Some(token) => {
                let token = *token;
                proof {
                    assert(self.live() =~= old(self).live().insert(handle, token));
                }
                token
            }
            None => {
                let token = self.next_token;
                self.entries.insert(handle, token);
                self.next_token = self.next_token + 1;
                proof {
                    assert forall|h: u64| #[trigger]
                        self.live().contains_key(h) implies self.live()[h]
                        < self.horizon() by {
                        if h != handle {
                            assert(old(self).live().contains_key(h));
                        }
                    }
                }
                token
            }
        }
    }

    /// Removes the registry entry for `handle`, if present, so that every
    /// outstanding weak reference to that handle fails to upgrade from now
    /// on.  Called by the dispatcher when the backend reports destruction,
    /// strictly before the user-facing destruction notification fires.
    pub fn on_destroyed(&mut self, handle: u64)
        requires
            old(self).wf(),
        ensures
            final(self).wf(),
            old(self).preserves_stale(*final(self)),
            final(self).live() == old(self).live().remove(handle),
            final(self).horizon() == old(self).horizon(),
            final(self).live() == step_map(
                old(self).live(),
                old(self).horizon(),
                (RegistryOp::Destroy { handle }),
            ),
            forall|token: u64|
                token < old(self).horizon() ==> stale_in(
                    final(self).live(),
                    final(self).horizon(),
                    handle,
                    token,
                ),
    {
        self.entries.remove(&handle);
        proof {
            assert(self.live() == old(self).live().remove(handle));
        }
    }

    /// Whether `handle` is currently mapped to `token`, i.e. whether a weak
    /// reference carrying this pair would upgrade.
    pub fn resolves(&self, handle: u64, token: u64) -> (r: bool)
        ensures
            r <==> resolves_in(self.live(), handle, token),
    {
        match self.entries.get(&handle) {
            Some(t) => *t == token,
            None => false,
        }
    }
}

/// Requesting a weak reference for the same handle twice hands out the same
/// token both times: the two references carry identical `(handle, token)`
/// pairs and therefore upgrade or fail in lockstep in every later registry
/// state.  The first request also leaves the pair resolving, so the first
/// upgrade after it succeeds.
pub proof fn lemma_weak_reference_twice(m: Map<u64, u64>, next: u64, handle: u64)
    ensures
        ({
            let op = RegistryOp::Acquire { handle };
            let t1 = if m.contains_key(handle) {
                m[handle]
            } else {
                next
            };
            let m1 = step_map(m, next, op);
            let n1 = step_next(m, next, op);
            let t2 = if m1.contains_key(handle) {
                m1[handle]
            } else {
                n1
            };
            &&& t1 == t2
            &&& resolves_in(m1, handle, t1)
            &&& forall|m2: Map<u64, u64>|
                resolves_in(m2, handle, t1) <==> resolves_in(m2, handle, t2)
        }),
{
}

/// Destruction is permanent: a weak reference issued before a destruction
/// notification for its handle never resolves after it, whatever sequence
/// of acquisitions and destructions follows — not even an acquisition
/// that reuses the numeric handle revives it.  Since an upgrade, and with
/// it a `run`, succeeds exactly when the pair resolves, neither ever
/// succeeds again.
pub proof fn lemma_no_resurrection(
    m: Map<u64, u64>,
    next: u64,
    handle: u64,
    token: u64,
    ops: Seq<RegistryOp>,
)
    requires
        token < next,
        steps_ok(m.remove(handle), next, ops),
    ensures
        !resolves_in(
            run_steps(m.remove(handle), next, ops).0,
            handle,
            token,
        ),
{
    lemma_stale_stays_stale(m.remove(handle), next, handle, token, ops);
}

/// Once a weak reference has gone stale, no later sequence of
/// weak-reference acquisitions and destruction notifications makes it
/// resolve again: destruction is permanent, with no resurrection even if
/// the backend reuses the numeric handle.
pub proof fn lemma_stale_stays_stale(
    m: Map<u64, u64>,
    next: u64,
    handle: u64,
    token: u64,
    ops: Seq<RegistryOp>,
)
    requires
        stale_in(m, next, handle, token),
        steps_ok(m, next, ops),
    ensures
        stale_in(run_steps(m, next, ops).0, run_steps(m, next, ops).1, handle, token),
    decreases ops.len(),
{
    if ops.len() > 0 {
        let m1 = step_map(m, next, ops[0]);
        let n1 = step_next(m, next, ops[0]);
        assert(stale_in(m1, n1, handle, token));
        lemma_stale_stays_stale(m1, n1, handle, token, ops.drop_first());
    }
}

} // verus!
