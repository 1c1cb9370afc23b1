//! Optional typed user data attached to entity handles.
//!
//! A [`UserData`] store holds at most one value per handle.  Reading hands
//! out a [`SharedRef`] ticket and raises the slot's share count; the ticket
//! is read through the store and given back with [`UserData::release`].
//! Taking the value out exclusively succeeds only while no ticket is
//! outstanding.  Each occupancy of a slot carries a fresh generation
//! number, so a ticket kept across a clear or a replacement of the value
//! can never be mistaken for one of the new occupancy.
//!
//! A ticket does not own the value: clearing or replacing a slot drops
//! the value at once, and tickets of the gone occupancy merely turn
//! stale.  An owning shared pointer would instead keep the value alive
//! until the last reader let go; here the store is the only owner, and a
//! reader that must outlive the slot takes a copy of what it read.

use vstd::prelude::*;

verus! {

use std::collections::HashMap;

/// Entities that carry a numeric backend handle and may have user data
/// attached under it.
pub trait Handle {
    /// The numeric backend handle of this entity.
    spec fn entity_id(&self) -> u64;

    /// Returns the raw backend handle, the key under which user data for
    /// this entity is stored.
    fn handle(&self) -> (h: u64)
        ensures
            h == self.entity_id(),
    ;
}

/// The observable effect of clearing the slot of `handle`: the slot is
/// empty afterwards and every other slot is untouched.
pub open spec fn cleared<T>(pre: UserData<T>, post: UserData<T>, handle: u64) -> bool {
    &&& !post.contains(handle)
    &&& post.horizon() == pre.horizon()
    &&& forall|h: u64| h != handle ==> pre.unchanged_at(post, h)
}

/// The observable effect of storing `value` under `handle`: the slot
/// holds exactly `value`, with no outstanding shared-read ticket, and
/// every other slot is untouched.
pub open spec fn stored<T>(pre: UserData<T>, post: UserData<T>, handle: u64, value: T) -> bool {
    &&& post.contains(handle)
    &&& post.value(handle) == value
    &&& post.shared_count(handle) == 0
    &&& forall|h: u64| h != handle ==> pre.unchanged_at(post, h)
}

/// A ticket witnessing one outstanding shared read of a slot.
///
/// Obtained from [`UserData::user_data`]; the value is read through
/// [`UserData::read`] and the ticket is returned with
/// [`UserData::release`].  Tickets cannot be copied, so the store's share
/// count never undercounts them.  A ticket carries no ownership: if the
/// slot is cleared or overwritten while the ticket is out, the value is
/// dropped then and the ticket turns stale.
#[derive(Debug)]
pub struct SharedRef {
    handle: u64,
    generation: u64,
}

impl SharedRef {
    /// The handle whose slot this ticket reads.
    pub closed spec fn id(self) -> u64 {
        self.handle
    }

    /// The occupancy of the slot this ticket was issued for.
    pub closed spec fn generation(self) -> u64 {
        self.generation
    }

    /// Returns the handle whose slot this ticket reads.
    pub fn handle(&self) -> (h: u64)
        ensures
            h == self.id(),
    {
        self.handle
    }
}

struct Slot<T> {
    value: T,
    shared: u64,
    generation: u64,
}

/// Per-handle storage for one optional value of type `T`.
///
/// One store exists per entity kind; the dispatcher clears the slot of a
/// handle when that handle's destruction is dispatched.
pub struct UserData<T> {
    slots: HashMap<u64, Slot<T>>,
    next_generation: u64,
}

impl<T> UserData<T> {
    /// Whether a value is stored under `handle`.
    pub closed spec fn contains(self, handle: u64) -> bool {
        self.slots@.contains_key(handle)
    }

    /// The value stored under `handle`.
    pub closed spec fn value(self, handle: u64) -> T
        recommends
            self.contains(handle),
    {
        self.slots@[handle].value
    }

    /// How many shared-read tickets for `handle` are outstanding.
    pub closed spec fn shared_count(self, handle: u64) -> u64 {
        if self.slots@.contains_key(handle) {
            self.slots@[handle].shared
        } else {
            0
        }
    }

    /// The generation of the current occupancy of `handle`'s slot.
    pub closed spec fn generation_of(self, handle: u64) -> u64
        recommends
            self.contains(handle),
    {
        self.slots@[handle].generation
    }

    /// All generations handed out so far lie strictly below this bound.
    pub closed spec fn horizon(self) -> u64 {
        self.next_generation
    }

    /// Whether `r` is a ticket of the current occupancy of its slot.
    pub open spec fn valid_ref(self, r: SharedRef) -> bool {
        self.contains(r.id()) && self.generation_of(r.id()) == r.generation()
    }

    /// Every stored generation lies below the horizon, and a handle
    /// without a slot has no outstanding shared-read ticket.
    pub open spec fn wf(self) -> bool {
        &&& forall|h: u64| #[trigger]
            self.contains(h) ==> self.generation_of(h) < self.horizon()
        &&& forall|h: u64| !self.contains(h) ==> #[trigger] self.shared_count(h) == 0
    }

    /// A fresh generation can still be handed out.
    pub open spec fn can_issue(self) -> bool {
        self.horizon() < u64::MAX
    }

    /// The slot of `h` is the same in `post` as in `self`: same occupancy,
    /// same value, same share count.
    pub open spec fn unchanged_at(self, post: UserData<T>, h: u64) -> bool {
        &&& post.contains(h) == self.contains(h)
        &&& self.contains(h) ==> post.value(h) == self.value(h) && post.shared_count(h)
            == self.shared_count(h) && post.generation_of(h) == self.generation_of(h)
    }

    /// Creates an empty store.
    pub fn new() -> (r: UserData<T>)
        ensures
            forall|h: u64| !r.contains(h),
            r.horizon() == 1u64,
            r.wf(),
    {
        UserData { slots: HashMap::new(), next_generation: 1 }
    }

    /// Stores `value` under `handle`, clearing any value previously stored
    /// there first.  The previous value, if any, is dropped here, exactly
    /// once; its outstanding tickets, if any, are invalidated.  The new
    /// occupancy starts with no outstanding tickets.
    pub fn set_user_data(&mut self, handle: u64, value: T)
        requires
            old(self).wf(),
            old(self).can_issue(),
        ensures
            final(self).wf(),
            stored(*old(self), *final(self), handle, value),
            forall|r: SharedRef|
                old(self).valid_ref(r) && r.id() == handle ==> !final(self).valid_ref(r),
            forall|r: SharedRef|
                old(self).valid_ref(r) && r.id() != handle ==> final(self).valid_ref(r),
    {
        let generation = self.next_generation;
        self.slots.insert(handle, Slot { value, shared: 0, generation });
        self.next_generation = self.next_generation + 1;
        proof {
            assert forall|h: u64| #[trigger]
                self.contains(h) implies self.generation_of(h) < self.horizon() by {
                if h != handle {
                    assert(old(self).contains(h));
                }
            }
        }
    }

    /// Hands out a shared-read ticket for the value stored under `handle`,
    /// if one is stored, raising the slot's share count by one.  Returns
    /// `None`, leaving the store untouched, if the slot is empty.
    pub fn user_data(&mut self, handle: u64) -> (r: Option<SharedRef>)
        requires
            old(self).wf(),
            old(self).shared_count(handle) < u64::MAX,
        ensures
            final(self).wf(),
            r.is_some() <==> old(self).contains(handle),
            r matches Some(t) ==> t.id() == handle && final(self).valid_ref(t),
            final(self).contains(handle) == old(self).contains(handle),
            old(self).contains(handle) ==> final(self).value(handle) == old(self).value(handle)
                && final(self).shared_count(handle) == old(self).shared_count(handle) + 1
                && final(self).generation_of(handle) == old(self).generation_of(handle),
            forall|h: u64| h != handle ==> old(self).unchanged_at(*final(self), h),
            forall|r2: SharedRef| old(self).valid_ref(r2) ==> final(self).valid_ref(r2),
    {
        let r = match self.slots.remove(&handle) {
            Some(slot) => {
                let generation = slot.generation;
                self.slots.insert(
                    handle,
                    Slot { value: slot.value, shared: slot.shared + 1, generation },
                );
                Some(SharedRef { handle, generation })
            }
            None => None,
        };
        proof {
            assert forall|h: u64| #[trigger]
                self.contains(h) implies self.generation_of(h) < self.horizon() by {
                assert(old(self).contains(h));
            }
        }
        r
    }

    /// Reads the value a ticket gives access to.
    pub fn read(&self, r: &SharedRef) -> (v: &T)
        requires
            self.valid_ref(*r),
        ensures
            *v == self.value(r.id()),
    {
        match self.slots.get(&r.handle) {
            Some(slot) => &slot.value,
            None => vstd::pervasive::unreached(),
        }
    }

    /// Gives a shared-read ticket back, lowering the slot's share count by
    /// one.  A ticket of an earlier occupancy, whose slot was cleared or
    /// overwritten in the meantime, is discarded without effect.
    pub fn release(&mut self, r: SharedRef)
        requires
            old(self).wf(),
        ensures
            final(self).wf(),
            old(self).valid_ref(r) && old(self).shared_count(r.id()) > 0
                ==> final(self).shared_count(r.id()) == old(self).shared_count(r.id()) - 1,
            !(old(self).valid_ref(r) && old(self).shared_count(r.id()) > 0)
                ==> old(self).unchanged_at(*final(self), r.id()),
            final(self).contains(r.id()) == old(self).contains(r.id()),
            old(self).contains(r.id()) ==> final(self).value(r.id()) == old(self).value(r.id())
                && final(self).generation_of(r.id()) == old(self).generation_of(r.id()),
            forall|h: u64| h != r.id() ==> old(self).unchanged_at(*final(self), h),
            forall|r2: SharedRef| old(self).valid_ref(r2) ==> final(self).valid_ref(r2),
    {
        let handle = r.handle;
        let matching = match self.slots.get(&handle) {
            Some(slot) => slot.generation == r.generation && slot.shared > 0,
            None => false,
        };
        if matching {
            match self.slots.remove(&handle) {
                Some(slot) => {
                    self.slots.insert(
                        handle,
                        Slot {
                            value: slot.value,
                            shared: slot.shared - 1,
                            generation: slot.generation,
                        },
                    );
                }
                None => {}
            }
        }
        proof {
            assert forall|h: u64| #[trigger]
                self.contains(h) implies self.generation_of(h) < self.horizon() by {
                assert(old(self).contains(h));
            }
        }
    }

    /// Takes the value stored under `handle` out exclusively.
    ///
    /// Succeeds, removing the slot and returning the value by move, exactly
    /// when a value is stored and no shared-read ticket for it is
    /// outstanding.  Otherwise returns `None` and leaves the slot intact.
    pub fn try_take_user_data(&mut self, handle: u64) -> (r: Option<T>)
        requires
            old(self).wf(),
        ensures
            final(self).wf(),
            r.is_some() <==> old(self).contains(handle) && old(self).shared_count(handle) == 0,
            r matches Some(v) ==> v == old(self).value(handle) && !final(self).contains(handle),
            r.is_none() ==> old(self).unchanged_at(*final(self), handle),
            forall|h: u64| h != handle ==> old(self).unchanged_at(*final(self), h),
    {
        let take = match self.slots.get(&handle) {
            Some(slot) => slot.shared == 0,
            None => false,
        };
        let r = if take {
            match self.slots.remove(&handle) {
                Some(slot) => Some(slot.value),
                None => vstd::pervasive::unreached(),
            }
        } else {
            None
        };
        proof {
            assert forall|h: u64| #[trigger]
                self.contains(h) implies self.generation_of(h) < self.horizon() by {
                assert(old(self).contains(h));
            }
        }
        r
    }

    /// Removes and drops the value stored under `handle`, if any,
    /// invalidating its outstanding tickets.  A no-op if the slot is
    /// empty; clearing twice is the same as clearing once.
    pub fn clear_user_data(&mut self, handle: u64)
        requires
            old(self).wf(),
        ensures
            final(self).wf(),
            cleared(*old(self), *final(self), handle),
    {
        self.slots.remove(&handle);
        proof {
            assert forall|h: u64| #[trigger]
                self.contains(h) implies self.generation_of(h) < self.horizon() by {
                assert(old(self).contains(h));
            }
        }
    }
}

/// User data reads back what was stored: after `value` is set under
/// `handle`, and as long as later operations leave that slot untouched,
/// the slot still holds exactly `value` — so a shared read yields `value`
/// and an exclusive take returns it.
pub proof fn lemma_stored_reads_back<T>(
    before: UserData<T>,
    after_set: UserData<T>,
    later: UserData<T>,
    handle: u64,
    value: T,
)
    requires
        stored(before, after_set, handle, value),
        after_set.unchanged_at(later, handle),
    ensures
        later.contains(handle),
        later.value(handle) == value,
        later.shared_count(handle) == 0,
{
}

/// Clearing is idempotent: a second clear of the same handle changes
/// nothing observable about any slot.
pub proof fn lemma_clear_idempotent<T>(
    first: UserData<T>,
    second: UserData<T>,
    third: UserData<T>,
    handle: u64,
)
    requires
        cleared(first, second, handle),
        cleared(second, third, handle),
    ensures
        forall|h: u64| second.unchanged_at(third, h),
{
}

/// Clearing a handle that has no data stored is a no-op: nothing
/// observable about any slot changes.
pub proof fn lemma_clear_absent_noop<T>(pre: UserData<T>, post: UserData<T>, handle: u64)
    requires
        cleared(pre, post, handle),
        !pre.contains(handle),
    ensures
        forall|h: u64| pre.unchanged_at(post, h),
{
}

} // verus!
