//! Timers and file-descriptor sources of the backend's run loop.
//!
//! The backend owns the run loop; registered timers and io sources are
//! identified by handles, tracked through the same liveness-token pattern
//! as entities: a registered source holds the token its trampoline will
//! check, and deregistering removes the token, so a firing that races a
//! deregistration finds the token gone and never calls into freed
//! callback state.

use vstd::prelude::*;

use crate::registry::{resolves_in, Registry};

verus! {

/// Bit of [`EventFlags`]: the source became readable.
pub const EVENT_READABLE: u32 = 0x1;

/// Bit of [`EventFlags`]: the source became writable.
pub const EVENT_WRITABLE: u32 = 0x2;

/// Bit of [`EventFlags`]: the source hung up.
pub const EVENT_HANGUP: u32 = 0x4;

/// Bit of [`EventFlags`]: an error happened on the source.
pub const EVENT_ERROR: u32 = 0x8;

/// All bits of [`EventFlags`] this layer knows.
pub const EVENT_MASK: u32 = 0xf;

/// A bitmask over the events a run-loop source reports.
#[derive(Debug, Clone, Copy, PartialEq, Eq, Structural, Hash)]
pub struct EventFlags {
    bits: u32,
}

impl EventFlags {
    /// The raw bits of this mask.
    pub closed spec fn spec_bits(self) -> u32 {
        self.bits
    }

    /// Wraps raw backend bits, dropping any bit this layer does not know.
    pub fn from_bits_truncate(bits: u32) -> (r: EventFlags)
        ensures
            r.spec_bits() == bits & EVENT_MASK,
    {
        EventFlags { bits: bits & EVENT_MASK }
    }

    /// Returns the raw bits of this mask.
    pub fn bits(self) -> (r: u32)
        ensures
            r == self.spec_bits(),
    {
        self.bits
    }

    /// The mask with no bit set.
    pub fn empty() -> (r: EventFlags)
        ensures
            r.spec_bits() == 0,
    {
        EventFlags { bits: 0 }
    }

    /// Whether every bit of `other` is set in this mask.
    pub fn contains(self, other: EventFlags) -> (r: bool)
        ensures
            r <==> self.spec_bits() & other.spec_bits() == other.spec_bits(),
    {
        self.bits & other.bits == other.bits
    }
}

/// Implement this to react to timer events.
pub trait TimerCallback: Sized {
    /// Called once for every scheduled firing that finds the timer still
    /// registered.
    fn fire(&mut self);
}

/// Implement this to react to events on a registered io source.
pub trait IoCallback<R>: Sized {
    /// Called when a new event happened on the source.
    fn ready(&mut self, io: &mut R, event: EventFlags);
}

/// A registered timer, identified by the handle and liveness token its
/// trampoline checks.  Deregister it with [`Timer::remove`]; a firing
/// after that finds the token gone and does not call the callback.
#[derive(Debug)]
pub struct Timer {
    handle: u64,
    token: u64,
}

impl Timer {
    /// The run-loop handle of this timer.
    pub closed spec fn id(self) -> u64 {
        self.handle
    }

    /// The liveness token this timer was registered with.
    pub closed spec fn token(self) -> u64 {
        self.token
    }

    /// Returns the run-loop handle of this timer.
    pub fn handle(&self) -> (h: u64)
        ensures
            h == self.id(),
    {
        self.handle
    }

    /// Returns the liveness token this timer was registered
    /// with, for the trampoline to check at each firing.
    pub fn liveness_token(&self) -> (t: u64)
        ensures
            t == self.token(),
    {
        self.token
    }

    /// Registers a timer under `handle` in `registry`.
    pub fn register(registry: &mut Registry, handle: u64) -> (r: Timer)
        requires
            old(registry).wf(),
            old(registry).can_acquire(handle),
        ensures
            final(registry).wf(),
            old(registry).preserves_stale(*final(registry)),
            r.id() == handle,
            resolves_in(final(registry).live(), r.id(), r.token()),
    {
        let token = registry.acquire(handle);
        Timer { handle, token }
    }

    /// Deregisters this timer: an in-flight firing that races this call
    /// finds the token gone and drops the event.
    pub fn remove(self, registry: &mut Registry)
        requires
            old(registry).wf(),
        ensures
            final(registry).wf(),
            old(registry).preserves_stale(*final(registry)),
            !final(registry).live().contains_key(self.id()),
    {
        registry.on_destroyed(self.handle);
    }
}

/// A registered io event source, identified by the handle and liveness
/// token its trampoline checks.  Deregister it with
/// [`EventSource::remove`]; an event after that finds the token gone and
/// does not call the callback.
#[derive(Debug)]
pub struct EventSource {
    handle: u64,
    token: u64,
}

impl EventSource {
    /// The run-loop handle of this source.
    pub closed spec fn id(self) -> u64 {
        self.handle
    }

    /// The liveness token this source was registered with.
    pub closed spec fn token(self) -> u64 {
        self.token
    }

    /// Returns the run-loop handle of this source.
    pub fn handle(&self) -> (h: u64)
        ensures
            h == self.id(),
    {
        self.handle
    }

    /// Returns the liveness token this source was registered
    /// with, for the trampoline to check at each firing.
    pub fn liveness_token(&self) -> (t: u64)
        ensures
            t == self.token(),
    {
        self.token
    }

    /// Registers an io source under `handle` in `registry`.
    pub fn register(registry: &mut Registry, handle: u64) -> (r: EventSource)
        requires
            old(registry).wf(),
            old(registry).can_acquire(handle),
        ensures
            final(registry).wf(),
            old(registry).preserves_stale(*final(registry)),
            r.id() == handle,
            resolves_in(final(registry).live(), r.id(), r.token()),
    {
        let token = registry.acquire(handle);
        EventSource { handle, token }
    }

    /// Deregisters this source: an in-flight event that races this call
    /// finds the token gone and drops the event.
    pub fn remove(self, registry: &mut Registry)
        requires
            old(registry).wf(),
        ensures
            final(registry).wf(),
            old(registry).preserves_stale(*final(registry)),
            !final(registry).live().contains_key(self.id()),
    {
        registry.on_destroyed(self.handle);
    }
}

/// The run-loop half of a timer firing: the callback fires exactly when
/// the timer's liveness token still resolves, so a firing that raced a
/// deregistration is dropped.
pub fn timer_fire<T: TimerCallback>(
    registry: &Registry,
    handle: u64,
    token: u64,
    callback: &mut T,
) -> (fired: bool)
    ensures
        fired <==> resolves_in(registry.live(), handle, token),
{
    if registry.resolves(handle, token) {
        callback.fire();
        true
    } else {
        false
    }
}

/// The run-loop half of an io event: the callback runs exactly when the
/// source's liveness token still resolves, so an event that raced a
/// deregistration is dropped.  Event bits outside the known vocabulary
/// are dropped from the mask.
pub fn io_ready<R, T: IoCallback<R>>(
    registry: &Registry,
    handle: u64,
    token: u64,
    io: &mut R,
    callback: &mut T,
    event_bits: u32,
) -> (delivered: bool)
    ensures
        delivered <==> resolves_in(registry.live(), handle, token),
{
    if registry.resolves(handle, token) {
        callback.ready(io, EventFlags::from_bits_truncate(event_bits));
        true
    } else {
        false
    }
}

/// The timer interval the backend is asked for, in whole milliseconds,
/// for a duration given as seconds and a sub-second nanosecond part.
/// An interval beyond the backend's signed 32-bit millisecond field
/// saturates to the longest representable one.
pub fn timer_interval_ms(secs: u64, subsec_nanos: u32) -> (ms: i32)
    ensures
        secs * 1000 + subsec_nanos / 1000000 <= i32::MAX ==> ms == secs * 1000 + subsec_nanos
            / 1000000,
        secs * 1000 + subsec_nanos / 1000000 > i32::MAX ==> ms == i32::MAX,
{
    let sub: u64 = (subsec_nanos / 1000000) as u64;
    if secs > 2147483647 {
        i32::MAX
    } else {
        let total: u64 = secs * 1000 + sub;
        if total > 2147483647 {
            i32::MAX
        } else {
            total as i32
        }
    }
}

} // verus!
