//! The activation guard: at most one live coprocessor context per
//! thread of execution.
//!
//! The guard is a two-state machine over a single per-thread flag.
//! Activation succeeds exactly when the flag is clear and sets it;
//! release clears it unconditionally.  The runtime that owns the real
//! hardware keeps one [`ActivationState`] per thread, consults
//! [`ActivationState::try_activate`] before enabling the coprocessor,
//! and calls [`ActivationState::release`] exactly once when the
//! context goes away, on every exit path.

use vstd::prelude::*;

verus! {

/// The error type for acquiring a coprocessor context.
#[derive(Debug, Copy, Clone, Eq, PartialEq, Structural)]
pub enum NewAmxCtxError {
    /// The current thread already has an active context.
    AlreadyActive,
    /// The coprocessor is not supported by the target system.
    ///
    /// Reliable detection does not exist yet, so no transition of the
    /// guard produces this value; it is part of the surface so that a
    /// runtime which learns to probe the hardware can report it.
    Unsupported,
}

/// The flag after an activation attempt: set in either case.
pub open spec fn spec_activate_flag(active: bool) -> bool {
    true
}

/// Whether an activation attempt on a thread whose flag is `active`
/// succeeds: exactly when no context is live.
pub open spec fn spec_activate_ok(active: bool) -> bool {
    !active
}

/// The flag after a release: always clear.
pub open spec fn spec_release_flag(active: bool) -> bool {
    false
}

/// One thread's activation flag: true while a context is live on that
/// thread.
///
/// Each thread owns its own value; the flag of one thread is never
/// read or written through another thread's state.
pub struct ActivationState {
    active: bool,
}

impl ActivationState {
    /// Whether a context is live.
    pub closed spec fn is_active(&self) -> bool {
        self.active
    }

    /// The state of a thread that has never activated the
    /// coprocessor.
    pub fn new() -> (s: Self)
        ensures
            !s.is_active(),
    {
        ActivationState { active: false }
    }

    /// Attempt to activate the coprocessor for this thread.  Fails
    /// with [`NewAmxCtxError::AlreadyActive`], leaving the flag as it
    /// was, if a context is already live; otherwise succeeds and
    /// marks the context live.
    pub fn try_activate(&mut self) -> (r: Result<(), NewAmxCtxError>)
        ensures
            final(self).is_active() == spec_activate_flag(old(self).is_active()),
            r is Ok <==> spec_activate_ok(old(self).is_active()),
            r is Err ==> r == Result::<(), NewAmxCtxError>::Err(NewAmxCtxError::AlreadyActive),
    {
        if self.active {
            Err(NewAmxCtxError::AlreadyActive)
        } else {
            self.active = true;
            Ok(())
        }
    }

    /// Release the context: the flag is cleared unconditionally.
    pub fn release(&mut self)
        ensures
            final(self).is_active() == spec_release_flag(old(self).is_active()),
    {
        self.active = false;
    }
}

/// Law: on one thread, a second activation without a release in
/// between is refused and leaves the first context live, and
/// releasing and retrying succeeds.
pub proof fn lemma_second_activation_refused(active0: bool)
    requires
        spec_activate_ok(active0),
    ensures
        spec_activate_ok(active0),
        !spec_activate_ok(spec_activate_flag(active0)),
        spec_activate_flag(spec_activate_flag(active0)),
        spec_activate_ok(spec_release_flag(spec_activate_flag(active0))),
{
}

/// Law: two threads, each with its own flag and no live context, both
/// activate successfully.  An attempt is a function of the attempting
/// thread's flag alone — the other thread's flag does not appear in
/// it — so independent contexts never observe each other; the same
/// holds of the register files, which are per-thread state owned by
/// each context's backend.
pub proof fn lemma_threads_activate_independently(a: bool, b: bool)
    requires
        spec_activate_ok(a),
        spec_activate_ok(b),
    ensures
        spec_activate_ok(a),
        spec_activate_ok(b),
        spec_activate_flag(a),
        spec_activate_flag(b),
{
}

} // verus!
