//! Ownership of the one backend process.
//!
//! The supervisor owns at most one child process. The handle onto it is put
//! into a [`BackendState`] when the backend has started and taken out again
//! by the first event that asks for shutdown; whoever takes it out is the one
//! to terminate the process. Events that come later find nothing to take.
//!
//! A `BackendState` is changed through `&mut` only. Where several threads
//! deliver events, the caller keeps it behind a lock and holds the lock for
//! the one call, not while the process is being terminated.

use vstd::prelude::*;

verus! {

/// The slot for the handle of the running backend. `H` is the handle type.
#[derive(Debug)]
pub struct BackendState<H> {
    child: Option<H>,
}

impl<H> View for BackendState<H> {
    type V = Option<H>;

    /// The handle that is held, if one is.
    closed spec fn view(&self) -> Option<H> {
        self.child
    }
}

/// What is held once setup has ended with `launched`: the new handle if the
/// launch succeeded, else what was held before.
pub open spec fn held_after_setup<H, X>(held: Option<H>, launched: Result<H, X>) -> Option<H> {
    match launched {
        Ok(handle) => Some(handle),
        Err(_) => held,
    }
}

/// What a shutdown event does to a slot.
pub struct Shutdown<H> {
    /// What the slot holds afterwards.
    pub held: Option<H>,
    /// The handle whose process is to be terminated, if there is one.
    pub to_terminate: Option<H>,
}

/// The effect of a shutdown event on a slot that holds `held`: the slot is
/// emptied, and what it held is to be terminated.
pub open spec fn shutdown<H>(held: Option<H>) -> Shutdown<H> {
    Shutdown { held: None, to_terminate: held }
}

impl<H> BackendState<H> {
    /// The state at application start: no backend yet.
    pub fn new() -> (state: Self)
        ensures
            state@ is None,
    {
        BackendState { child: None }
    }

    /// Whether a handle is held.
    pub fn is_running(&self) -> (running: bool)
        ensures
            running == (self@ is Some),
    {
        self.child.is_some()
    }

    /// Ends setup with the result of the launch. A handle is stored, in place
    /// of whatever was held. A failure is handed back unchanged, for the host
    /// to abort its start, and leaves the state as it was.
    pub fn on_setup<X>(&mut self, launched: Result<H, X>) -> (outcome: Result<(), X>)
        ensures
            final(self)@ == held_after_setup(old(self)@, launched),
            match launched {
                Ok(_) => outcome is Ok,
                Err(error) => outcome == Err::<(), X>(error),
            },
    {
        match launched {
            Ok(handle) => {
                self.child = Some(handle);
                Ok(())
            },
            Err(error) => Err(error),
        }
    }

    /// Reacts to an event that asks for shutdown: empties the slot and hands
    /// out what it held. The caller terminates the process behind the handle
    /// it gets; when it gets none, there is nothing to terminate.
    pub fn on_shutdown_event(&mut self) -> (to_terminate: Option<H>)
        ensures
            (Shutdown { held: final(self)@, to_terminate }) == shutdown(old(self)@),
    {
        self.child.take()
    }
}

/// After a successful setup a handle is held, whatever was held before. The
/// first shutdown event that follows hands out that very handle and leaves
/// the slot empty; the next one finds it empty, hands out nothing and leaves
/// it empty.
pub proof fn shutdown_is_idempotent<H, X>(held: Option<H>, handle: H)
    ensures
        ({
            let running = held_after_setup::<H, X>(held, Ok(handle));
            let first = shutdown(running);
            let second = shutdown(first.held);
            &&& running == Some(handle)
            &&& first.to_terminate == Some(handle)
            &&& first.held is None
            &&& second.to_terminate is None
            &&& second.held is None
        }),
{
}

} // verus!
