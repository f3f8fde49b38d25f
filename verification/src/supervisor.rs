//! The supervisor's state: the one process it holds and the startup snapshot.
//!
//! The handle type `H` is whatever the program uses to hold a live process.
//! The supervisor owns at most one such handle. A handle that leaves it is
//! handed to the caller, who terminates the process gracefully.

use vstd::prelude::*;
use vstd::string::*;
use crate::snapshot::{BackendStartupSnapshot, SnapshotView, StartupStatus, STOPPED_MESSAGE};
use crate::termination::ExitPoll;

verus! {

/// The supervised process, if any, and the latest startup snapshot.
pub struct BackendProcessState<H> {
    child: Option<H>,
    startup: BackendStartupSnapshot,
}

/// What a supervisor holds, as plain values.
pub struct SupervisorView<H> {
    /// The handle of the supervised process, if there is one.
    pub child: Option<H>,
    /// What the startup snapshot holds.
    pub snapshot: SnapshotView,
}

impl<H> SupervisorView<H> {
    /// A supervisor that holds no process and has not been asked to start anything.
    pub open spec fn idle() -> SupervisorView<H> {
        SupervisorView { child: None, snapshot: SnapshotView::idle() }
    }

    /// The supervisor after `child` has been stored, and the handle that left it.
    pub open spec fn stored(self, child: H) -> (SupervisorView<H>, Option<H>) {
        (SupervisorView { child: Some(child), snapshot: self.snapshot }, self.child)
    }

    /// The supervisor after its process has been taken out, and the handle that left it.
    pub open spec fn emptied(self) -> (SupervisorView<H>, Option<H>) {
        (SupervisorView { child: None, snapshot: self.snapshot }, self.child)
    }

    /// Whether the supervised process is alive, given what it answered.
    pub open spec fn alive(self, poll: ExitPoll) -> bool {
        self.child is Some && poll is Running
    }

    /// The supervisor after its process has answered: a process that is not
    /// alive is no longer held.
    pub open spec fn polled(self, poll: ExitPoll) -> SupervisorView<H> {
        if self.alive(poll) {
            self
        } else {
            SupervisorView { child: None, snapshot: self.snapshot }
        }
    }

    /// The supervisor after a stop, and the handle that left it.
    pub open spec fn stopped(self) -> (SupervisorView<H>, Option<H>) {
        (
            SupervisorView {
                child: None,
                snapshot: self.snapshot.with_status(StartupStatus::Stopped, STOPPED_MESSAGE@),
            },
            self.child,
        )
    }

    /// The supervisor after a status and a message have been published.
    pub open spec fn published(self, status: StartupStatus, message: Seq<char>) -> SupervisorView<
        H,
    > {
        SupervisorView { child: self.child, snapshot: self.snapshot.with_status(status, message) }
    }

    /// The supervisor after a status and a message have been published at an endpoint.
    pub open spec fn published_at(
        self,
        status: StartupStatus,
        message: Seq<char>,
        host: Seq<char>,
        port: u16,
    ) -> SupervisorView<H> {
        SupervisorView {
            child: self.child,
            snapshot: SnapshotView::at_endpoint(status, message, host, port),
        }
    }
}

impl<H> View for BackendProcessState<H> {
    type V = SupervisorView<H>;

    closed spec fn view(&self) -> SupervisorView<H> {
        SupervisorView { child: self.child, snapshot: self.startup@ }
    }
}

impl<H> BackendProcessState<H> {
    /// A supervisor that holds no process and has not been asked to start anything.
    pub fn new() -> (state: Self)
        ensures
            state@ == SupervisorView::<H>::idle(),
    {
        BackendProcessState { child: None, startup: BackendStartupSnapshot::default() }
    }

    /// Whether a process is held.
    pub fn has_child(&self) -> (present: bool)
        ensures
            present == self@.child is Some,
    {
        self.child.is_some()
    }

    /// Makes `child` the one supervised process. The process that was held
    /// before, if any, is handed out: it has left the supervisor and is to be
    /// terminated.
    pub fn store_child(&mut self, child: H) -> (previous: Option<H>)
        ensures
            (final(self)@, previous) == old(self)@.stored(child),
    {
        let previous = self.child.take();
        self.child = Some(child);
        previous
    }

    /// Hands out the supervised process, if any, and leaves the slot empty.
    pub fn take_child(&mut self) -> (previous: Option<H>)
        ensures
            (final(self)@, previous) == old(self)@.emptied(),
    {
        self.child.take()
    }

    /// Gives access to the supervised process, so that it can be asked
    /// whether it has exited. The snapshot cannot be reached through it.
    pub fn child_mut(&mut self) -> (slot: Option<&mut H>)
        ensures
            old(self)@.child is None ==> slot is None && final(self)@ == old(self)@,
            old(self)@.child matches Some(child) ==> (slot matches Some(handle) && *handle
                == child && final(self)@ == (SupervisorView {
                child: Some(*final(handle)),
                snapshot: old(self)@.snapshot,
            })),
    {
        self.child.as_mut()
    }

    /// Reports whether the supervised process is alive, given what it
    /// answered when it was asked whether it has exited. A process that has
    /// exited, or that could not be asked, is no longer held afterwards.
    /// Where no process is held the answer is no, whatever `poll` says.
    pub fn running(&mut self, poll: &ExitPoll) -> (alive: bool)
        ensures
            alive == old(self)@.alive(*poll),
            final(self)@ == old(self)@.polled(*poll),
    {
        if self.child.is_none() {
            return false;
        }
        match poll {
            ExitPoll::Running => true,
            _ => {
                self.child = None;
                false
            },
        }
    }

    /// Stops supervising: hands out the supervised process, if any, for
    /// termination and publishes the stopped status. Where no process is held
    /// only the status is published.
    pub fn stop(&mut self) -> (previous: Option<H>)
        ensures
            (final(self)@, previous) == old(self)@.stopped(),
    {
        let previous = self.child.take();
        self.set_startup_status(StartupStatus::Stopped, String::from_str(STOPPED_MESSAGE));
        previous
    }

    /// Publishes a status and a message. The endpoint stays, but for a blank
    /// host and a zero port, which give way to the defaults.
    pub fn set_startup_status(&mut self, status: StartupStatus, message: String)
        ensures
            final(self)@ == old(self)@.published(status, message@),
    {
        self.startup.set_status(status, message);
    }

    /// Publishes a status and a message at an endpoint, which is normalized.
    pub fn set_startup_status_with_endpoint(
        &mut self,
        status: StartupStatus,
        message: String,
        host: &str,
        port: u16,
    )
        ensures
            final(self)@ == old(self)@.published_at(status, message@, host@, port),
    {
        self.startup.set_status_with_endpoint(status, message, host, port);
    }

    /// A copy of the startup snapshot as it stands.
    pub fn startup_snapshot(&self) -> (snapshot: BackendStartupSnapshot)
        ensures
            snapshot@ == self@.snapshot,
    {
        self.startup.clone()
    }
}

impl<H> Default for BackendProcessState<H> {
    fn default() -> (state: Self)
        ensures
            state@ == SupervisorView::<H>::idle(),
    {
        BackendProcessState::new()
    }
}

/// Two stores in succession leave exactly the second process supervised: the
/// first leaves the supervisor in the second store, which hands it out for
/// termination, and what was held at the start leaves it in the first.
pub proof fn second_store_replaces_first<H>(state: SupervisorView<H>, first: H, second: H)
    ensures
        state.stored(first).0.stored(second).0.child == Some(second),
        state.stored(first).0.stored(second).1 == Some(first),
        state.stored(first).1 == state.child,
        state.stored(first).0.stored(second).0.snapshot == state.snapshot,
{
}

/// Stopping a supervisor that holds no process hands out nothing and leaves
/// the slot empty, and a second stop changes nothing that the first has left.
pub proof fn stop_is_idempotent<H>(state: SupervisorView<H>)
    ensures
        state.child is None ==> state.stopped().1 is None && state.stopped().0.child is None,
        state.stopped().0.stopped() == (state.stopped().0, None::<H>),
{
    let once = state.stopped().0;
    assert(once.stopped().0.snapshot =~= once.snapshot);
}

/// A supervisor says that its process is alive only while it holds one, and
/// holds none after it has said otherwise.
pub proof fn dead_process_is_released<H>(state: SupervisorView<H>, poll: ExitPoll)
    ensures
        state.alive(poll) ==> state.polled(poll) == state,
        !state.alive(poll) ==> state.polled(poll).child is None,
        state.polled(poll).snapshot == state.snapshot,
{
}

} // verus!
