//! Backend process lifecycle: tracking the single child-process handle of
//! the bundled backend executable.
//!
//! The backend moves through three states: not started, running with a
//! recorded process identifier, and terminated. A successful spawn moves
//! it from not started to running; the first close request observed while
//! it is running takes the handle out of the slot, exactly once, so that
//! the host can send the kill signal; every later close request is a
//! silent no-op. [`BackendSlot`] holds the state with exact contracts;
//! [`BackendGuard`] wraps the slot in a verified reader-writer lock so
//! that the startup path and the window-event path can share it without
//! a torn update. Spawning and killing the operating-system process stay
//! with the host program.

use vstd::prelude::*;
use vstd::rwlock::RwLock;

verus! {

/// Lifecycle state of the backend process.
///
/// `Running` carries the recorded process identifier, which is always
/// positive. A failed spawn leaves the state at `NotStarted`; a close
/// request observed while running moves it to `Terminated`, where it
/// stays.
#[derive(Clone, Copy, Debug, PartialEq, Eq, Structural)]
pub enum BackendStatus {
    NotStarted,
    Running(u32),
    Terminated,
}

/// State after a spawn attempt reports its outcome: a successful spawn
/// from `NotStarted` starts the backend; a failed one changes nothing,
/// and a spawn reported in any later state is ignored.
pub open spec fn spawn_step(s: BackendStatus, outcome: Option<u32>) -> BackendStatus {
    match s {
        BackendStatus::NotStarted => match outcome {
            Some(pid) => BackendStatus::Running(pid),
            None => BackendStatus::NotStarted,
        },
        _ => s,
    }
}

/// State after a close request: a running backend becomes terminated;
/// any other state is left as it is.
pub open spec fn close_step(s: BackendStatus) -> BackendStatus {
    match s {
        BackendStatus::Running(_) => BackendStatus::Terminated,
        _ => s,
    }
}

/// The handle a close request surrenders for killing: the recorded
/// process identifier when the backend is running, nothing otherwise.
pub open spec fn close_kill(s: BackendStatus) -> Option<u32> {
    match s {
        BackendStatus::Running(pid) => Some(pid),
        _ => None,
    }
}

/// A state is well formed when a running backend has a positive process
/// identifier.
pub open spec fn status_wf(s: BackendStatus) -> bool {
    s matches BackendStatus::Running(pid) ==> pid > 0
}

/// Handling a close request twice is idempotent: the second request
/// finds the same state the first one left, and surrenders no handle,
/// so no second kill signal is ever sent.
pub proof fn close_request_idempotent(s: BackendStatus)
    ensures
        close_step(close_step(s)) == close_step(s),
        close_kill(close_step(s)) is None,
{
}

/// Both transitions preserve well-formedness, provided a reported spawn
/// outcome carries a positive process identifier.
pub proof fn steps_preserve_wf(s: BackendStatus, outcome: Option<u32>)
    requires
        status_wf(s),
        outcome matches Some(pid) ==> pid > 0,
    ensures
        status_wf(spawn_step(s, outcome)),
        status_wf(close_step(s)),
{
}

/// The ownership slot for the backend process handle: at most one handle
/// is tracked at any time, and it is surrendered exactly once.
pub struct BackendSlot {
    status: BackendStatus,
}

impl View for BackendSlot {
    type V = BackendStatus;

    closed spec fn view(&self) -> BackendStatus {
        self.status
    }
}

impl BackendSlot {
    /// A slot is well formed when its state is.
    pub open spec fn wf(&self) -> bool {
        status_wf(self@)
    }

    /// An empty slot: the backend has not been started.
    pub fn new() -> (s: Self)
        ensures
            s@ == BackendStatus::NotStarted,
            s.wf(),
    {
        BackendSlot { status: BackendStatus::NotStarted }
    }

    /// The current state, for callers that inspect the slot.
    pub fn status(&self) -> (r: BackendStatus)
        ensures
            r == self@,
    {
        self.status
    }

    /// Record the outcome of the spawn attempt: the process identifier
    /// of the started backend, or nothing when the spawn failed and the
    /// application continues without a backend.
    pub fn record_spawn(&mut self, outcome: Option<u32>)
        requires
            outcome matches Some(pid) ==> pid > 0,
        ensures
            final(self)@ == spawn_step(old(self)@, outcome),
            old(self).wf() ==> final(self).wf(),
    {
        match self.status {
            BackendStatus::NotStarted => {
                match outcome {
                    Some(pid) => {
                        self.status = BackendStatus::Running(pid);
                    },
                    None => {},
                }
            },
            _ => {},
        }
    }

    /// Handle a close request: when a handle is present, empty the slot
    /// and surrender the handle so the caller can send the kill signal;
    /// otherwise do nothing and surrender nothing.
    pub fn take_for_kill(&mut self) -> (r: Option<u32>)
        ensures
            final(self)@ == close_step(old(self)@),
            r == close_kill(old(self)@),
            old(self).wf() ==> final(self).wf(),
    {
        match self.status {
            BackendStatus::Running(pid) => {
                self.status = BackendStatus::Terminated;
                Some(pid)
            },
            _ => None,
        }
    }
}

/// The lock-guarded backend slot shared between the startup path and the
/// window-event path.
///
/// Every access goes through the lock, so the two paths can never tear
/// the slot: each observes either a present handle or an absent one,
/// never an intermediate state, and every value the lock ever holds is
/// well formed.
pub struct BackendGuard {
    lock: RwLock<BackendSlot, spec_fn(BackendSlot) -> bool>,
}

impl BackendGuard {
    /// The guard keeps exactly the well-formed slots in its lock.
    pub closed spec fn wf(&self) -> bool {
        forall|s: BackendSlot| self.lock.inv(s) == s.wf()
    }

    /// A guard around an empty slot: the backend has not been started.
    pub fn new() -> (g: Self)
        ensures
            g.wf(),
    {
        let ghost pred = |s: BackendSlot| s.wf();
        let g = BackendGuard { lock: RwLock::new(BackendSlot::new(), Ghost(pred)) };
        g
    }

    /// Record the outcome of the spawn attempt in the shared slot.
    pub fn record_spawn(&self, outcome: Option<u32>)
        requires
            self.wf(),
            outcome matches Some(pid) ==> pid > 0,
    {
        let (mut slot, handle) = self.lock.acquire_write();
        slot.record_spawn(outcome);
        handle.release_write(slot);
    }

    /// Handle a close request against the shared slot: the surrendered
    /// handle, if any, is returned for the caller to kill.
    pub fn handle_close_request(&self) -> (r: Option<u32>)
        requires
            self.wf(),
        ensures
            r matches Some(pid) ==> pid > 0,
    {
        let (mut slot, handle) = self.lock.acquire_write();
        let r = slot.take_for_kill();
        handle.release_write(slot);
        r
    }

    /// The current state of the shared slot.
    pub fn status(&self) -> (r: BackendStatus)
        requires
            self.wf(),
        ensures
            status_wf(r),
    {
        let read_handle = self.lock.acquire_read();
        let slot = read_handle.borrow();
        assert(read_handle.view().wf());
        let r = slot.status();
        read_handle.release_read();
        r
    }
}

/// File name of the bundled backend executable, resolved inside the
/// application's resource directory.
pub fn backend_executable_name() -> (r: &'static str)
    ensures
        r@ == "MegaMelangeBackend.exe"@,
{
    "MegaMelangeBackend.exe"
}

} // verus!
