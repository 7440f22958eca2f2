use vstd::prelude::*;

verus! {

/// Errors the supervisor surfaces to its caller.
#[derive(PartialEq, Eq, Debug)]
pub enum SupervisorError {
    /// The backend executable could not be launched; carries the spawn
    /// failure's description so the host can decide what to do.
    SpawnFailure(String),
    /// A start was attempted while a backend process is already installed.
    AlreadyStarted,
}

/// What one termination yields and leaves behind: the whole installed handle
/// is taken, and none remains.
pub open spec fn spec_take_handle<H>(child: Option<H>) -> (Option<H>, Option<H>) {
    (child, None::<H>)
}

/// Two terminations in sequence surrender at most one handle to be killed:
/// the first yields whatever was installed and leaves nothing, so the second
/// always yields nothing. When a process was installed, exactly one kill is
/// issued; when none was, none is.
pub proof fn lemma_terminate_exactly_once<H>(child: Option<H>)
    ensures
        spec_take_handle(child).0 == child,
        spec_take_handle(child).1 == None::<H>,
        spec_take_handle(spec_take_handle(child).1).0 == None::<H>,
        child is Some ==> spec_take_handle(child).0 is Some && spec_take_handle(
            spec_take_handle(child).1,
        ).0 is None,
{
}

/// Owns the supervised backend process's lifecycle: at most one live handle,
/// installed by a successful start and taken out exactly once by terminate.
/// The handle type is the caller's; the supervisor only governs its ownership.
pub struct Supervisor<H> {
    child: Option<H>,
}

impl<H> Supervisor<H> {
    /// The installed process handle, if any.
    pub closed spec fn spec_child(self) -> Option<H> {
        self.child
    }

    /// A fresh supervisor: no process installed.
    pub fn new() -> (r: Supervisor<H>)
        ensures
            r.spec_child() is None,
    {
        Supervisor { child: None }
    }

    /// Whether a backend process is currently installed.
    pub fn is_started(&self) -> (r: bool)
        ensures
            r == (self.spec_child() is Some),
    {
        self.child.is_some()
    }

    /// Gate for starting the backend: refuses when a process is already
    /// installed, so a second start never spawns over a live backend.
    pub fn begin_start(&self) -> (r: Result<(), SupervisorError>)
        ensures
            r is Ok <==> self.spec_child() is None,
            r matches Err(e) ==> e == SupervisorError::AlreadyStarted,
    {
        if self.child.is_some() {
            Err(SupervisorError::AlreadyStarted)
        } else {
            Ok(())
        }
    }

    /// Install the outcome of a spawn. A successful spawn installs the handle;
    /// a failed spawn surfaces its description as a recoverable error rather
    /// than bringing the host down. A spawn that raced a completed start is
    /// refused and the installed handle is kept.
    pub fn complete_start(&mut self, spawned: Result<H, String>) -> (r: Result<
        (),
        SupervisorError,
    >)
        ensures
            old(self).spec_child() is Some ==> r == Err::<(), SupervisorError>(
                SupervisorError::AlreadyStarted,
            ) && final(self).spec_child() == old(self).spec_child(),
            old(self).spec_child() is None && spawned is Ok ==> r is Ok
                && final(self).spec_child() == Some(spawned->Ok_0),
            old(self).spec_child() is None && spawned is Err ==> r == Err::<(), SupervisorError>(
                SupervisorError::SpawnFailure(spawned->Err_0),
            ) && final(self).spec_child() is None,
    {
        if self.child.is_some() {
            return Err(SupervisorError::AlreadyStarted);
        }
        match spawned {
            Ok(handle) => {
                self.child = Some(handle);
                Ok(())
            },
            Err(description) => Err(SupervisorError::SpawnFailure(description)),
        }
    }

    /// Take the process handle out, exactly once. The first call after a
    /// successful start yields the handle for the caller to kill; every
    /// further call yields nothing and is a silent no-op, so only one kill is
    /// ever issued for one installed process.
    pub fn terminate(&mut self) -> (r: Option<H>)
        ensures
            (r, final(self).spec_child()) == spec_take_handle(old(self).spec_child()),
            r == old(self).spec_child(),
            final(self).spec_child() is None,
    {
        self.child.take()
    }
}

} // verus!
