use vstd::prelude::*;

use crate::error::HarnessError;

verus! {

/// A controllable external process, as seen by the harness.
///
/// The process work itself (spawning, signalling) is done by the driver; a
/// service records the outcome of that work and answers whether it holds a
/// live process handle.
pub trait Service {
    /// Whether a process handle is currently held.
    spec fn spec_running(&self) -> bool;

    /// The name used in diagnostics.
    spec fn spec_name(&self) -> String;

    fn is_running(&self) -> (r: bool)
        ensures
            r == self.spec_running(),
    ;

    /// Records a start. When a handle is already held the start is refused
    /// and no spawn outcome is consulted; otherwise the spawn outcome decides.
    fn start(&mut self, spawned: Result<(), String>) -> (r: Result<(), HarnessError>)
        ensures
            final(self).spec_name() == old(self).spec_name(),
            old(self).spec_running() ==> r == Err::<(), HarnessError>(
                HarnessError::AlreadyRunning(old(self).spec_name()),
            ) && final(self).spec_running(),
            !old(self).spec_running() ==> match spawned {
                Ok(()) => r is Ok && final(self).spec_running(),
                Err(cause) => r == Err::<(), HarnessError>(
                    HarnessError::SpawnFailure(old(self).spec_name(), cause),
                ) && !final(self).spec_running(),
            },
    ;

    /// Records a stop. Without a handle this is a successful no-op; with one,
    /// the handle is dropped whatever the termination outcome was.
    fn stop(&mut self, killed: Result<(), String>) -> (r: Result<(), HarnessError>)
        ensures
            final(self).spec_name() == old(self).spec_name(),
            !final(self).spec_running(),
            !old(self).spec_running() ==> r is Ok,
            old(self).spec_running() ==> match killed {
                Ok(()) => r is Ok,
                Err(cause) => r == Err::<(), HarnessError>(
                    HarnessError::StopFailure(old(self).spec_name(), cause),
                ),
            },
    ;
}

/// A service that runs `command` with `args` as a child process.
///
/// `running` stands for the child handle: it is true exactly while one is held.
#[derive(Clone, Debug)]
pub struct SubProcessService {
    pub name: String,
    pub command: String,
    pub args: Vec<String>,
    pub running: bool,
}

impl SubProcessService {
    /// A service that has not been started yet.
    pub fn new(name: String, command: String, args: Vec<String>) -> (r: Self)
        ensures
            r.name == name,
            r.command == command,
            r.args == args,
            !r.running,
    {
        SubProcessService { name, command, args, running: false }
    }
}

impl Service for SubProcessService {
    open spec fn spec_running(&self) -> bool {
        self.running
    }

    open spec fn spec_name(&self) -> String {
        self.name
    }

    fn is_running(&self) -> (r: bool) {
        self.running
    }

    fn start(&mut self, spawned: Result<(), String>) -> (r: Result<(), HarnessError>) {
        if self.running {
            return Err(HarnessError::AlreadyRunning(self.name.clone()));
        }
        match spawned {
            Ok(()) => {
                self.running = true;
                Ok(())
            },
            Err(cause) => Err(HarnessError::SpawnFailure(self.name.clone(), cause)),
        }
    }

    fn stop(&mut self, killed: Result<(), String>) -> (r: Result<(), HarnessError>) {
        if !self.running {
            return Ok(());
        }
        self.running = false;
        match killed {
            Ok(()) => Ok(()),
            Err(cause) => Err(HarnessError::StopFailure(self.name.clone(), cause)),
        }
    }
}

} // verus!
