use vstd::prelude::*;

use crate::error::HarnessError;
use crate::service::{Service, SubProcessService};

verus! {

/// The running flag of each service, in registration order.
pub open spec fn running_of(services: Seq<SubProcessService>) -> Seq<bool> {
    services.map_values(|s: SubProcessService| s.running)
}

/// `s` with its running flag replaced.
pub open spec fn with_running(s: SubProcessService, running: bool) -> SubProcessService {
    SubProcessService { name: s.name, command: s.command, args: s.args, running }
}

/// What a service step requires of the registry before any process work:
/// a valid target, not running for a start, running for a stop.
pub open spec fn check_spec(
    starts: bool,
    target: usize,
    name: String,
    services: Seq<SubProcessService>,
) -> Result<(), HarnessError> {
    if target >= services.len() {
        Err(HarnessError::InvalidServiceIndex(target))
    } else if starts && services[target as int].running {
        Err(HarnessError::AlreadyRunning(name))
    } else if !starts && !services[target as int].running {
        Err(HarnessError::NotRunning(name))
    } else {
        Ok(())
    }
}

/// The registry after a service step whose process work produced `outcome`.
///
/// When the check fails, nothing changes and no outcome is consulted. A start
/// leaves the target running exactly when the spawn succeeded; a stop always
/// drops the target's handle.
pub open spec fn execute_after(
    starts: bool,
    target: usize,
    name: String,
    before: Seq<SubProcessService>,
    outcome: Result<(), String>,
) -> Seq<SubProcessService> {
    match check_spec(starts, target, name, before) {
        Err(_) => before,
        Ok(()) => before.update(
            target as int,
            with_running(before[target as int], starts && outcome is Ok),
        ),
    }
}

/// The result of a service step whose process work produced `outcome`.
pub open spec fn execute_result(
    starts: bool,
    target: usize,
    name: String,
    before: Seq<SubProcessService>,
    outcome: Result<(), String>,
) -> Result<(), HarnessError> {
    match check_spec(starts, target, name, before) {
        Err(e) => Err(e),
        Ok(()) => match outcome {
            Ok(()) => Ok(()),
            Err(cause) => Err(
                if starts {
                    HarnessError::SpawnFailure(name, cause)
                } else {
                    HarnessError::StopFailure(name, cause)
                },
            ),
        },
    }
}

/// Starting a service that already runs is refused with `AlreadyRunning`
/// before any process work, whatever a spawn would have reported, and leaves
/// the registry as it was.
pub proof fn lemma_start_of_running_refused(
    step: SubProcessServiceStarter,
    services: Seq<SubProcessService>,
    outcome: Result<(), String>,
)
    requires
        step.service_idx < services.len(),
        services[step.service_idx as int].running,
    ensures
        check_spec(step.spec_starts(), step.spec_target(), step.spec_name(), services)
            == Err::<(), HarnessError>(HarnessError::AlreadyRunning(step.name)),
        execute_result(step.spec_starts(), step.spec_target(), step.spec_name(), services, outcome)
            == Err::<(), HarnessError>(HarnessError::AlreadyRunning(step.name)),
        execute_after(step.spec_starts(), step.spec_target(), step.spec_name(), services, outcome)
            == services,
{
}

/// Stopping a service that does not run is refused with `NotRunning` before
/// any termination request, and leaves the registry as it was.
pub proof fn lemma_stop_of_stopped_refused(
    step: SubProcessServiceStopper,
    services: Seq<SubProcessService>,
    outcome: Result<(), String>,
)
    requires
        step.service_idx < services.len(),
        !services[step.service_idx as int].running,
    ensures
        check_spec(step.spec_starts(), step.spec_target(), step.spec_name(), services)
            == Err::<(), HarnessError>(HarnessError::NotRunning(step.name)),
        execute_result(step.spec_starts(), step.spec_target(), step.spec_name(), services, outcome)
            == Err::<(), HarnessError>(HarnessError::NotRunning(step.name)),
        execute_after(step.spec_starts(), step.spec_target(), step.spec_name(), services, outcome)
            == services,
{
}

/// A step that starts or stops one service of the registry.
pub trait ServiceStepExecutor {
    /// True for a start, false for a stop.
    spec fn spec_starts(&self) -> bool;

    /// The position of the targeted service in the registry.
    spec fn spec_target(&self) -> usize;

    /// The step's name, carried by its errors.
    spec fn spec_name(&self) -> String;

    /// The pause, in milliseconds, that follows a successful step.
    spec fn spec_delay(&self) -> Option<u64>;

    fn starts(&self) -> (r: bool)
        ensures
            r == self.spec_starts(),
    ;

    fn target(&self) -> (r: usize)
        ensures
            r == self.spec_target(),
    ;

    fn delay(&self) -> (r: Option<u64>)
        ensures
            r == self.spec_delay(),
    ;

    /// Decides, before any process work, whether the step may proceed.
    fn check(&self, services: &Vec<SubProcessService>) -> (r: Result<(), HarnessError>)
        ensures
            r == check_spec(self.spec_starts(), self.spec_target(), self.spec_name(), services@),
    ;

    /// Applies the step to the registry, given the outcome of its process work.
    fn execute(&self, services: &mut Vec<SubProcessService>, outcome: Result<(), String>) -> (r:
        Result<(), HarnessError>)
        ensures
            final(services)@ == execute_after(
                self.spec_starts(),
                self.spec_target(),
                self.spec_name(),
                old(services)@,
                outcome,
            ),
            r == execute_result(
                self.spec_starts(),
                self.spec_target(),
                self.spec_name(),
                old(services)@,
                outcome,
            ),
    ;
}

/// Starts the service at `service_idx`, then pauses `wait_after` milliseconds.
#[derive(Clone, Debug)]
pub struct SubProcessServiceStarter {
    pub name: String,
    pub description: String,
    pub service_idx: usize,
    pub wait_after: Option<u64>,
}

/// Stops the service at `service_idx`, then pauses `wait_after` milliseconds.
#[derive(Clone, Debug)]
pub struct SubProcessServiceStopper {
    pub name: String,
    pub description: String,
    pub service_idx: usize,
    pub wait_after: Option<u64>,
}

fn check_target(starts: bool, target: usize, name: &String, services: &Vec<SubProcessService>) -> (r:
    Result<(), HarnessError>)
    ensures
        r == check_spec(starts, target, *name, services@),
{
    if target >= services.len() {
        Err(HarnessError::InvalidServiceIndex(target))
    } else if starts && services[target].running {
        Err(HarnessError::AlreadyRunning(name.clone()))
    } else if !starts && !services[target].running {
        Err(HarnessError::NotRunning(name.clone()))
    } else {
        Ok(())
    }
}

impl ServiceStepExecutor for SubProcessServiceStarter {
    open spec fn spec_starts(&self) -> bool {
        true
    }

    open spec fn spec_target(&self) -> usize {
        self.service_idx
    }

    open spec fn spec_name(&self) -> String {
        self.name
    }

    open spec fn spec_delay(&self) -> Option<u64> {
        self.wait_after
    }

    fn starts(&self) -> (r: bool) {
        true
    }

    fn target(&self) -> (r: usize) {
        self.service_idx
    }

    fn delay(&self) -> (r: Option<u64>) {
        self.wait_after
    }

    fn check(&self, services: &Vec<SubProcessService>) -> (r: Result<(), HarnessError>) {
        check_target(true, self.service_idx, &self.name, services)
    }

    fn execute(&self, services: &mut Vec<SubProcessService>, outcome: Result<(), String>) -> (r:
        Result<(), HarnessError>) {
        let checked = check_target(true, self.service_idx, &self.name, services);
        if let Err(e) = checked {
            return Err(e);
        }
        match outcome {
            Ok(()) => {
                services[self.service_idx].running = true;
                Ok(())
            },
            Err(cause) => {
                proof {
                    let t = self.service_idx as int;
                    assert(services@.update(t, with_running(services@[t], false)) =~= services@);
                }
                Err(HarnessError::SpawnFailure(self.name.clone(), cause))
            },
        }
    }
}

impl ServiceStepExecutor for SubProcessServiceStopper {
    open spec fn spec_starts(&self) -> bool {
        false
    }

    open spec fn spec_target(&self) -> usize {
        self.service_idx
    }

    open spec fn spec_name(&self) -> String {
        self.name
    }

    open spec fn spec_delay(&self) -> Option<u64> {
        self.wait_after
    }

    fn starts(&self) -> (r: bool) {
        false
    }

    fn target(&self) -> (r: usize) {
        self.service_idx
    }

    fn delay(&self) -> (r: Option<u64>) {
        self.wait_after
    }

    fn check(&self, services: &Vec<SubProcessService>) -> (r: Result<(), HarnessError>) {
        check_target(false, self.service_idx, &self.name, services)
    }

    fn execute(&self, services: &mut Vec<SubProcessService>, outcome: Result<(), String>) -> (r:
        Result<(), HarnessError>) {
        let checked = check_target(false, self.service_idx, &self.name, services);
        if let Err(e) = checked {
            return Err(e);
        }
        services[self.service_idx].running = false;
        match outcome {
            Ok(()) => Ok(()),
            Err(cause) => Err(HarnessError::StopFailure(self.name.clone(), cause)),
        }
    }
}

/// The two built-in service steps.
#[derive(Clone, Debug)]
pub enum ServiceStep {
    Start(SubProcessServiceStarter),
    Stop(SubProcessServiceStopper),
}

impl ServiceStepExecutor for ServiceStep {
    open spec fn spec_starts(&self) -> bool {
        self is Start
    }

    open spec fn spec_target(&self) -> usize {
        match self {
            ServiceStep::Start(s) => s.service_idx,
            ServiceStep::Stop(s) => s.service_idx,
        }
    }

    open spec fn spec_name(&self) -> String {
        match self {
            ServiceStep::Start(s) => s.name,
            ServiceStep::Stop(s) => s.name,
        }
    }

    open spec fn spec_delay(&self) -> Option<u64> {
        match self {
            ServiceStep::Start(s) => s.wait_after,
            ServiceStep::Stop(s) => s.wait_after,
        }
    }

    fn starts(&self) -> (r: bool) {
        match self {
            ServiceStep::Start(_) => true,
            ServiceStep::Stop(_) => false,
        }
    }

    fn target(&self) -> (r: usize) {
        match self {
            ServiceStep::Start(s) => s.target(),
            ServiceStep::Stop(s) => s.target(),
        }
    }

    fn delay(&self) -> (r: Option<u64>) {
        match self {
            ServiceStep::Start(s) => s.delay(),
            ServiceStep::Stop(s) => s.delay(),
        }
    }

    fn check(&self, services: &Vec<SubProcessService>) -> (r: Result<(), HarnessError>) {
        match self {
            ServiceStep::Start(s) => s.check(services),
            ServiceStep::Stop(s) => s.check(services),
        }
    }

    fn execute(&self, services: &mut Vec<SubProcessService>, outcome: Result<(), String>) -> (r:
        Result<(), HarnessError>) {
        match self {
            ServiceStep::Start(s) => s.execute(services, outcome),
            ServiceStep::Stop(s) => s.execute(services, outcome),
        }
    }
}

/// A step whose work is an awaited operation held by the driver.
///
/// The library knows the step by its name and its position in the sequence;
/// the driver runs the operation to completion and reports its outcome.
#[derive(Clone, Debug)]
pub struct AsyncFnStep {
    pub name: String,
    pub description: String,
}

/// One unit of the test sequence.
#[derive(Clone, Debug)]
pub enum TestStep {
    /// Starts or stops a service of the registry.
    Service(ServiceStep),
    /// Runs an asynchronous check to completion.
    AsyncFn(AsyncFnStep),
}

} // verus!
