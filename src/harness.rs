use vstd::prelude::*;

use crate::execution::{Execution, Phase};
use crate::service::SubProcessService;
use crate::step::{running_of, TestStep};

verus! {

/// The owner of a service registry and of a step sequence.
///
/// Services and steps are registered in order; `execute` then consumes the
/// harness into a single run over them.
pub struct TestHarness {
    pub test_name: String,
    pub root_dir: String,
    pub services: Vec<SubProcessService>,
    pub steps: Vec<TestStep>,
}

impl TestHarness {
    /// An empty harness.
    pub fn new(test_name: &str, root_dir: &str) -> (r: Self)
        ensures
            r.test_name@ == test_name@,
            r.root_dir@ == root_dir@,
            r.services@.len() == 0,
            r.steps@.len() == 0,
    {
        TestHarness {
            test_name: test_name.to_owned(),
            root_dir: root_dir.to_owned(),
            services: Vec::new(),
            steps: Vec::new(),
        }
    }

    /// Registers `service` after those already registered.
    pub fn add_service(&mut self, service: SubProcessService)
        ensures
            final(self).services@ == old(self).services@.push(service),
            final(self).steps@ == old(self).steps@,
            final(self).test_name == old(self).test_name,
            final(self).root_dir == old(self).root_dir,
    {
        self.services.push(service);
    }

    /// Appends `step` to the sequence.
    pub fn add_step(&mut self, step: TestStep)
        ensures
            final(self).steps@ == old(self).steps@.push(step),
            final(self).services@ == old(self).services@,
            final(self).test_name == old(self).test_name,
            final(self).root_dir == old(self).root_dir,
    {
        self.steps.push(step);
    }

    /// Begins the one run of this harness: no step has been handed out yet.
    pub fn execute(self) -> (r: Execution)
        ensures
            r.wf(),
            r.spec_services() == self.services@,
            r.spec_steps() == self.steps@,
            r.spec_cursor() == 0,
            r.spec_phase() == Phase::Ready,
            r.initial() == running_of(self.services@),
    {
        Execution::new(self.services, self.steps)
    }
}

} // verus!
