//! Orchestration of named long-running services driven by an ordered list of
//! test steps, with reverse-order teardown of running services on failure.
//!
//! The library holds every decision of a run as a verified state machine
//! (`Execution`); the caller performs the process and asynchronous work that
//! each `Action` asks for and reports back an `Event`.

pub mod error;
pub mod service;
pub mod step;
pub mod execution;
pub mod harness;
pub mod test_step;

pub use error::HarnessError;
pub use execution::{stop_order_of, Action, Event, Execution, Phase};
pub use harness::TestHarness;
pub use service::{Service, SubProcessService};
pub use step::{
    AsyncFnStep, ServiceStep, ServiceStepExecutor, SubProcessServiceStarter,
    SubProcessServiceStopper, TestStep,
};
pub use test_step::Harness;
