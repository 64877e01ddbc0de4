use harness::{
    stop_order_of, Action, AsyncFnStep, Event, Execution, Harness, HarnessError, Phase, Service,
    ServiceStep, ServiceStepExecutor, SubProcessService, SubProcessServiceStarter,
    SubProcessServiceStopper, TestHarness, TestStep,
};

fn python_service(name: &str, port: &str) -> SubProcessService {
    SubProcessService::new(
        name.to_string(),
        "python3".to_string(),
        vec!["-m".to_string(), "http.server".to_string(), port.to_string()],
    )
}

fn echo() -> SubProcessService {
    SubProcessService::new("echo".to_string(), "echo".to_string(), vec![])
}

fn start(name: &str, description: &str, idx: usize, wait_after: Option<u64>) -> TestStep {
    TestStep::Service(ServiceStep::Start(SubProcessServiceStarter {
        name: name.to_string(),
        description: description.to_string(),
        service_idx: idx,
        wait_after,
    }))
}

fn stop(name: &str, description: &str, idx: usize, wait_after: Option<u64>) -> TestStep {
    TestStep::Service(ServiceStep::Stop(SubProcessServiceStopper {
        name: name.to_string(),
        description: description.to_string(),
        service_idx: idx,
        wait_after,
    }))
}

fn check(name: &str, description: &str) -> TestStep {
    TestStep::AsyncFn(AsyncFnStep {
        name: name.to_string(),
        description: description.to_string(),
    })
}

/// Drives a run to its end, answering each action with `answer`, and returns
/// every action handed out.
fn drive(exec: &mut Execution, mut answer: impl FnMut(&Action) -> Event) -> Vec<Action> {
    let mut actions = Vec::new();
    loop {
        let a = exec.next_action();
        actions.push(a.clone());
        match a {
            Action::Complete | Action::Abort(_, _) => return actions,
            other => exec.on_event(answer(&other)),
        }
    }
}

fn all_ok(_: &Action) -> Event {
    Event::Outcome(Ok(()))
}

#[test]
fn test_start_stop() {
    let mut harness = Harness::new("PythonServerTester", ".");
    harness.add_service(python_service("Python_HTTP_Service", "8081"));
    harness.add_step(start("Python_HTTP_Service", "Starts the Python HTTP server", 0, None));
    harness.add_step(stop("Python_HTTP_Service", "Stops the Python HTTP server", 0, None));
    let mut exec = harness.execute();
    let actions = drive(&mut exec, all_ok);
    assert_eq!(actions, vec![Action::Spawn(0), Action::Kill(0), Action::Complete]);
    assert!(!exec.services()[0].running);
    assert!(exec.is_finished());
}

#[test]
fn test_start_callapi_stop_python_serve() {
    let mut harness = TestHarness::new("PythonServerTester", ".");
    harness.add_service(python_service("Python_HTTP_Service", "12345"));
    harness.add_step(start("Python_HTTP_Service", "Starts the Python HTTP server", 0, Some(2000)));
    harness.add_step(check("Call_API", "Check API response being 200"));
    harness.add_step(stop("Python_HTTP_Service", "Stops the Python HTTP server", 0, None));
    assert_eq!(harness.test_name, "PythonServerTester");
    assert_eq!(harness.root_dir, ".");
    let mut exec = harness.execute();
    let actions = drive(&mut exec, all_ok);
    assert_eq!(
        actions,
        vec![
            Action::Spawn(0),
            Action::Sleep(2000),
            Action::RunAsync(1),
            Action::Kill(0),
            Action::Complete
        ]
    );
    assert!(!exec.services()[0].running);
}

#[test]
fn scenario_a_all_steps_succeed() {
    let mut harness = TestHarness::new("echo test", "/tmp");
    harness.add_service(echo());
    harness.add_step(start("echo", "start echo", 0, None));
    harness.add_step(check("get", "GET against echo's port"));
    harness.add_step(stop("echo", "stop echo", 0, None));
    let mut exec = harness.execute();
    let actions = drive(&mut exec, all_ok);
    assert_eq!(actions.last(), Some(&Action::Complete));
    assert!(!exec.services()[0].running);
    assert_eq!(exec.cursor(), 3);
}

#[test]
fn scenario_b_second_start_fails_and_cleans_up() {
    let mut harness = TestHarness::new("double start", ".");
    harness.add_service(echo());
    harness.add_step(start("echo", "first", 0, None));
    harness.add_step(start("echo", "second", 0, None));
    let mut exec = harness.execute();
    let actions = drive(&mut exec, all_ok);
    assert_eq!(
        actions,
        vec![
            Action::Spawn(0),
            Action::Abort(HarnessError::AlreadyRunning("echo".to_string()), vec![0])
        ]
    );
    assert!(!exec.services()[0].running);
}

#[test]
fn scenario_c_stop_of_never_started() {
    let mut harness = TestHarness::new("stop first", ".");
    harness.add_service(echo());
    harness.add_step(stop("echo", "stop", 0, None));
    let mut exec = harness.execute();
    let actions = drive(&mut exec, all_ok);
    assert_eq!(
        actions,
        vec![Action::Abort(HarnessError::NotRunning("echo".to_string()), vec![])]
    );
}

#[test]
fn scenario_d_async_failure_stops_started_service() {
    let mut harness = TestHarness::new("refused", ".");
    harness.add_service(echo());
    harness.add_step(start("echo", "start", 0, None));
    harness.add_step(check("get", "GET"));
    harness.add_step(stop("echo", "stop", 0, None));
    let mut exec = harness.execute();
    let actions = drive(&mut exec, |a| match a {
        Action::RunAsync(_) => Event::Outcome(Err("connection refused".to_string())),
        _ => Event::Outcome(Ok(())),
    });
    assert_eq!(
        actions,
        vec![
            Action::Spawn(0),
            Action::RunAsync(1),
            Action::Abort(
                HarnessError::AsyncStepFailure("connection refused".to_string()),
                vec![0]
            )
        ]
    );
    assert!(!exec.services()[0].running);
}

#[test]
fn cleanup_visits_running_services_last_first() {
    let mut harness = TestHarness::new("sweep", ".");
    for name in ["a", "b", "c", "d"] {
        harness.add_service(SubProcessService::new(name.to_string(), "true".to_string(), vec![]));
    }
    harness.add_step(start("a", "", 0, None));
    harness.add_step(start("c", "", 2, None));
    harness.add_step(start("d", "", 3, None));
    harness.add_step(stop("c", "", 2, None));
    harness.add_step(stop("b", "", 1, None));
    let mut exec = harness.execute();
    let actions = drive(&mut exec, all_ok);
    assert_eq!(
        actions.last(),
        Some(&Action::Abort(HarnessError::NotRunning("b".to_string()), vec![3, 0]))
    );
    assert!(exec.services().iter().all(|s| !s.running));
}

#[test]
fn stop_order_lists_running_in_reverse() {
    let mut services = Vec::new();
    for (i, running) in [true, false, true, true, false].iter().enumerate() {
        let mut s = SubProcessService::new(format!("s{}", i), "x".to_string(), vec![]);
        s.running = *running;
        services.push(s);
    }
    assert_eq!(stop_order_of(&services), vec![3, 2, 0]);
    assert_eq!(stop_order_of(&Vec::new()), Vec::<usize>::new());
}

#[test]
fn empty_sequence_completes() {
    let mut exec = TestHarness::new("empty", ".").execute();
    assert_eq!(exec.next_action(), Action::Complete);
    assert!(exec.is_finished());
}

#[test]
fn invalid_index_is_reported() {
    let mut harness = TestHarness::new("bad index", ".");
    harness.add_service(echo());
    harness.add_step(start("ghost", "", 5, None));
    let mut exec = harness.execute();
    assert_eq!(
        exec.next_action(),
        Action::Abort(HarnessError::InvalidServiceIndex(5), vec![])
    );
}

#[test]
fn spawn_failure_is_reported() {
    let mut harness = TestHarness::new("spawn", ".");
    harness.add_service(echo());
    harness.add_service(SubProcessService::new("missing".to_string(), "nope".to_string(), vec![]));
    harness.add_step(start("echo", "", 0, None));
    harness.add_step(start("missing", "", 1, Some(10)));
    let mut exec = harness.execute();
    let actions = drive(&mut exec, |a| match a {
        Action::Spawn(1) => Event::Outcome(Err("not found".to_string())),
        _ => Event::Outcome(Ok(())),
    });
    assert_eq!(
        actions,
        vec![
            Action::Spawn(0),
            Action::Spawn(1),
            Action::Abort(
                HarnessError::SpawnFailure("missing".to_string(), "not found".to_string()),
                vec![0]
            )
        ]
    );
}

#[test]
fn stop_failure_drops_handle_and_is_reported() {
    let mut harness = TestHarness::new("kill", ".");
    harness.add_service(echo());
    harness.add_step(start("echo", "", 0, None));
    harness.add_step(stop("echo", "", 0, None));
    let mut exec = harness.execute();
    let actions = drive(&mut exec, |a| match a {
        Action::Kill(_) => Event::Outcome(Err("denied".to_string())),
        _ => Event::Outcome(Ok(())),
    });
    assert_eq!(
        actions.last(),
        Some(&Action::Abort(
            HarnessError::StopFailure("echo".to_string(), "denied".to_string()),
            vec![]
        ))
    );
}

#[test]
fn driver_setup_failure_is_reported() {
    let mut harness = TestHarness::new("driver", ".");
    harness.add_service(echo());
    harness.add_step(start("echo", "", 0, None));
    harness.add_step(check("get", ""));
    let mut exec = harness.execute();
    let actions = drive(&mut exec, |a| match a {
        Action::RunAsync(_) => Event::DriverUnavailable("out of threads".to_string()),
        _ => Event::Outcome(Ok(())),
    });
    assert_eq!(
        actions.last(),
        Some(&Action::Abort(
            HarnessError::AsyncTaskSetupFailure("out of threads".to_string()),
            vec![0]
        ))
    );
}

#[test]
fn pause_follows_successful_stop() {
    let mut harness = TestHarness::new("pause", ".");
    harness.add_service(echo());
    harness.add_step(start("echo", "", 0, Some(5)));
    harness.add_step(stop("echo", "", 0, Some(7)));
    let mut exec = harness.execute();
    assert_eq!(exec.next_action(), Action::Spawn(0));
    assert_eq!(exec.phase(), &Phase::AwaitService);
    exec.on_event(Event::Outcome(Ok(())));
    assert_eq!(exec.phase(), &Phase::Settle(5));
    assert_eq!(exec.cursor(), 0);
    assert_eq!(exec.next_action(), Action::Sleep(5));
    exec.on_event(Event::Outcome(Ok(())));
    assert_eq!(exec.cursor(), 1);
    assert_eq!(exec.next_action(), Action::Kill(0));
    exec.on_event(Event::Outcome(Ok(())));
    assert_eq!(exec.next_action(), Action::Sleep(7));
    exec.on_event(Event::Outcome(Ok(())));
    assert_eq!(exec.next_action(), Action::Complete);
}

#[test]
fn executors_check_and_apply() {
    let starter = SubProcessServiceStarter {
        name: "st".to_string(),
        description: String::new(),
        service_idx: 0,
        wait_after: None,
    };
    let stopper = SubProcessServiceStopper {
        name: "sp".to_string(),
        description: String::new(),
        service_idx: 0,
        wait_after: Some(3),
    };
    let mut services = vec![echo()];
    assert_eq!(stopper.check(&services), Err(HarnessError::NotRunning("sp".to_string())));
    assert_eq!(starter.check(&services), Ok(()));
    assert_eq!(starter.execute(&mut services, Ok(())), Ok(()));
    assert!(services[0].running);
    assert_eq!(
        starter.execute(&mut services, Ok(())),
        Err(HarnessError::AlreadyRunning("st".to_string()))
    );
    assert!(starter.starts() && !stopper.starts());
    assert_eq!((starter.target(), stopper.delay()), (0, Some(3)));
    assert_eq!(stopper.execute(&mut services, Ok(())), Ok(()));
    assert!(!services[0].running);
}

#[test]
fn service_records_start_and_stop() {
    let mut s = echo();
    assert!(!s.is_running());
    assert_eq!(s.stop(Ok(())), Ok(()));
    assert_eq!(
        s.start(Err("no such file".to_string())),
        Err(HarnessError::SpawnFailure("echo".to_string(), "no such file".to_string()))
    );
    assert!(!s.is_running());
    assert_eq!(s.start(Ok(())), Ok(()));
    assert!(s.is_running());
    assert_eq!(s.start(Ok(())), Err(HarnessError::AlreadyRunning("echo".to_string())));
    assert_eq!(
        s.stop(Err("denied".to_string())),
        Err(HarnessError::StopFailure("echo".to_string(), "denied".to_string()))
    );
    assert!(!s.is_running());
}
