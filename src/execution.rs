use vstd::prelude::*;

use crate::error::HarnessError;
use crate::service::SubProcessService;
use crate::step::{
    check_spec, execute_after, execute_result, running_of, with_running, ServiceStep,
    ServiceStepExecutor, TestStep,
};

verus! {

/// The running flags that result from applying, in order, every service step
/// of `steps` to `running`: each service ends as the last step aimed at it
/// left it, and an asynchronous step changes nothing.
pub open spec fn applied(running: Seq<bool>, steps: Seq<TestStep>) -> Seq<bool>
    decreases steps.len(),
{
    if steps.len() == 0 {
        running
    } else {
        let before = applied(running, steps.drop_last());
        match steps.last() {
            TestStep::Service(s) => if s.spec_target() < before.len() {
                before.update(s.spec_target() as int, s.spec_starts())
            } else {
                before
            },
            TestStep::AsyncFn(_) => before,
        }
    }
}

/// The positions below `k` whose flag is set, from the highest down.
pub open spec fn stop_order_below(running: Seq<bool>, k: int) -> Seq<usize>
    decreases k,
{
    if k <= 0 {
        Seq::empty()
    } else if running[k - 1] {
        seq![(k - 1) as usize] + stop_order_below(running, k - 1)
    } else {
        stop_order_below(running, k - 1)
    }
}

/// The cleanup sweep: every running service, last registered first.
pub open spec fn stop_order(running: Seq<bool>) -> Seq<usize> {
    stop_order_below(running, running.len() as int)
}

/// Every service of `services`, stopped.
pub open spec fn all_stopped(services: Seq<SubProcessService>) -> Seq<SubProcessService> {
    services.map_values(|s: SubProcessService| with_running(s, false))
}

/// Where a run stands between two calls of the driver.
#[derive(Clone, Debug, PartialEq, Eq)]
pub enum Phase {
    /// The step at the cursor, or the end of the sequence, comes next.
    Ready,
    /// The process work of the service step at the cursor is out.
    AwaitService,
    /// The asynchronous step at the cursor is running.
    AwaitAsync,
    /// The step at the cursor succeeded; its pause, in milliseconds, comes next.
    Settle(u64),
    /// The pause after the step at the cursor is out.
    AwaitSettle,
    /// A step failed; the cleanup sweep comes next.
    Failing(HarnessError),
    /// The run has ended.
    Finished,
}

/// What the driver is asked to do next.
#[derive(Clone, Debug, PartialEq, Eq)]
pub enum Action {
    /// Spawn the process of the service at this position.
    Spawn(usize),
    /// Send a termination request to the process of the service at this position.
    Kill(usize),
    /// Run the asynchronous operation of the step at this position to completion.
    RunAsync(usize),
    /// Pause for this many milliseconds.
    Sleep(u64),
    /// The run failed with this error. Send a termination request to each listed
    /// service, in the order given, continuing past any that fails.
    Abort(HarnessError, Vec<usize>),
    /// Every step succeeded.
    Complete,
}

/// What the driver reports after doing what it was asked.
#[derive(Debug)]
pub enum Event {
    /// The requested work finished, with this outcome.
    Outcome(Result<(), String>),
    /// The asynchronous task driver could not be constructed; the cause.
    DriverUnavailable(String),
}

/// The setting left on service `i` by the last service step of `steps` aimed
/// at it, if any.
pub open spec fn last_setting(steps: Seq<TestStep>, i: int) -> Option<bool>
    decreases steps.len(),
{
    if steps.len() == 0 {
        None
    } else {
        match steps.last() {
            TestStep::Service(s) => if s.spec_target() as int == i {
                Some(s.spec_starts())
            } else {
                last_setting(steps.drop_last(), i)
            },
            TestStep::AsyncFn(_) => last_setting(steps.drop_last(), i),
        }
    }
}

/// After a sequence of steps, each service is running exactly as the last
/// starter or stopper aimed at it left it, or as it was if none was.
pub proof fn lemma_last_step_wins(running: Seq<bool>, steps: Seq<TestStep>, i: int)
    requires
        0 <= i < running.len(),
    ensures
        applied(running, steps)[i] == match last_setting(steps, i) {
            Some(b) => b,
            None => running[i],
        },
    decreases steps.len(),
{
    if steps.len() > 0 {
        lemma_last_step_wins(running, steps.drop_last(), i);
        lemma_applied_len(running, steps.drop_last());
    }
}

proof fn lemma_stop_order_below(running: Seq<bool>, k: int)
    requires
        0 <= k <= running.len() <= usize::MAX,
    ensures
        forall|j: int|
            0 <= j < stop_order_below(running, k).len() ==> stop_order_below(running, k)[j] < k,
        forall|i: int|
            0 <= i < k ==> (running[i] <==> stop_order_below(running, k).contains(i as usize)),
        forall|a: int, b: int|
            0 <= a < b < stop_order_below(running, k).len() ==> stop_order_below(running, k)[a]
                > stop_order_below(running, k)[b],
    decreases k,
{
    if k > 0 {
        lemma_stop_order_below(running, k - 1);
        let rest = stop_order_below(running, k - 1);
        if running[k - 1] {
            let all = seq![(k - 1) as usize] + rest;
            assert(all[0] == (k - 1) as usize);
            assert forall|j: int| 0 < j < all.len() implies all[j] == rest[j - 1] by {}
            assert forall|i: int| 0 <= i < k implies (running[i] <==> all.contains(i as usize)) by {
                if running[i] {
                    if i == k - 1 {
                        assert(all[0] == i as usize);
                    } else {
                        let j = choose|j: int| 0 <= j < rest.len() && rest[j] == i as usize;
                        assert(all[j + 1] == i as usize);
                    }
                }
                if all.contains(i as usize) {
                    let j = choose|j: int| 0 <= j < all.len() && all[j] == i as usize;
                    if j > 0 {
                        assert(rest[j - 1] == i as usize);
                        assert(rest.contains(i as usize));
                    }
                }
            }
        } else {
            assert forall|i: int| 0 <= i < k implies (running[i] <==> rest.contains(i as usize)) by {
                if rest.contains(i as usize) {
                    let j = choose|j: int| 0 <= j < rest.len() && rest[j] == i as usize;
                    assert(rest[j] < k - 1);
                }
            }
        }
    }
}

/// The cleanup sweep lists every running service and no stopped one, each
/// once, strictly from the last registered down to the first.
pub proof fn lemma_stop_order(running: Seq<bool>)
    requires
        running.len() <= usize::MAX,
    ensures
        forall|i: int|
            0 <= i < running.len() ==> (running[i] <==> stop_order(running).contains(i as usize)),
        forall|j: int| 0 <= j < stop_order(running).len() ==> stop_order(running)[j] < running.len(),
        forall|a: int, b: int|
            0 <= a < b < stop_order(running).len() ==> stop_order(running)[a] > stop_order(
                running,
            )[b],
{
    lemma_stop_order_below(running, running.len() as int);
}

/// Applying steps keeps one flag per service.
pub proof fn lemma_applied_len(running: Seq<bool>, steps: Seq<TestStep>)
    ensures
        applied(running, steps).len() == running.len(),
    decreases steps.len(),
{
    if steps.len() > 0 {
        lemma_applied_len(running, steps.drop_last());
    }
}

/// Applying one more step of a sequence applies exactly that step.
proof fn lemma_applied_next(running: Seq<bool>, steps: Seq<TestStep>, c: int)
    requires
        0 <= c < steps.len(),
    ensures
        applied(running, steps.take(c + 1)) == ({
            let before = applied(running, steps.take(c));
            match steps[c] {
                TestStep::Service(s) => if s.spec_target() < before.len() {
                    before.update(s.spec_target() as int, s.spec_starts())
                } else {
                    before
                },
                TestStep::AsyncFn(_) => before,
            }
        }),
{
    assert(steps.take(c + 1).drop_last() =~= steps.take(c));
    assert(steps.take(c + 1).last() == steps[c]);
}

/// Whether `after` is `before` once the run aborted with `e`, handing out `a`:
/// the error is the one given, every running service is listed for stopping,
/// last registered first, and every service ends stopped.
pub open spec fn aborted(before: Execution, after: Execution, e: HarnessError, a: Action) -> bool {
    &&& match a {
        Action::Abort(err, order) => err == e && order@ == stop_order(
            running_of(before.spec_services()),
        ),
        _ => false,
    }
    &&& after.spec_services() == all_stopped(before.spec_services())
    &&& after.spec_phase() is Finished
}

/// One run of a step sequence over a service registry.
///
/// Steps run strictly one after another: the step at the cursor must have
/// resolved (an `Event` reported) before the next one is handed out. On the
/// first failure every running service is stopped, last registered first, and
/// no later step runs.
pub struct Execution {
    services: Vec<SubProcessService>,
    steps: Vec<TestStep>,
    cursor: usize,
    phase: Phase,
    initial: Ghost<Seq<bool>>,
}

impl Execution {
    /// The running flags at the start of the run.
    pub closed spec fn initial(&self) -> Seq<bool> {
        self.initial@
    }

    pub closed spec fn spec_services(&self) -> Seq<SubProcessService> {
        self.services@
    }

    pub closed spec fn spec_steps(&self) -> Seq<TestStep> {
        self.steps@
    }

    pub closed spec fn spec_cursor(&self) -> nat {
        self.cursor as nat
    }

    pub closed spec fn spec_phase(&self) -> Phase {
        self.phase
    }

    /// Whether the run waits for the driver to act.
    pub open spec fn awaits_event(&self) -> bool {
        self.spec_phase() is AwaitService || self.spec_phase() is AwaitAsync
            || self.spec_phase() is AwaitSettle
    }

    /// Whether the run has a next action to hand out.
    pub open spec fn has_action(&self) -> bool {
        self.spec_phase() is Ready || self.spec_phase() is Settle || self.spec_phase() is Failing
    }

    /// The step at the cursor.
    pub open spec fn current(&self) -> TestStep {
        self.spec_steps()[self.spec_cursor() as int]
    }

    /// The running flags that the steps before the cursor left.
    pub open spec fn expected(&self) -> Seq<bool> {
        applied(self.initial(), self.spec_steps().take(self.spec_cursor() as int))
    }

    pub closed spec fn wf(&self) -> bool {
        &&& self.cursor <= self.steps.len()
        &&& self.initial@.len() == self.services@.len()
        &&& match self.phase {
            Phase::Ready => running_of(self.services@) == self.expected(),
            Phase::AwaitService => {
                &&& self.cursor < self.steps.len()
                &&& running_of(self.services@) == self.expected()
                &&& match self.current() {
                    TestStep::Service(s) => check_spec(
                        s.spec_starts(),
                        s.spec_target(),
                        s.spec_name(),
                        self.services@,
                    ) is Ok,
                    TestStep::AsyncFn(_) => false,
                }
            },
            Phase::AwaitAsync => {
                &&& self.cursor < self.steps.len()
                &&& running_of(self.services@) == self.expected()
                &&& self.current() is AsyncFn
            },
            Phase::Settle(_) | Phase::AwaitSettle => {
                &&& self.cursor < self.steps.len()
                &&& running_of(self.services@) == applied(
                    self.initial@,
                    self.steps@.take(self.cursor + 1),
                )
            },
            Phase::Failing(_) | Phase::Finished => true,
        }
    }

    /// A run over `services` that has not begun any of `steps`.
    pub fn new(services: Vec<SubProcessService>, steps: Vec<TestStep>) -> (r: Self)
        ensures
            r.wf(),
            r.spec_services() == services@,
            r.spec_steps() == steps@,
            r.spec_cursor() == 0,
            r.spec_phase() is Ready,
            r.initial() == running_of(services@),
    {
        let r = Execution {
            services,
            steps,
            cursor: 0,
            phase: Phase::Ready,
            initial: Ghost(running_of(services@)),
        };
        assert(r.steps@.take(0) =~= Seq::<TestStep>::empty());
        r
    }

    pub fn services(&self) -> (r: &Vec<SubProcessService>)
        ensures
            r@ == self.spec_services(),
    {
        &self.services
    }

    pub fn steps(&self) -> (r: &Vec<TestStep>)
        ensures
            r@ == self.spec_steps(),
    {
        &self.steps
    }

    pub fn cursor(&self) -> (r: usize)
        ensures
            r == self.spec_cursor(),
    {
        self.cursor
    }

    pub fn phase(&self) -> (r: &Phase)
        ensures
            *r == self.spec_phase(),
    {
        &self.phase
    }

    pub fn is_finished(&self) -> (r: bool)
        ensures
            r == self.spec_phase() is Finished,
    {
        matches!(self.phase, Phase::Finished)
    }

    /// Drops every service's handle and ends the run with `e`.
    fn abort(&mut self, e: HarnessError) -> (a: Action)
        requires
            old(self).wf(),
        ensures
            final(self).wf(),
            aborted(*old(self), *final(self), e, a),
            final(self).initial() == old(self).initial(),
            final(self).spec_steps() == old(self).spec_steps(),
            final(self).spec_cursor() == old(self).spec_cursor(),
    {
        let order = stop_order_of(&self.services);
        let ghost before = self.services@;
        let ghost initial = self.initial@;
        let ghost steps = self.steps@;
        let ghost cursor = self.cursor;
        let mut j: usize = 0;
        while j < self.services.len()
            invariant
                self.initial@ == initial,
                self.steps@ == steps,
                self.cursor == cursor,
                initial.len() == before.len(),
                cursor <= steps.len(),
                j <= self.services@.len(),
                self.services@.len() == before.len(),
                forall|k: int| 0 <= k < j ==> self.services@[k] == with_running(before[k], false),
                forall|k: int| j <= k < before.len() ==> self.services@[k] == before[k],
            decreases self.services@.len() - j,
        {
            self.services[j].running = false;
            j = j + 1;
        }
        assert(self.services@ =~= all_stopped(before));
        self.phase = Phase::Finished;
        Action::Abort(e, order)
    }

    /// Hands out the next action of the run and moves past it.
    ///
    /// At the end of the sequence the run completes. A service step whose
    /// check fails, or a failure reported earlier, aborts the run. Otherwise the
    /// process work, asynchronous operation or pause of the step at the cursor
    /// is handed out, and nothing later is.
    pub fn next_action(&mut self) -> (a: Action)
        requires
            old(self).wf(),
            old(self).has_action(),
        ensures
            final(self).wf(),
            final(self).initial() == old(self).initial(),
            final(self).spec_steps() == old(self).spec_steps(),
            final(self).spec_cursor() == old(self).spec_cursor(),
            old(self).spec_phase() is Ready && old(self).spec_cursor() == old(
                self,
            ).spec_steps().len() ==> {
                &&& a is Complete
                &&& final(self).spec_phase() is Finished
                &&& final(self).spec_services() == old(self).spec_services()
                &&& running_of(final(self).spec_services()) == applied(
                    old(self).initial(),
                    old(self).spec_steps(),
                )
            },
            old(self).spec_phase() is Ready && old(self).spec_cursor() < old(
                self,
            ).spec_steps().len() ==> match old(self).current() {
                TestStep::Service(s) => match check_spec(
                    s.spec_starts(),
                    s.spec_target(),
                    s.spec_name(),
                    old(self).spec_services(),
                ) {
                    Ok(()) => {
                        &&& a == if s.spec_starts() {
                            Action::Spawn(s.spec_target())
                        } else {
                            Action::Kill(s.spec_target())
                        }
                        &&& final(self).spec_phase() is AwaitService
                        &&& final(self).spec_services() == old(self).spec_services()
                    },
                    Err(e) => aborted(*old(self), *final(self), e, a),
                },
                TestStep::AsyncFn(_) => {
                    &&& a == Action::RunAsync(old(self).spec_cursor() as usize)
                    &&& final(self).spec_phase() is AwaitAsync
                    &&& final(self).spec_services() == old(self).spec_services()
                },
            },
            old(self).spec_phase() matches Phase::Settle(d) ==> {
                &&& a == Action::Sleep(d)
                &&& final(self).spec_phase() is AwaitSettle
                &&& final(self).spec_services() == old(self).spec_services()
            },
            old(self).spec_phase() matches Phase::Failing(e) ==> aborted(
                *old(self),
                *final(self),
                e,
                a,
            ),
    {
        let mut phase = Phase::Finished;
        core::mem::swap(&mut self.phase, &mut phase);
        match phase {
            Phase::Settle(d) => {
                self.phase = Phase::AwaitSettle;
                Action::Sleep(d)
            },
            Phase::Failing(e) => self.abort(e),
            _ => {
                if self.cursor == self.steps.len() {
                    proof {
                        assert(self.steps@.take(self.cursor as int) =~= self.steps@);
                    }
                    return Action::Complete;
                }
                let checked = match &self.steps[self.cursor] {
                    TestStep::Service(s) => match s.check(&self.services) {
                        Ok(()) => Ok(
                            if s.starts() {
                                Action::Spawn(s.target())
                            } else {
                                Action::Kill(s.target())
                            },
                        ),
                        Err(e) => Err(e),
                    },
                    TestStep::AsyncFn(_) => Ok(Action::RunAsync(self.cursor)),
                };
                match checked {
                    Ok(a) => {
                        self.phase = if matches!(a, Action::RunAsync(_)) {
                            Phase::AwaitAsync
                        } else {
                            Phase::AwaitService
                        };
                        a
                    },
                    Err(e) => {
                        self.phase = Phase::Ready;
                        self.abort(e)
                    },
                }
            },
        }
    }

    /// Takes the driver's report on the work handed out last.
    ///
    /// A service step's outcome is applied to the registry; on success the
    /// step's pause, if any, comes next, else the next step. A failed outcome,
    /// of a service step or of an asynchronous one, or a driver that could not
    /// be built, makes the step fail and the cleanup sweep come next.
    pub fn on_event(&mut self, ev: Event)
        requires
            old(self).wf(),
            old(self).awaits_event(),
        ensures
            final(self).wf(),
            final(self).initial() == old(self).initial(),
            final(self).spec_steps() == old(self).spec_steps(),
            ev matches Event::DriverUnavailable(cause) ==> {
                &&& final(self).spec_phase() == Phase::Failing(
                    HarnessError::AsyncTaskSetupFailure(cause),
                )
                &&& final(self).spec_services() == old(self).spec_services()
                &&& final(self).spec_cursor() == old(self).spec_cursor()
            },
            ev matches Event::Outcome(o) ==> {
                &&& old(self).spec_phase() is AwaitService ==> match old(self).current() {
                    TestStep::Service(s) => {
                        &&& final(self).spec_services() == execute_after(
                            s.spec_starts(),
                            s.spec_target(),
                            s.spec_name(),
                            old(self).spec_services(),
                            o,
                        )
                        &&& match execute_result(
                            s.spec_starts(),
                            s.spec_target(),
                            s.spec_name(),
                            old(self).spec_services(),
                            o,
                        ) {
                            Ok(()) => match s.spec_delay() {
                                Some(d) => final(self).spec_phase() == Phase::Settle(d)
                                    && final(self).spec_cursor() == old(self).spec_cursor(),
                                None => final(self).spec_phase() is Ready
                                    && final(self).spec_cursor() == old(self).spec_cursor() + 1,
                            },
                            Err(e) => final(self).spec_phase() == Phase::Failing(e)
                                && final(self).spec_cursor() == old(self).spec_cursor(),
                        }
                    },
                    TestStep::AsyncFn(_) => true,
                }
                &&& old(self).spec_phase() is AwaitAsync ==> {
                    &&& final(self).spec_services() == old(self).spec_services()
                    &&& match o {
                        Ok(()) => final(self).spec_phase() is Ready && final(self).spec_cursor()
                            == old(self).spec_cursor() + 1,
                        Err(reason) => final(self).spec_phase() == Phase::Failing(
                            HarnessError::AsyncStepFailure(reason),
                        ) && final(self).spec_cursor() == old(self).spec_cursor(),
                    }
                }
                &&& old(self).spec_phase() is AwaitSettle ==> {
                    &&& final(self).spec_services() == old(self).spec_services()
                    &&& final(self).spec_phase() is Ready
                    &&& final(self).spec_cursor() == old(self).spec_cursor() + 1
                }
            },
    {
        proof {
            lemma_applied_len(self.initial@, self.steps@.take(self.cursor as int));
            if self.cursor < self.steps.len() {
                lemma_applied_next(self.initial@, self.steps@, self.cursor as int);
            }
        }
        let o = match ev {
            Event::DriverUnavailable(cause) => {
                self.phase = Phase::Failing(HarnessError::AsyncTaskSetupFailure(cause));
                return ;
            },
            Event::Outcome(o) => o,
        };
        match self.phase {
            Phase::AwaitService => {
                let ghost before = self.services@;
                let (result, delay) = match &self.steps[self.cursor] {
                    TestStep::Service(s) => {
                        let r = s.execute(&mut self.services, o);
                        proof {
                            let t = s.spec_target() as int;
                            if r is Ok {
                                assert(running_of(self.services@) =~= running_of(before).update(
                                    t,
                                    s.spec_starts(),
                                ));
                            }
                        }
                        (r, s.delay())
                    },
                    TestStep::AsyncFn(_) => (Ok(()), None),
                };
                match result {
                    Ok(()) => match delay {
                        Some(d) => self.phase = Phase::Settle(d),
                        None => {
                            self.cursor = self.cursor + 1;
                            self.phase = Phase::Ready;
                        },
                    },
                    Err(e) => self.phase = Phase::Failing(e),
                }
            },
            Phase::AwaitAsync => match o {
                Ok(()) => {
                    self.cursor = self.cursor + 1;
                    self.phase = Phase::Ready;
                },
                Err(reason) => self.phase = Phase::Failing(HarnessError::AsyncStepFailure(reason)),
            },
            _ => {
                self.cursor = self.cursor + 1;
                self.phase = Phase::Ready;
            },
        }
    }
}

/// When every step of a run has succeeded, the run completes next, and each
/// service is running exactly as the last starter or stopper aimed at it left
/// it, or as it was at the start if none was.
pub proof fn lemma_completed_run(e: Execution, i: int)
    requires
        e.wf(),
        e.spec_phase() is Ready,
        e.spec_cursor() == e.spec_steps().len(),
        0 <= i < e.spec_services().len(),
    ensures
        e.has_action(),
        running_of(e.spec_services())[i] == match last_setting(e.spec_steps(), i) {
            Some(b) => b,
            None => e.initial()[i],
        },
{
    assert(e.spec_steps().take(e.spec_cursor() as int) =~= e.spec_steps());
    lemma_last_step_wins(e.initial(), e.spec_steps(), i);
}

/// The cleanup sweep over `services`: the position of every running service,
/// last registered first.
pub fn stop_order_of(services: &Vec<SubProcessService>) -> (r: Vec<usize>)
    ensures
        r@ == stop_order(running_of(services@)),
{
    let ghost running = running_of(services@);
    let mut order: Vec<usize> = Vec::new();
    let mut i: usize = services.len();
    while i > 0
        invariant
            i <= services.len(),
            running == running_of(services@),
            order@ + stop_order_below(running, i as int) == stop_order(running),
        decreases i,
    {
        let ghost before = order@;
        if services[i - 1].running {
            order.push(i - 1);
            assert(order@ + stop_order_below(running, (i - 1) as int) =~= before
                + stop_order_below(running, i as int));
        } else {
            assert(order@ + stop_order_below(running, (i - 1) as int) =~= before
                + stop_order_below(running, i as int));
        }
        i = i - 1;
    }
    assert(order@ + stop_order_below(running, 0) =~= order@);
    order
}

} // verus!
