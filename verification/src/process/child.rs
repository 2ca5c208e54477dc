//! The supervision of one child, as a state machine.
//!
//! The machine never touches the child. Whoever drives it performs what the
//! machine asks for (sampling, killing, waiting) and reports what happened.
//! The machine keeps the probes, the result under construction and the
//! phase of the run, and settles the outcome exactly once.

use vstd::prelude::*;

use crate::listener::Listener;
use crate::listener::Observation;
use crate::listener::Reading;
use crate::listener::WaitEvent;
use crate::listener::WakeupAction;
use crate::process::data::ExecutionContext;
use crate::process::data::ExecutionSettings;
use crate::process::error::RunError;
use crate::process::execution_result::killed_by_signal_text;
use crate::process::execution_result::ExecutionResult;
use crate::process::execution_result::ExecutionResultView;
use crate::process::execution_result::ExitReason;
use crate::process::execution_result::ExitStatus;
use crate::process::execution_result::Verdict;

verus! {

/// Whether the child can still be signalled and reaped.
#[derive(Clone, Copy, Debug, PartialEq, Eq, Structural)]
pub enum ChildState {
    /// The child has not been reaped: its process id is still its own.
    Reapable { pid: i32 },
    /// The child has been reaped: its process id may belong to anyone.
    Reaped,
}

impl ChildState {
    /// The process that can still be signalled and reaped: the child until
    /// it has been reaped, and nobody afterwards.
    pub open spec fn target(self) -> Option<i32> {
        match self {
            ChildState::Reapable { pid } => Some(pid),
            ChildState::Reaped => None,
        }
    }

    /// The state of a child that has just been created.
    pub fn new(pid: i32) -> (state: ChildState)
        ensures
            state == (ChildState::Reapable { pid }),
    {
        ChildState::Reapable { pid }
    }

    /// The process to send the kill signal to: the child while it can still
    /// be reaped, and nobody afterwards.
    pub fn kill_target(&self) -> (target: Option<i32>)
        ensures
            target == self.target(),
    {
        match self {
            ChildState::Reapable { pid } => Some(*pid),
            ChildState::Reaped => None,
        }
    }

    /// Marks the child as reaped. The answer is the process to reap, which
    /// is there the first time only: a child is reaped exactly once.
    pub fn mark_reaped(&mut self) -> (target: Option<i32>)
        ensures
            *final(self) == ChildState::Reaped,
            target == old(self).target(),
    {
        let target = self.kill_target();
        *self = ChildState::Reaped;
        target
    }
}

/// How far the supervision of a child has come.
#[derive(Clone, Copy, Debug, PartialEq, Eq, Structural)]
pub enum Phase {
    /// The child exists; the probes are not set up on the parent's side.
    Cloned,
    /// The probes are set up; the run has not begun.
    Ready,
    /// The run is supervised: the child has not ended yet.
    Supervising,
    /// The event that ended the child has been seen; the final values are
    /// still to be stored.
    Terminated { event: WaitEvent },
    /// The run is over and has a result.
    Finished { event: WaitEvent },
    /// The run is over and has failed.
    Failed { error: RunError },
}

impl Phase {
    /// Whether the outcome of the run is settled.
    pub open spec fn is_settled(self) -> bool {
        self is Finished || self is Failed
    }
}

/// How an event that ends the child reads as the cause of its termination:
/// an exit keeps its status, and a signal is a kill whether or not it left a
/// core dump.
pub open spec fn exit_reason_of(event: WaitEvent) -> ExitReason {
    match event {
        WaitEvent::Exited { code } => ExitReason::Exited { exit_status: code },
        WaitEvent::Signaled { signal, core_dumped } => ExitReason::Killed { signal },
        _ => ExitReason::Exited { exit_status: 0 },
    }
}

/// What to do after an event of the child.
#[derive(Clone, Copy, Debug, PartialEq, Eq, Structural)]
pub struct EventDecision {
    /// Continue the child, if it is still alive.
    pub resume_tracee: bool,
    /// The event ended the child: stop waiting.
    pub terminal: bool,
}

/// What to observe of the child before a pass over the probes.
#[derive(Clone, Copy, Debug, PartialEq, Eq, Structural)]
pub struct SamplingPlan {
    /// Read the instruction counter.
    pub instructions: bool,
    /// Read the time the child has used.
    pub time: bool,
    /// Look at the child's memory.
    pub memory: bool,
}

/// The supervision of one child, as a mathematical value.
pub struct ChildInternalsView {
    pub settings: ExecutionSettings,
    pub listeners: Seq<Listener>,
    pub result: ExecutionResultView,
    pub phase: Phase,
    pub requires_timeout: bool,
}

/// The supervision of one child.
#[derive(Debug)]
pub struct ChildInternals {
    context: ExecutionContext,
    execution_result: ExecutionResult,
    phase: Phase,
    requires_timeout: bool,
}

impl View for ChildInternals {
    type V = ChildInternalsView;

    closed spec fn view(&self) -> ChildInternalsView {
        ChildInternalsView {
            settings: self.context.settings,
            listeners: self.context.listeners@,
            result: self.execution_result@,
            phase: self.phase,
            requires_timeout: self.requires_timeout,
        }
    }
}

impl ChildInternalsView {
    /// The outcome of the run, once it is settled.
    pub open spec fn outcome(self) -> Option<Result<ExecutionResultView, RunError>> {
        match self.phase {
            Phase::Finished { event } => Some(Ok(self.result)),
            Phase::Failed { error } => Some(Err(error)),
            _ => None,
        }
    }

    /// The supervision after a failure was reported to it: a settled
    /// outcome stands, and anything else fails.
    pub open spec fn failed(self, error: RunError) -> ChildInternalsView {
        ChildInternalsView {
            phase: if self.phase.is_settled() {
                self.phase
            } else {
                Phase::Failed { error }
            },
            ..self
        }
    }

    /// Once the event that ended the child has been seen, the result holds
    /// the cause of termination that the event stands for.
    pub open spec fn reason_matches_event(self) -> bool {
        match self.phase {
            Phase::Terminated { event } => event.is_terminal() && self.result.exit_reason
                == exit_reason_of(event),
            Phase::Finished { event } => event.is_terminal() && self.result.exit_reason
                == exit_reason_of(event),
            _ => true,
        }
    }
}

/// Whether any of `listeners` needs the supervisor to wake on a cadence.
pub open spec fn any_needs_timeout(listeners: Seq<Listener>, settings: ExecutionSettings) -> bool {
    exists|i: int| 0 <= i < listeners.len() && (#[trigger] listeners[i]).needs_timeout(settings)
}

/// Whether any of `listeners` wants the child continued after `event`.
pub open spec fn any_resumes_after(listeners: Seq<Listener>, event: WaitEvent) -> bool {
    exists|i: int| 0 <= i < listeners.len() && (#[trigger] listeners[i]).resumes_after(event)
}

impl ChildInternals {
    /// Whether the supervision is in order: once the child's last event has
    /// been seen, the result holds the cause of termination that the event
    /// stands for. Every supervision that `new` makes is in order, and
    /// every step keeps it so.
    pub open spec fn wf(&self) -> bool {
        self@.reason_matches_event()
    }

    /// The supervision of a child that has just been created from `context`:
    /// nothing is known of the run yet.
    pub fn new(context: ExecutionContext) -> (child: ChildInternals)
        ensures
            child@.settings == context.settings,
            child@.listeners == context.listeners@,
            child@.result == ExecutionResult::new_view(),
            child@.phase == Phase::Cloned,
            !child@.requires_timeout,
            child.wf(),
    {
        ChildInternals {
            context,
            execution_result: ExecutionResult::new(),
            phase: Phase::Cloned,
            requires_timeout: false,
        }
    }

    /// How far the supervision has come.
    pub fn phase(&self) -> (phase: Phase)
        ensures
            phase == self@.phase,
    {
        self.phase
    }

    /// The settings of the run.
    pub fn settings(&self) -> (settings: &ExecutionSettings)
        ensures
            *settings == self@.settings,
    {
        &self.context.settings
    }

    /// The probes of the run, in the order in which they are registered.
    pub fn listeners(&self) -> (listeners: &Vec<Listener>)
        ensures
            listeners@ == self@.listeners,
    {
        &self.context.listeners
    }

    /// The result as far as it is known.
    pub fn execution_result(&self) -> (result: &ExecutionResult)
        ensures
            result@ == self@.result,
    {
        &self.execution_result
    }

    /// Whether the supervisor has to be woken on a cadence during this run.
    /// It is settled when the probes are set up.
    pub fn requires_timeout(&self) -> (needed: bool)
        ensures
            needed == self@.requires_timeout,
    {
        self.requires_timeout
    }

    /// Sets every probe up on the parent's side, in the order of
    /// registration, and notes whether any of them needs the supervisor to
    /// wake on a cadence. This happens once, right after the child was
    /// created and before the child is let go.
    pub fn on_post_clone_parent(&mut self) -> (needed: bool)
        requires
            old(self)@.phase == Phase::Cloned,
        ensures
            final(self)@ == (ChildInternalsView {
                listeners: Seq::new(
                    old(self)@.listeners.len(),
                    |i: int| old(self)@.listeners[i].set_up(old(self)@.settings),
                ),
                phase: Phase::Ready,
                requires_timeout: needed,
                ..old(self)@
            }),
            needed == any_needs_timeout(old(self)@.listeners, old(self)@.settings),
            final(self).wf(),
    {
        let mut needed = false;
        let mut i: usize = 0;
        while i < self.context.listeners.len()
            invariant
                i <= self.context.listeners@.len(),
                self.context.listeners@.len() == old(self)@.listeners.len(),
                self.context.settings == old(self)@.settings,
                self.execution_result@ == old(self)@.result,
                self.phase == Phase::Cloned,
                self.requires_timeout == old(self)@.requires_timeout,
                forall|j: int|
                    0 <= j < i ==> self.context.listeners@[j] == old(self)@.listeners[j].set_up(
                        old(self)@.settings,
                    ),
                forall|j: int|
                    i <= j < self.context.listeners@.len() ==> self.context.listeners@[j]
                        == old(self)@.listeners[j],
                needed == (exists|j: int|
                    0 <= j < i && (#[trigger] old(self)@.listeners[j]).needs_timeout(
                        old(self)@.settings,
                    )),
            decreases self.context.listeners@.len() - i,
        {
            let mut listener = self.context.listeners[i];
            listener.on_post_clone_parent(&self.context.settings);
            let wants = listener.requires_timeout(&self.context.settings);
            proof {
                lemma_set_up_keeps_needs(old(self)@.listeners[i as int], old(self)@.settings);
            }
            needed = needed || wants;
            self.context.listeners.set(i, listener);
            i += 1;
        }
        self.requires_timeout = needed;
        self.phase = Phase::Ready;
        assert(self@.listeners =~= Seq::new(
            old(self)@.listeners.len(),
            |i: int| old(self)@.listeners[i].set_up(old(self)@.settings),
        ));
        needed
    }

    /// Begins the run. A child that has already recorded a failure of its own
    /// fails the run at once; otherwise supervision starts, and the answer is
    /// whether the supervisor has to register for periodic wakeups.
    pub fn begin_run(&mut self, child_error: Option<i32>) -> (answer: Result<bool, RunError>)
        requires
            old(self)@.phase == Phase::Ready,
        ensures
            match child_error {
                Some(errno) => answer == Err::<bool, RunError>(RunError::ChildErrno(errno))
                    && final(self)@ == (ChildInternalsView {
                    phase: Phase::Failed { error: RunError::ChildErrno(errno) },
                    ..old(self)@
                }),
                None => answer == Ok::<bool, RunError>(old(self)@.requires_timeout)
                    && final(self)@ == (ChildInternalsView {
                    phase: Phase::Supervising,
                    ..old(self)@
                }),
            },
            final(self).wf(),
    {
        match child_error {
            Some(errno) => {
                self.phase = Phase::Failed { error: RunError::ChildErrno(errno) };
                Err(RunError::ChildErrno(errno))
            },
            None => {
                self.phase = Phase::Supervising;
                Ok(self.requires_timeout)
            },
        }
    }

    /// Fails the run with `error`, unless its outcome is settled already:
    /// the first outcome stands.
    pub fn fail(&mut self, error: RunError)
        ensures
            final(self)@ == old(self)@.failed(error),
            old(self).wf() ==> final(self).wf(),
    {
        match self.phase {
            Phase::Finished { .. } => {},
            Phase::Failed { .. } => {},
            _ => {
                self.phase = Phase::Failed { error };
            },
        }
    }

    /// Takes in what the supervisor saw when it waited for the child.
    ///
    /// A child that has recorded a failure of its own fails the run.
    /// Otherwise every probe looks at the event, and the answer says whether
    /// to continue the child and whether the event ended it. An exit is
    /// recorded with its status. A signal that ended the child is recorded
    /// as a kill, and stamps the verdict of a runtime error.
    pub fn on_execute_event(&mut self, child_error: Option<i32>, event: WaitEvent) -> (answer:
        Result<EventDecision, RunError>)
        requires
            old(self)@.phase == Phase::Supervising,
        ensures
            match child_error {
                Some(errno) => answer == Err::<EventDecision, RunError>(
                    RunError::ChildErrno(errno),
                ) && final(self)@ == (ChildInternalsView {
                    phase: Phase::Failed { error: RunError::ChildErrno(errno) },
                    ..old(self)@
                }),
                None => answer == Ok::<EventDecision, RunError>(
                    EventDecision {
                        resume_tracee: any_resumes_after(old(self)@.listeners, event),
                        terminal: event.is_terminal(),
                    },
                ) && final(self)@ == (ChildInternalsView {
                    phase: if event.is_terminal() {
                        Phase::Terminated { event }
                    } else {
                        Phase::Supervising
                    },
                    result: match event {
                        WaitEvent::Exited { code } => ExecutionResultView {
                            exit_reason: ExitReason::Exited { exit_status: code },
                            ..old(self)@.result
                        },
                        WaitEvent::Signaled { signal, core_dumped } => ExecutionResultView {
                            exit_reason: ExitReason::Killed { signal },
                            exit_status: old(self)@.result.exit_status.stamp(
                                Verdict::RE(killed_by_signal_text(signal as int)),
                            ),
                            ..old(self)@.result
                        },
                        _ => old(self)@.result,
                    },
                    ..old(self)@
                }),
            },
            final(self).wf(),
    {
        match child_error {
            Some(errno) => {
                self.phase = Phase::Failed { error: RunError::ChildErrno(errno) };
                return Err(RunError::ChildErrno(errno));
            },
            None => {},
        }
        let mut resume = false;
        let mut i: usize = 0;
        while i < self.context.listeners.len()
            invariant
                i <= self.context.listeners@.len(),
                self@ == old(self)@,
                resume == (exists|j: int|
                    0 <= j < i && (#[trigger] self.context.listeners@[j]).resumes_after(event)),
            decreases self.context.listeners@.len() - i,
        {
            let wants = self.context.listeners[i].on_execute_event(&event);
            resume = resume || wants;
            i += 1;
        }
        match event {
            WaitEvent::Exited { code } => {
                self.execution_result.set_exit_reason(ExitReason::Exited { exit_status: code });
                self.phase = Phase::Terminated { event };
            },
            WaitEvent::Signaled { signal, core_dumped } => {
                self.execution_result.set_exit_reason(ExitReason::Killed { signal });
                self.execution_result.set_exit_status(ExitStatus::killed_by_signal(signal));
                self.phase = Phase::Terminated { event };
            },
            _ => {},
        }
        Ok(EventDecision { resume_tracee: resume, terminal: self.phase != Phase::Supervising })
    }

    /// What to observe of the child before a wakeup pass: the instruction
    /// counter where a probe counts and an instruction limit is set, the
    /// time usage where a probe has found a time limit, and the memory
    /// wherever a probe watches it.
    pub fn sampling_plan(&self) -> (plan: SamplingPlan)
        ensures
            plan == wakeup_sampling(self@.listeners, self@.settings),
    {
        let mut plan = SamplingPlan { instructions: false, time: false, memory: false };
        let mut i: usize = 0;
        while i < self.context.listeners.len()
            invariant
                i <= self.context.listeners@.len(),
                plan.instructions == (exists|j: int|
                    0 <= j < i && (#[trigger] self.context.listeners@[j]) is Perf
                        && self.context.settings.instruction_count_limit is Some),
                plan.time == (exists|j: int|
                    0 <= j < i && (#[trigger] self.context.listeners@[j]) is Time
                        && self.context.listeners@[j]->Time_0.time_limit_set),
                plan.memory == (exists|j: int|
                    0 <= j < i && (#[trigger] self.context.listeners@[j]) is Memory),
            decreases self.context.listeners@.len() - i,
        {
            match &self.context.listeners[i] {
                Listener::Perf(probe) => {
                    let wanted = probe.samples_on_wakeup(&self.context.settings);
                    plan.instructions = plan.instructions || wanted;
                },
                Listener::Time(probe) => {
                    let wanted = probe.samples_on_wakeup();
                    plan.time = plan.time || wanted;
                },
                Listener::Memory(_) => {
                    plan.memory = true;
                },
                Listener::Ptrace(_) => {},
            }
            i += 1;
        }
        plan
    }

    /// What to observe of the child once it has ended: the instruction
    /// counter where a probe counts, and the time usage where a probe
    /// measures it. The memory is not looked at again.
    pub fn final_sampling_plan(&self) -> (plan: SamplingPlan)
        ensures
            plan == final_sampling(self@.listeners),
    {
        let mut plan = SamplingPlan { instructions: false, time: false, memory: false };
        let mut i: usize = 0;
        while i < self.context.listeners.len()
            invariant
                i <= self.context.listeners@.len(),
                plan.instructions == (exists|j: int|
                    0 <= j < i && (#[trigger] self.context.listeners@[j]) is Perf),
                plan.time == (exists|j: int|
                    0 <= j < i && (#[trigger] self.context.listeners@[j]) is Time),
                !plan.memory,
            decreases self.context.listeners@.len() - i,
        {
            match &self.context.listeners[i] {
                Listener::Perf(_) => {
                    plan.instructions = true;
                },
                Listener::Time(_) => {
                    plan.time = true;
                },
                _ => {},
            }
            i += 1;
        }
        plan
    }

    /// One wakeup pass: every probe, in the order of registration, looks at
    /// what was observed. Their decisions combine, `Kill` absorbing, and
    /// their verdicts are stamped in that order, so the first complaint
    /// stands. A failed reading fails the run at the probe it belongs to;
    /// the probes after it are not asked.
    pub fn on_wakeup(&mut self, observation: &Observation) -> (answer: Result<
        WakeupAction,
        RunError,
    >)
        requires
            old(self)@.phase == Phase::Supervising,
        ensures
            ({
                let (listeners, result, decided) = wakeup_pass(
                    old(self)@.listeners,
                    old(self)@.settings,
                    old(self)@.result,
                    *observation,
                    old(self)@.listeners.len(),
                );
                answer == decided && final(self)@ == (ChildInternalsView {
                    listeners,
                    result,
                    phase: match decided {
                        Ok(_) => Phase::Supervising,
                        Err(error) => Phase::Failed { error },
                    },
                    ..old(self)@
                })
            }),
            final(self).wf(),
    {
        let mut action = WakeupAction::Continue;
        let mut i: usize = 0;
        while i < self.context.listeners.len()
            invariant
                i <= self.context.listeners@.len(),
                self.context.listeners@.len() == old(self)@.listeners.len(),
                self.context.settings == old(self)@.settings,
                self.phase == Phase::Supervising,
                self.requires_timeout == old(self)@.requires_timeout,
                wakeup_pass(
                    old(self)@.listeners,
                    old(self)@.settings,
                    old(self)@.result,
                    *observation,
                    i as nat,
                ) == (
                    self.context.listeners@,
                    self.execution_result@,
                    Ok::<WakeupAction, RunError>(action),
                ),
            decreases self.context.listeners@.len() - i,
        {
            let mut listener = self.context.listeners[i];
            let answer = listener.on_wakeup(
                &self.context.settings,
                &mut self.execution_result,
                observation,
            );
            self.context.listeners.set(i, listener);
            match answer {
                Ok(decision) => {
                    action = action.combine(decision);
                },
                Err(error) => {
                    self.phase = Phase::Failed { error };
                    proof {
                        lemma_wakeup_pass_stops(
                            old(self)@.listeners,
                            old(self)@.settings,
                            old(self)@.result,
                            *observation,
                            (i + 1) as nat,
                            old(self)@.listeners.len(),
                        );
                    }
                    return Err(error);
                },
            }
            i += 1;
        }
        Ok(action)
    }

    /// The pass at the end of the run: every probe, in the order of
    /// registration, stores its final values. A failed reading fails the run
    /// at the probe it belongs to, and so does a failure that the child has
    /// recorded of its own. Otherwise the run is over and has its result.
    pub fn on_post_execute(&mut self, observation: &Observation, child_error: Option<i32>) -> (answer:
        Result<(), RunError>)
        requires
            old(self)@.phase is Terminated,
            observation.instructions matches Reading::Taken(count) ==> count >= 0,
        ensures
            ({
                let (result, stored) = post_execute_pass(
                    old(self)@.listeners,
                    old(self)@.settings,
                    old(self)@.result,
                    *observation,
                    old(self)@.listeners.len(),
                );
                let decided = match stored {
                    Err(error) => Err::<(), RunError>(error),
                    Ok(_) => match child_error {
                        Some(errno) => Err::<(), RunError>(RunError::ChildErrno(errno)),
                        None => Ok::<(), RunError>(()),
                    },
                };
                answer == decided && final(self)@ == (ChildInternalsView {
                    result,
                    phase: match decided {
                        Ok(_) => Phase::Finished { event: old(self)@.phase->Terminated_event },
                        Err(error) => Phase::Failed { error },
                    },
                    ..old(self)@
                })
            }),
            old(self).wf() ==> final(self).wf(),
    {
        let mut i: usize = 0;
        while i < self.context.listeners.len()
            invariant
                i <= self.context.listeners@.len(),
                self.context == old(self).context,
                self.phase == old(self)@.phase,
                self.requires_timeout == old(self)@.requires_timeout,
                observation.instructions matches Reading::Taken(count) ==> count >= 0,
                self.execution_result@.exit_reason == old(self)@.result.exit_reason,
                post_execute_pass(
                    old(self)@.listeners,
                    old(self)@.settings,
                    old(self)@.result,
                    *observation,
                    i as nat,
                ) == (self.execution_result@, Ok::<(), RunError>(())),
            decreases self.context.listeners@.len() - i,
        {
            let answer = self.context.listeners[i].on_post_execute(
                &self.context.settings,
                &mut self.execution_result,
                observation,
            );
            match answer {
                Ok(_) => {},
                Err(error) => {
                    self.phase = Phase::Failed { error };
                    proof {
                        lemma_post_execute_pass_stops(
                            old(self)@.listeners,
                            old(self)@.settings,
                            old(self)@.result,
                            *observation,
                            (i + 1) as nat,
                            old(self)@.listeners.len(),
                        );
                    }
                    return Err(error);
                },
            }
            i += 1;
        }
        match child_error {
            Some(errno) => {
                self.phase = Phase::Failed { error: RunError::ChildErrno(errno) };
                Err(RunError::ChildErrno(errno))
            },
            None => {
                match self.phase {
                    Phase::Terminated { event } => {
                        self.phase = Phase::Finished { event };
                    },
                    _ => {},
                }
                Ok(())
            },
        }
    }

    /// The outcome of the run, once it is settled: the result of a run that
    /// was supervised to its end, or the error that failed it. The result's
    /// cause of termination is the one that the child's last event stands
    /// for.
    pub fn outcome(&self) -> (outcome: Option<Result<ExecutionResult, RunError>>)
        ensures
            match self@.outcome() {
                Some(Ok(settled)) => outcome matches Some(Ok(result)) && result@ == settled,
                Some(Err(error)) => outcome matches Some(Err(e)) && e == error,
                None => outcome is None,
            },
            self.wf() ==> (self@.phase matches Phase::Finished { event } ==> event.is_terminal()
                && self@.result.exit_reason == exit_reason_of(event)),
    {
        match self.phase {
            Phase::Finished { .. } => Some(Ok(self.execution_result.clone())),
            Phase::Failed { error } => Some(Err(error)),
            _ => None,
        }
    }
}

/// What a wakeup pass observes of the child.
pub open spec fn wakeup_sampling(listeners: Seq<Listener>, settings: ExecutionSettings) -> SamplingPlan {
    SamplingPlan {
        instructions: exists|i: int|
            0 <= i < listeners.len() && (#[trigger] listeners[i]) is Perf
                && settings.instruction_count_limit is Some,
        time: exists|i: int|
            0 <= i < listeners.len() && (#[trigger] listeners[i]) is Time
                && listeners[i]->Time_0.time_limit_set,
        memory: exists|i: int| 0 <= i < listeners.len() && (#[trigger] listeners[i]) is Memory,
    }
}

/// What is observed of the child once it has ended.
pub open spec fn final_sampling(listeners: Seq<Listener>) -> SamplingPlan {
    SamplingPlan {
        instructions: exists|i: int| 0 <= i < listeners.len() && (#[trigger] listeners[i]) is Perf,
        time: exists|i: int| 0 <= i < listeners.len() && (#[trigger] listeners[i]) is Time,
        memory: false,
    }
}

/// A wakeup pass after the first `turns` probes have had their turn: the
/// probes as they are then, the result as it is then, and the decision so
/// far, or the failure that stopped the pass.
pub open spec fn wakeup_pass(
    listeners: Seq<Listener>,
    settings: ExecutionSettings,
    result: ExecutionResultView,
    observation: Observation,
    turns: nat,
) -> (Seq<Listener>, ExecutionResultView, Result<WakeupAction, RunError>)
    decreases turns,
{
    if turns == 0 || turns > listeners.len() {
        (listeners, result, Ok(WakeupAction::Continue))
    } else {
        let (before, stamped, decided) = wakeup_pass(
            listeners,
            settings,
            result,
            observation,
            (turns - 1) as nat,
        );
        match decided {
            Err(error) => (before, stamped, Err(error)),
            Ok(action) => {
                let (probe, after, answer) = before[turns - 1].wakeup(
                    settings,
                    stamped,
                    observation,
                );
                (
                    before.update(turns - 1, probe),
                    after,
                    match answer {
                        Ok(decision) => Ok(action.combined(decision)),
                        Err(error) => Err(error),
                    },
                )
            },
        }
    }
}

/// The pass at the end of a run after the first `turns` probes have had
/// their turn: the result as it is then, and whether a failure stopped the
/// pass.
pub open spec fn post_execute_pass(
    listeners: Seq<Listener>,
    settings: ExecutionSettings,
    result: ExecutionResultView,
    observation: Observation,
    turns: nat,
) -> (ExecutionResultView, Result<(), RunError>)
    decreases turns,
{
    if turns == 0 || turns > listeners.len() {
        (result, Ok(()))
    } else {
        let (stored, answer) = post_execute_pass(
            listeners,
            settings,
            result,
            observation,
            (turns - 1) as nat,
        );
        match answer {
            Err(error) => (stored, Err(error)),
            Ok(_) => listeners[turns - 1].post_execute(settings, stored, observation),
        }
    }
}

/// A wakeup pass that a failure has stopped stays as it is: the probes after
/// the failing one are not asked.
pub proof fn lemma_wakeup_pass_stops(
    listeners: Seq<Listener>,
    settings: ExecutionSettings,
    result: ExecutionResultView,
    observation: Observation,
    stopped: nat,
    turns: nat,
)
    requires
        stopped <= turns <= listeners.len(),
        wakeup_pass(listeners, settings, result, observation, stopped).2 is Err,
    ensures
        wakeup_pass(listeners, settings, result, observation, turns) == wakeup_pass(
            listeners,
            settings,
            result,
            observation,
            stopped,
        ),
    decreases turns,
{
    if turns > stopped {
        lemma_wakeup_pass_stops(
            listeners,
            settings,
            result,
            observation,
            stopped,
            (turns - 1) as nat,
        );
    }
}

/// A final pass that a failure has stopped stays as it is: the probes after
/// the failing one store nothing.
pub proof fn lemma_post_execute_pass_stops(
    listeners: Seq<Listener>,
    settings: ExecutionSettings,
    result: ExecutionResultView,
    observation: Observation,
    stopped: nat,
    turns: nat,
)
    requires
        stopped <= turns <= listeners.len(),
        post_execute_pass(listeners, settings, result, observation, stopped).1 is Err,
    ensures
        post_execute_pass(listeners, settings, result, observation, turns) == post_execute_pass(
            listeners,
            settings,
            result,
            observation,
            stopped,
        ),
    decreases turns,
{
    if turns > stopped {
        lemma_post_execute_pass_stops(
            listeners,
            settings,
            result,
            observation,
            stopped,
            (turns - 1) as nat,
        );
    }
}

/// What each of `listeners` decides on `observation`, in the order of
/// registration; a probe whose reading failed counts as `Continue`.
pub open spec fn decisions(
    listeners: Seq<Listener>,
    settings: ExecutionSettings,
    observation: Observation,
) -> Seq<WakeupAction> {
    Seq::new(
        listeners.len(),
        |i: int|
            match listeners[i].decision(settings, observation) {
                Ok(action) => action,
                Err(_) => WakeupAction::Continue,
            },
    )
}

/// The verdict that each of `listeners` stamps on `observation`, in the
/// order of registration.
pub open spec fn complaints(
    listeners: Seq<Listener>,
    settings: ExecutionSettings,
    observation: Observation,
) -> Seq<Verdict> {
    Seq::new(listeners.len(), |i: int| listeners[i].complaint(settings, observation))
}

proof fn lemma_wakeup_pass_prefix(
    listeners: Seq<Listener>,
    settings: ExecutionSettings,
    result: ExecutionResultView,
    observation: Observation,
    turns: nat,
)
    requires
        turns <= listeners.len(),
        forall|i: int|
            0 <= i < turns ==> (#[trigger] listeners[i]).decision(settings, observation) is Ok,
    ensures
        wakeup_pass(listeners, settings, result, observation, turns) == (
            Seq::new(
                listeners.len(),
                |i: int|
                    if i < turns {
                        listeners[i].after_wakeup(settings, observation)
                    } else {
                        listeners[i]
                    },
            ),
            ExecutionResultView {
                exit_status: result.exit_status.stamp_all(
                    complaints(listeners, settings, observation).take(turns as int),
                ),
                ..result
            },
            Ok::<WakeupAction, RunError>(
                WakeupAction::combined_all(
                    decisions(listeners, settings, observation).take(turns as int),
                ),
            ),
        ),
    decreases turns,
{
    let all_complaints = complaints(listeners, settings, observation);
    let all_decisions = decisions(listeners, settings, observation);
    if turns == 0 {
        assert(Seq::new(listeners.len(), |i: int| if i < 0 {
            listeners[i].after_wakeup(settings, observation)
        } else {
            listeners[i]
        }) =~= listeners);
        assert(all_complaints.take(0).len() == 0);
        assert(all_decisions.take(0).len() == 0);
    } else {
        let last = turns - 1;
        lemma_wakeup_pass_prefix(listeners, settings, result, observation, last as nat);
        let (before, stamped, decided) = wakeup_pass(
            listeners,
            settings,
            result,
            observation,
            last as nat,
        );
        assert(before[last] == listeners[last]);
        listeners[last].lemma_wakeup_stamps(settings, stamped, observation);
        assert(all_complaints.take(turns as int).drop_last() =~= all_complaints.take(last));
        assert(all_decisions.take(turns as int).drop_last() =~= all_decisions.take(last));
        assert(all_complaints.take(turns as int).last() == listeners[last].complaint(
            settings,
            observation,
        ));
        assert(all_decisions.take(turns as int).last() == listeners[last].decision(
            settings,
            observation,
        )->Ok_0);
        assert(before.update(last, listeners[last].after_wakeup(settings, observation))
            =~= Seq::new(
            listeners.len(),
            |i: int|
                if i < turns {
                    listeners[i].after_wakeup(settings, observation)
                } else {
                    listeners[i]
                },
        ));
    }
}

/// What a wakeup pass comes to, where no reading fails.
///
/// Every probe sees the pass. The decision is `Kill` exactly when at least
/// one probe asks for it. Nothing of the result changes but the verdict. A
/// verdict that was a complaint already stays. A verdict that was `OK`
/// becomes the complaint of the first probe, in the order of registration,
/// that has one, and stays `OK` when none has.
pub proof fn lemma_wakeup_pass_decides(
    listeners: Seq<Listener>,
    settings: ExecutionSettings,
    result: ExecutionResultView,
    observation: Observation,
)
    requires
        forall|i: int|
            0 <= i < listeners.len() ==> (#[trigger] listeners[i]).decision(
                settings,
                observation,
            ) is Ok,
    ensures
        ({
            let (probes, after, decided) = wakeup_pass(
                listeners,
                settings,
                result,
                observation,
                listeners.len(),
            );
            &&& probes.len() == listeners.len()
            &&& forall|i: int|
                0 <= i < listeners.len() ==> probes[i] == (#[trigger] listeners[i]).after_wakeup(
                    settings,
                    observation,
                )
            &&& decided is Ok
            &&& decided == Ok::<WakeupAction, RunError>(WakeupAction::Kill) <==> exists|i: int|
                0 <= i < listeners.len() && (#[trigger] listeners[i]).decision(
                    settings,
                    observation,
                ) == Ok::<WakeupAction, RunError>(WakeupAction::Kill)
            &&& after == (ExecutionResultView { exit_status: after.exit_status, ..result })
            &&& !(result.exit_status is OK) ==> after.exit_status == result.exit_status
            &&& result.exit_status is OK && (forall|i: int|
                0 <= i < listeners.len() ==> (#[trigger] listeners[i]).complaint(
                    settings,
                    observation,
                ) is OK) ==> after.exit_status is OK
            &&& forall|i: int|
                result.exit_status is OK && 0 <= i < listeners.len() && !((
                #[trigger] listeners[i]).complaint(settings, observation) is OK) && (forall|j: int|
                    0 <= j < i ==> (#[trigger] listeners[j]).complaint(settings, observation)
                        is OK) ==> after.exit_status == listeners[i].complaint(
                    settings,
                    observation,
                )
        }),
{
    let all_complaints = complaints(listeners, settings, observation);
    let all_decisions = decisions(listeners, settings, observation);
    lemma_wakeup_pass_prefix(listeners, settings, result, observation, listeners.len());
    assert(all_complaints.take(listeners.len() as int) =~= all_complaints);
    assert(all_decisions.take(listeners.len() as int) =~= all_decisions);
    crate::listener::lemma_kill_absorbs(all_decisions);
    let (probes, after, decided) = wakeup_pass(
        listeners,
        settings,
        result,
        observation,
        listeners.len(),
    );
    if decided == Ok::<WakeupAction, RunError>(WakeupAction::Kill) {
        let i = choose|i: int|
            0 <= i < all_decisions.len() && all_decisions[i] == WakeupAction::Kill;
        assert(listeners[i].decision(settings, observation) == Ok::<WakeupAction, RunError>(
            WakeupAction::Kill,
        ));
    }
    if exists|i: int|
        0 <= i < listeners.len() && (#[trigger] listeners[i]).decision(settings, observation)
            == Ok::<WakeupAction, RunError>(WakeupAction::Kill) {
        let i = choose|i: int|
            0 <= i < listeners.len() && (#[trigger] listeners[i]).decision(
                settings,
                observation,
            ) == Ok::<WakeupAction, RunError>(WakeupAction::Kill);
        assert(all_decisions[i] == WakeupAction::Kill);
    }
    if !(result.exit_status is OK) {
        crate::process::execution_result::lemma_complaint_is_final(
            result.exit_status,
            all_complaints,
        );
    } else {
        crate::process::execution_result::lemma_first_complaint_stands(all_complaints);
        if forall|i: int|
            0 <= i < listeners.len() ==> (#[trigger] listeners[i]).complaint(
                settings,
                observation,
            ) is OK {
            assert forall|i: int| 0 <= i < all_complaints.len() implies all_complaints[i]
                is OK by {
                assert(listeners[i].complaint(settings, observation) is OK);
            }
        }
        assert forall|i: int|
            0 <= i < listeners.len() && !((#[trigger] listeners[i]).complaint(
                settings,
                observation,
            ) is OK) && (forall|j: int|
                0 <= j < i ==> (#[trigger] listeners[j]).complaint(settings, observation)
                    is OK) implies after.exit_status == listeners[i].complaint(
            settings,
            observation,
        ) by {
            assert forall|j: int| 0 <= j < i implies all_complaints[j] is OK by {
                assert(listeners[j].complaint(settings, observation) is OK);
            }
            assert(all_complaints[i] == listeners[i].complaint(settings, observation));
        }
    }
}

/// The shape of a result. The cause of termination is an exit, with the
/// child's own status, exactly when the child's last event was an exit;
/// and it is a kill, by the signal of the event, exactly when a signal ended
/// the child, whether or not it left a core dump.
pub proof fn lemma_result_shape(event: WaitEvent)
    requires
        event.is_terminal(),
    ensures
        exit_reason_of(event) is Exited <==> event is Exited,
        exit_reason_of(event) is Killed <==> event is Signaled,
        event matches WaitEvent::Exited { code } ==> exit_reason_of(event) == (
        ExitReason::Exited { exit_status: code }),
        event matches WaitEvent::Signaled { signal, core_dumped } ==> exit_reason_of(event) == (
        ExitReason::Killed { signal }),
{
}

/// A run has one outcome. Once the outcome is settled, asking for it again
/// gives the same, and a failure that is reported afterwards changes
/// nothing: not the outcome, and nothing else of the supervision. Every
/// other step asks for a phase in which the outcome is not settled, so none
/// of them can follow.
pub proof fn lemma_outcome_stands(child: ChildInternalsView, error: RunError)
    requires
        child.phase.is_settled(),
    ensures
        child.outcome() is Some,
        child.failed(error) == child,
        child.failed(error).outcome() == child.outcome(),
        !(child.phase == Phase::Cloned) && !(child.phase == Phase::Ready) && !(child.phase
            == Phase::Supervising) && !(child.phase is Terminated),
{
}

/// A child is reaped once: after it is marked as reaped, nobody is left to
/// signal or to reap.
pub proof fn lemma_reaped_once(state: ChildState)
    ensures
        state is Reapable ==> state.target() is Some,
        ChildState::Reaped.target() is None,
{
}

/// Whether a probe needs periodic wakeups does not depend on its setup.
pub proof fn lemma_set_up_keeps_needs(listener: Listener, settings: ExecutionSettings)
    ensures
        listener.set_up(settings).needs_timeout(settings) == listener.needs_timeout(settings),
{
}

} // verus!
