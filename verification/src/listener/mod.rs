//! The probes that watch a child, and what they may ask of the supervisor.
//!
//! A probe never touches the child itself. It is told what was observed and
//! answers with a decision, stamping the result where a limit was broken.

use vstd::prelude::*;

use crate::listener::memory::MemoryListener;
use crate::listener::memory::MemorySample;
use crate::listener::perf::PerfListener;
use crate::listener::ptrace::PtraceListener;
use crate::listener::time::TimeListener;
use crate::listener::time::TimeUsage;
use crate::process::data::ExecutionSettings;
use crate::process::error::RunError;
use crate::process::execution_result::ExecutionResult;
use crate::process::execution_result::ExecutionResultView;
use crate::process::execution_result::Verdict;

pub mod memory;
pub mod perf;
pub mod process_info;
pub mod ptrace;
pub mod sighandler;
pub mod time;

verus! {

/// What a probe asks of the supervisor after it has looked at the child.
#[derive(Clone, Copy, Debug, PartialEq, Eq, Structural)]
pub enum WakeupAction {
    /// Let the child run on.
    Continue,
    /// Kill the child.
    Kill,
}

impl WakeupAction {
    /// The decision of two probes together: `Kill` as soon as either asks
    /// for it.
    pub open spec fn combined(self, other: WakeupAction) -> WakeupAction {
        if self == WakeupAction::Kill || other == WakeupAction::Kill {
            WakeupAction::Kill
        } else {
            WakeupAction::Continue
        }
    }

    /// The decision of a whole pass: every decision of `actions` combined,
    /// starting from `Continue`.
    pub open spec fn combined_all(actions: Seq<WakeupAction>) -> WakeupAction
        decreases actions.len(),
    {
        if actions.len() == 0 {
            WakeupAction::Continue
        } else {
            WakeupAction::combined_all(actions.drop_last()).combined(actions.last())
        }
    }

    /// Combines two decisions: `Kill` as soon as either asks for it.
    pub fn combine(&self, other: WakeupAction) -> (both: WakeupAction)
        ensures
            both == self.combined(other),
    {
        if *self == WakeupAction::Kill || other == WakeupAction::Kill {
            WakeupAction::Kill
        } else {
            WakeupAction::Continue
        }
    }
}

/// What became of one observation of the child.
#[derive(Debug, PartialEq, Eq)]
pub enum Reading<T> {
    /// Nothing was observed.
    Absent,
    /// The observation failed, with this error number.
    Failed(i32),
    /// The observation was made.
    Taken(T),
}

/// What the supervisor saw when it waited for the child.
#[derive(Clone, Copy, Debug, PartialEq, Eq, Structural)]
pub enum WaitEvent {
    /// The child exited with this status.
    Exited { code: i32 },
    /// A signal ended the child, with or without a core dump.
    Signaled { signal: i32, core_dumped: bool },
    /// A signal stopped the child.
    Stopped { signal: i32 },
    /// Tracing stopped the child.
    PtraceEvent { signal: i32, event: i32 },
    /// The child stopped at a system call.
    PtraceSyscall,
    /// The child was continued.
    Continued,
}

impl WaitEvent {
    /// Whether the event ends the run: an exit does, and so does a signal
    /// that ends the child. Every stop and every continuation does not.
    pub open spec fn is_terminal(self) -> bool {
        self is Exited || self is Signaled
    }
}

/// What was observed of the child for one pass over the probes. Each probe
/// looks only at the reading that is its own.
#[derive(Debug, PartialEq, Eq)]
pub struct Observation {
    /// The count of retired instructions.
    pub instructions: Reading<i64>,
    /// The time the child has used.
    pub time: Reading<TimeUsage>,
    /// The child's memory.
    pub memory: Reading<MemorySample>,
}

/// One probe of a run.
#[derive(Clone, Copy, Debug, PartialEq, Eq)]
pub enum Listener {
    /// The instruction-counter probe.
    Perf(PerfListener),
    /// The time probe.
    Time(TimeListener),
    /// The memory probe.
    Memory(MemoryListener),
    /// The tracing probe.
    Ptrace(PtraceListener),
}

impl Listener {
    /// Whether the supervisor must re-evaluate this probe on a cadence even
    /// when the child produces no event.
    pub open spec fn needs_timeout(self, settings: ExecutionSettings) -> bool {
        match self {
            Listener::Perf(_) => settings.instruction_count_limit is Some,
            Listener::Time(_) => settings.any_time_limit(),
            Listener::Memory(_) => settings.memory_limit_kibibytes is Some,
            Listener::Ptrace(_) => false,
        }
    }

    /// Whether the supervisor must re-evaluate this probe on a cadence even
    /// when the child produces no event.
    pub fn requires_timeout(&self, settings: &ExecutionSettings) -> (needed: bool)
        ensures
            needed == self.needs_timeout(*settings),
    {
        match self {
            Listener::Perf(probe) => probe.requires_timeout(settings),
            Listener::Time(probe) => probe.requires_timeout(settings),
            Listener::Memory(probe) => probe.requires_timeout(settings),
            Listener::Ptrace(probe) => probe.requires_timeout(settings),
        }
    }

    /// The probe after its setup on the parent's side.
    pub open spec fn set_up(self, settings: ExecutionSettings) -> Listener {
        match self {
            Listener::Time(_) => Listener::Time(
                TimeListener { time_limit_set: settings.any_time_limit() },
            ),
            _ => self,
        }
    }

    /// Sets the probe up on the parent's side, right after the child was
    /// created.
    pub fn on_post_clone_parent(&mut self, settings: &ExecutionSettings)
        ensures
            *final(self) == old(self).set_up(*settings),
    {
        match self {
            Listener::Time(probe) => {
                let mut set_up = *probe;
                set_up.on_post_clone_parent(settings);
                *self = Listener::Time(set_up);
            },
            _ => {},
        }
    }

    /// What a wakeup does to the probe, to the result and to the child.
    pub open spec fn wakeup(
        self,
        settings: ExecutionSettings,
        result: ExecutionResultView,
        observation: Observation,
    ) -> (Listener, ExecutionResultView, Result<WakeupAction, RunError>) {
        match self {
            Listener::Perf(_) => {
                let (after, answer) = PerfListener::wakeup(
                    settings,
                    result,
                    observation.instructions,
                );
                (self, after, answer)
            },
            Listener::Time(probe) => {
                let (after, answer) = probe.wakeup(settings, result, observation.time);
                (self, after, answer)
            },
            Listener::Memory(probe) => {
                let (peak, after, answer) = MemoryListener::wakeup(
                    probe.peak_memory_kibibytes,
                    settings,
                    result,
                    observation.memory,
                );
                (Listener::Memory(MemoryListener { peak_memory_kibibytes: peak }), after, answer)
            },
            Listener::Ptrace(_) => (self, result, Ok(WakeupAction::Continue)),
        }
    }

    /// The probe as a wakeup leaves it. A probe changes by what it observes,
    /// never by what the result holds.
    pub open spec fn after_wakeup(self, settings: ExecutionSettings, observation: Observation) -> Listener {
        self.wakeup(settings, ExecutionResult::new_view(), observation).0
    }

    /// What the probe decides on a wakeup, or the failure of its reading. The
    /// decision follows from what was observed, never from the result.
    pub open spec fn decision(self, settings: ExecutionSettings, observation: Observation) -> Result<
        WakeupAction,
        RunError,
    > {
        self.wakeup(settings, ExecutionResult::new_view(), observation).2
    }

    /// The verdict that the probe stamps on a wakeup; `OK` where it has no
    /// complaint.
    pub open spec fn complaint(self, settings: ExecutionSettings, observation: Observation) -> Verdict {
        self.wakeup(settings, ExecutionResult::new_view(), observation).1.exit_status
    }

    /// A wakeup touches nothing of the result but the verdict, which it
    /// stamps with the probe's complaint.
    pub proof fn lemma_wakeup_stamps(
        self,
        settings: ExecutionSettings,
        result: ExecutionResultView,
        observation: Observation,
    )
        ensures
            self.wakeup(settings, result, observation) == (
                self.after_wakeup(settings, observation),
                ExecutionResultView {
                    exit_status: result.exit_status.stamp(self.complaint(settings, observation)),
                    ..result
                },
                self.decision(settings, observation),
            ),
            self.decision(settings, observation) is Err ==> self.complaint(settings, observation)
                is OK && self.after_wakeup(settings, observation) == self,
            self.decision(settings, observation) == Ok::<WakeupAction, RunError>(
                WakeupAction::Kill,
            ) <==> !(self.complaint(settings, observation) is OK),
    {
    }

    /// Lets the probe look at what was observed of the child.
    pub fn on_wakeup(
        &mut self,
        settings: &ExecutionSettings,
        result: &mut ExecutionResult,
        observation: &Observation,
    ) -> (answer: Result<WakeupAction, RunError>)
        ensures
            (*final(self), final(result)@, answer) == old(self).wakeup(
                *settings,
                old(result)@,
                *observation,
            ),
    {
        match self {
            Listener::Perf(probe) => probe.on_wakeup(settings, result, &observation.instructions),
            Listener::Time(probe) => probe.on_wakeup(settings, result, &observation.time),
            Listener::Memory(probe) => {
                let mut updated = *probe;
                let answer = updated.on_wakeup(settings, result, &observation.memory);
                *self = Listener::Memory(updated);
                answer
            },
            Listener::Ptrace(_) => Ok(WakeupAction::Continue),
        }
    }

    /// Whether the probe wants the child continued after `event`, if the
    /// child is still alive.
    pub open spec fn resumes_after(self, event: WaitEvent) -> bool {
        self is Ptrace && event is PtraceEvent
    }

    /// Lets the probe look at an event that did not end the child: the
    /// answer is whether the child, if it is still alive, is to be continued.
    pub fn on_execute_event(&self, event: &WaitEvent) -> (resume: bool)
        ensures
            resume == self.resumes_after(*event),
    {
        match self {
            Listener::Ptrace(probe) => probe.on_execute_event(event),
            _ => false,
        }
    }

    /// What the end of the run does to the result.
    pub open spec fn post_execute(
        self,
        settings: ExecutionSettings,
        result: ExecutionResultView,
        observation: Observation,
    ) -> (ExecutionResultView, Result<(), RunError>) {
        match self {
            Listener::Perf(_) => PerfListener::post_execute(
                settings,
                result,
                observation.instructions,
            ),
            Listener::Time(probe) => probe.post_execute(settings, result, observation.time),
            Listener::Memory(probe) => (
                MemoryListener::post_execute(probe.peak_memory_kibibytes, settings, result),
                Ok(()),
            ),
            Listener::Ptrace(_) => (result, Ok(())),
        }
    }

    /// Lets the probe store its final values once the child has ended.
    pub fn on_post_execute(
        &self,
        settings: &ExecutionSettings,
        result: &mut ExecutionResult,
        observation: &Observation,
    ) -> (answer: Result<(), RunError>)
        requires
            observation.instructions matches Reading::Taken(count) ==> count >= 0,
        ensures
            (final(result)@, answer) == self.post_execute(
                *settings,
                old(result)@,
                *observation,
            ),
    {
        match self {
            Listener::Perf(probe) => probe.on_post_execute(
                settings,
                result,
                &observation.instructions,
            ),
            Listener::Time(probe) => probe.on_post_execute(settings, result, &observation.time),
            Listener::Memory(probe) => {
                probe.on_post_execute(settings, result);
                Ok(())
            },
            Listener::Ptrace(_) => Ok(()),
        }
    }
}

/// `Kill` absorbs: the decisions of a pass combine to `Kill` exactly when at
/// least one of them is `Kill`.
pub proof fn lemma_kill_absorbs(actions: Seq<WakeupAction>)
    ensures
        WakeupAction::combined_all(actions) == WakeupAction::Kill <==> exists|i: int|
            0 <= i < actions.len() && actions[i] == WakeupAction::Kill,
    decreases actions.len(),
{
    if actions.len() > 0 {
        let front = actions.drop_last();
        lemma_kill_absorbs(front);
        if WakeupAction::combined_all(actions) == WakeupAction::Kill {
            if actions.last() == WakeupAction::Kill {
                assert(actions[actions.len() - 1] == WakeupAction::Kill);
            } else {
                let i = choose|i: int| 0 <= i < front.len() && front[i] == WakeupAction::Kill;
                assert(actions[i] == WakeupAction::Kill);
            }
        }
        if exists|i: int| 0 <= i < actions.len() && actions[i] == WakeupAction::Kill {
            let i = choose|i: int| 0 <= i < actions.len() && actions[i] == WakeupAction::Kill;
            if i < actions.len() - 1 {
                assert(front[i] == WakeupAction::Kill);
            }
        }
    }
}

/// The order of the decisions does not matter, and neither does asking twice.
pub proof fn lemma_combined_laws(a: WakeupAction, b: WakeupAction, c: WakeupAction)
    ensures
        a.combined(b) == b.combined(a),
        a.combined(b).combined(c) == a.combined(b.combined(c)),
        a.combined(a) == a,
        a.combined(WakeupAction::Continue) == a,
        a.combined(WakeupAction::Kill) == WakeupAction::Kill,
{
}

} // verus!
