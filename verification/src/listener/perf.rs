//! The instruction-counter probe.

use vstd::prelude::*;
use vstd::string::StringExecFns;

use crate::listener::Reading;
use crate::listener::WakeupAction;
use crate::process::data::ExecutionSettings;
use crate::process::error::RunError;
use crate::process::execution_result::measured_time_millis;
use crate::process::execution_result::ExecutionResult;
use crate::process::execution_result::ExecutionResultView;
use crate::process::execution_result::ExitStatus;
use crate::process::execution_result::Verdict;

verus! {

/// How the hardware counter of retired instructions is programmed.
#[derive(Clone, Copy, Debug, PartialEq, Eq, Structural)]
pub struct CounterConfig {
    /// Instructions retired in user mode are counted.
    pub count_user: bool,
    /// Instructions retired in the kernel are counted.
    pub count_kernel: bool,
    /// Instructions retired in a hypervisor are counted.
    pub count_hypervisor: bool,
    /// The counter does not run when it is created.
    pub disabled: bool,
    /// The counter starts to run when the child executes the target program.
    pub enable_on_exec: bool,
    /// Processes that the child creates are counted too.
    pub inherit: bool,
    /// The counter's descriptor is closed when the child executes the
    /// target program.
    pub close_on_exec: bool,
    /// The counter stands alone, in no group of counters.
    pub no_group: bool,
    /// The count at which the kernel is to send a notification, where one is
    /// wanted.
    pub sample_period: Option<u64>,
}

/// The instruction-counter probe. It keeps no state of its own.
#[derive(Clone, Copy, Debug, PartialEq, Eq, Structural)]
pub struct PerfListener {}

impl PerfListener {
    /// A new probe.
    pub fn new() -> PerfListener {
        PerfListener {  }
    }

    /// The verdict's comment when the instruction limit is broken.
    pub open spec fn limit_comment() -> Seq<char> {
        "time limit exceeded"@
    }

    /// How the counter is programmed: user mode only, switched off until the
    /// target program starts, inherited, closed on exec, in no group. With
    /// `notify`, the kernel is asked to send a notification once the count
    /// reaches the instruction limit.
    pub fn counter_config(settings: &ExecutionSettings, notify: bool) -> (config: CounterConfig)
        ensures
            config == (CounterConfig {
                count_user: true,
                count_kernel: false,
                count_hypervisor: false,
                disabled: true,
                enable_on_exec: true,
                inherit: true,
                close_on_exec: true,
                no_group: true,
                sample_period: if notify && settings.instruction_count_limit is Some
                    && settings.instruction_count_limit->Some_0 >= 0 {
                    Some(settings.instruction_count_limit->Some_0 as u64)
                } else {
                    None
                },
            }),
    {
        let sample_period: Option<u64> = match settings.instruction_count_limit {
            Some(limit) => if notify && limit >= 0 {
                Some(limit as u64)
            } else {
                None
            },
            None => None,
        };
        CounterConfig {
            count_user: true,
            count_kernel: false,
            count_hypervisor: false,
            disabled: true,
            enable_on_exec: true,
            inherit: true,
            close_on_exec: true,
            no_group: true,
            sample_period,
        }
    }

    /// The count that a read of the counter gives: the value that was read,
    /// where the read filled all eight bytes of it and the value is not
    /// negative. Anything else is no count.
    pub fn get_instructions_used(bytes_read: usize, value: i64) -> (count: Option<i64>)
        ensures
            count == (if bytes_read == 8 && value >= 0 {
                Some(value)
            } else {
                None::<i64>
            }),
    {
        if bytes_read == 8 && value >= 0 {
            Some(value)
        } else {
            None
        }
    }

    /// Whether the supervisor must wake on a cadence for this probe: it must
    /// when an instruction limit is set.
    pub fn requires_timeout(&self, settings: &ExecutionSettings) -> (needed: bool)
        ensures
            needed == settings.instruction_count_limit is Some,
    {
        settings.instruction_count_limit.is_some()
    }

    /// Whether the probe wants the counter read on a wakeup: only when an
    /// instruction limit is set.
    pub fn samples_on_wakeup(&self, settings: &ExecutionSettings) -> (wanted: bool)
        ensures
            wanted == settings.instruction_count_limit is Some,
    {
        settings.instruction_count_limit.is_some()
    }

    /// What a wakeup does: with a limit set, a failed reading fails the run,
    /// and a count over the limit stamps the verdict and asks for the kill.
    pub open spec fn wakeup(
        settings: ExecutionSettings,
        result: ExecutionResultView,
        reading: Reading<i64>,
    ) -> (ExecutionResultView, Result<WakeupAction, RunError>) {
        match settings.instruction_count_limit {
            None => (result, Ok(WakeupAction::Continue)),
            Some(limit) => match reading {
                Reading::Absent => (result, Ok(WakeupAction::Continue)),
                Reading::Failed(errno) => (result, Err(RunError::IOError(errno))),
                Reading::Taken(count) => if count > limit {
                    (
                        ExecutionResultView {
                            exit_status: result.exit_status.stamp(
                                Verdict::TLE(Self::limit_comment()),
                            ),
                            ..result
                        },
                        Ok(WakeupAction::Kill),
                    )
                } else {
                    (result, Ok(WakeupAction::Continue))
                },
            },
        }
    }

    /// Looks at the counter on a wakeup.
    pub fn on_wakeup(
        &self,
        settings: &ExecutionSettings,
        result: &mut ExecutionResult,
        reading: &Reading<i64>,
    ) -> (answer: Result<WakeupAction, RunError>)
        ensures
            (final(result)@, answer) == Self::wakeup(*settings, old(result)@, *reading),
    {
        match settings.instruction_count_limit {
            None => Ok(WakeupAction::Continue),
            Some(limit) => match reading {
                Reading::Absent => Ok(WakeupAction::Continue),
                Reading::Failed(errno) => Err(RunError::IOError(*errno)),
                Reading::Taken(count) => {
                    if *count > limit {
                        result.set_exit_status(
                            ExitStatus::TLE(String::from_str("time limit exceeded")),
                        );
                        Ok(WakeupAction::Kill)
                    } else {
                        Ok(WakeupAction::Continue)
                    }
                },
            },
        }
    }

    /// What the end of the run does: the final count is stored, with the
    /// measured time it stands for; a count over the limit stamps the verdict
    /// even though the child ended by itself. A failed reading fails the run.
    pub open spec fn post_execute(
        settings: ExecutionSettings,
        result: ExecutionResultView,
        reading: Reading<i64>,
    ) -> (ExecutionResultView, Result<(), RunError>) {
        match reading {
            Reading::Absent => (result, Ok(())),
            Reading::Failed(errno) => (result, Err(RunError::IOError(errno))),
            Reading::Taken(count) => (
                ExecutionResultView {
                    exit_status: if settings.instruction_count_limit is Some && count
                        > settings.instruction_count_limit->Some_0 {
                        result.exit_status.stamp(Verdict::TLE(Self::limit_comment()))
                    } else {
                        result.exit_status
                    },
                    instructions_used: Some(count),
                    measured_time: Some((measured_time_millis(count as int) * 1_000_000) as nat),
                    ..result
                },
                Ok(()),
            ),
        }
    }

    /// Stores the final count once the child has ended.
    pub fn on_post_execute(
        &self,
        settings: &ExecutionSettings,
        result: &mut ExecutionResult,
        reading: &Reading<i64>,
    ) -> (answer: Result<(), RunError>)
        requires
            reading matches Reading::Taken(count) ==> count >= 0,
        ensures
            (final(result)@, answer) == Self::post_execute(*settings, old(result)@, *reading),
    {
        match reading {
            Reading::Absent => Ok(()),
            Reading::Failed(errno) => Err(RunError::IOError(*errno)),
            Reading::Taken(count) => {
                match settings.instruction_count_limit {
                    Some(limit) => {
                        if *count > limit {
                            result.set_exit_status(
                                ExitStatus::TLE(String::from_str("time limit exceeded")),
                            );
                        }
                    },
                    None => {},
                }
                result.set_instructions_used(*count);
                Ok(())
            },
        }
    }
}

/// On a result without a complaint, a count over the instruction limit
/// leaves exactly the verdict "time limit exceeded", on a wakeup as at the
/// end of the run, and on a wakeup it asks for the kill.
pub proof fn lemma_instruction_limit_verdict(
    settings: ExecutionSettings,
    result: ExecutionResultView,
    count: i64,
)
    requires
        result.exit_status is OK,
        settings.instruction_count_limit is Some,
        count > settings.instruction_count_limit->Some_0,
    ensures
        ({
            let verdict = Verdict::TLE("time limit exceeded"@);
            &&& PerfListener::wakeup(settings, result, Reading::Taken(count)).0.exit_status
                == verdict
            &&& PerfListener::wakeup(settings, result, Reading::Taken(count)).1 == Ok::<
                WakeupAction,
                RunError,
            >(WakeupAction::Kill)
            &&& PerfListener::post_execute(settings, result, Reading::Taken(count)).0.exit_status
                == verdict
        }),
{
}

/// The measured time that the end of a run stores is the time that the
/// stored count stands for: the count times a thousand, divided by two
/// thousand million, in whole milliseconds.
pub proof fn lemma_measured_time_identity(
    settings: ExecutionSettings,
    result: ExecutionResultView,
    count: i64,
)
    requires
        count >= 0,
    ensures
        ({
            let stored = PerfListener::post_execute(settings, result, Reading::Taken(count)).0;
            &&& stored.instructions_used == Some(count)
            &&& stored.measured_time == Some(
                ((count as int) * 1_000 / 2_000_000_000 * 1_000_000) as nat,
            )
            &&& stored.measured_time_matches()
        }),
{
}

} // verus!
