//! The time probe: wall-clock, user and system time against their limits.

use vstd::prelude::*;
use vstd::string::StringExecFns;

use crate::listener::Reading;
use crate::listener::WakeupAction;
use crate::process::data::ExecutionSettings;
use crate::process::error::RunError;
use crate::process::execution_result::ExecutionResult;
use crate::process::execution_result::ExecutionResultView;
use crate::process::execution_result::ExitStatus;
use crate::process::execution_result::Verdict;
use crate::time::Duration;
use crate::util::text::nth_word;
use crate::util::text::parse_u64;
use crate::util::text::u64_of;
use crate::util::text::word;

verus! {

/// The processor time a child has used.
#[derive(Clone, Copy, Debug, PartialEq, Eq)]
pub struct ProcessTimeUsage {
    /// Time spent in user mode.
    pub user_time: Duration,
    /// Time spent in kernel mode.
    pub system_time: Duration,
}

/// The time a child has used, on the processor and on the wall clock.
#[derive(Clone, Copy, Debug, PartialEq, Eq)]
pub struct TimeUsage {
    /// Time spent on the processor.
    pub process_time_usage: ProcessTimeUsage,
    /// Time passed since the parent finished its setup.
    pub real_time: Duration,
}

/// The microseconds that `ticks` clock ticks last, at `ticks_per_second`
/// ticks a second, rounded down.
pub open spec fn ticks_to_micros(ticks: int, ticks_per_second: int) -> int {
    ticks * 1_000_000 / ticks_per_second
}

/// The clock ticks that the text of a process's stat file reports as spent
/// in user mode and in kernel mode: its fourteenth and fifteenth words,
/// where both are there and both write a `u64`.
pub open spec fn process_ticks(stat: Seq<u8>) -> Option<(u64, u64)> {
    if word(stat, 13) is Some && word(stat, 14) is Some && u64_of(word(stat, 13)->Some_0)
        is Some && u64_of(word(stat, 14)->Some_0) is Some {
        Some((u64_of(word(stat, 13)->Some_0)->Some_0, u64_of(word(stat, 14)->Some_0)->Some_0))
    } else {
        None
    }
}

/// The comment of the first time limit that `usage` breaks, if it breaks one.
/// Where several limits are broken at once, the order of precedence is:
/// real, user, system, user and system together.
pub open spec fn broken_time_limit(settings: ExecutionSettings, usage: TimeUsage) -> Option<
    Seq<char>,
> {
    if settings.real_time_limit is Some && usage.real_time@
        > settings.real_time_limit->Some_0@ {
        Some("real time limit exceeded"@)
    } else if settings.user_time_limit is Some && usage.process_time_usage.user_time@
        > settings.user_time_limit->Some_0@ {
        Some("user time limit exceeded"@)
    } else if settings.system_time_limit is Some && usage.process_time_usage.system_time@
        > settings.system_time_limit->Some_0@ {
        Some("system time limit exceeded"@)
    } else if settings.user_system_time_limit is Some && usage.process_time_usage.user_time@
        + usage.process_time_usage.system_time@ > settings.user_system_time_limit->Some_0@ {
        Some("user+system time limit exceeded"@)
    } else {
        None
    }
}

/// The time probe. It remembers whether the run has any time limit, which is
/// settled when the parent sets the probe up.
#[derive(Clone, Copy, Debug, PartialEq, Eq, Structural)]
pub struct TimeListener {
    /// Whether the settings hold any time limit.
    pub time_limit_set: bool,
}

impl TimeListener {
    /// A probe that has not been set up yet.
    pub fn new() -> (listener: TimeListener)
        ensures
            !listener.time_limit_set,
    {
        TimeListener { time_limit_set: false }
    }

    /// The time that `ticks` clock ticks last, at `ticks_per_second` ticks a
    /// second: `ticks * 1_000_000 / ticks_per_second` whole microseconds.
    pub fn ticks_to_duration(ticks: u64, ticks_per_second: u64) -> (time: Duration)
        requires
            ticks_per_second > 0,
        ensures
            time@ == ticks_to_micros(ticks as int, ticks_per_second as int) * 1_000,
    {
        let micros: u128 = (ticks as u128) * 1_000_000 / (ticks_per_second as u128);
        assert(micros / 1_000_000 <= u64::MAX) by (nonlinear_arith)
            requires
                micros == (ticks as int) * 1_000_000 / (ticks_per_second as int),
                ticks <= u64::MAX,
                ticks_per_second >= 1,
        ;
        let secs: u64 = (micros / 1_000_000) as u64;
        let rest: u32 = (micros % 1_000_000) as u32;
        Duration::new(secs, rest * 1_000)
    }

    /// The clock ticks that the text of a process's stat file reports as
    /// spent in user mode and in kernel mode.
    pub fn parse_process_ticks(stat: &[u8]) -> (ticks: Option<(u64, u64)>)
        ensures
            ticks == process_ticks(stat@),
    {
        let user = match nth_word(stat, 13) {
            Some(text) => match parse_u64(text) {
                Some(ticks) => ticks,
                None => {
                    return None;
                },
            },
            None => {
                return None;
            },
        };
        let system = match nth_word(stat, 14) {
            Some(text) => match parse_u64(text) {
                Some(ticks) => ticks,
                None => {
                    return None;
                },
            },
            None => {
                return None;
            },
        };
        Some((user, system))
    }

    /// The processor time that the text of a process's stat file reports,
    /// at `ticks_per_second` clock ticks a second. There is none where the
    /// text lacks one of the two fields or one of them is no number.
    pub fn get_process_time_usage(stat: &[u8], ticks_per_second: u64) -> (usage: Option<
        ProcessTimeUsage,
    >)
        requires
            ticks_per_second > 0,
        ensures
            usage is Some == process_ticks(stat@) is Some,
            usage matches Some(u) ==> u.user_time@ == ticks_to_micros(
                process_ticks(stat@)->Some_0.0 as int,
                ticks_per_second as int,
            ) * 1_000 && u.system_time@ == ticks_to_micros(
                process_ticks(stat@)->Some_0.1 as int,
                ticks_per_second as int,
            ) * 1_000,
    {
        match Self::parse_process_ticks(stat) {
            Some((user, system)) => Some(
                ProcessTimeUsage {
                    user_time: Self::ticks_to_duration(user, ticks_per_second),
                    system_time: Self::ticks_to_duration(system, ticks_per_second),
                },
            ),
            None => None,
        }
    }

    /// Whether the supervisor must wake on a cadence for this probe: it must
    /// whenever any of the four time limits is set.
    pub fn requires_timeout(&self, settings: &ExecutionSettings) -> (needed: bool)
        ensures
            needed == settings.any_time_limit(),
    {
        settings.has_time_limit()
    }

    /// Whether the probe wants the child's time usage on a wakeup: only once
    /// it has found a time limit.
    pub fn samples_on_wakeup(&self) -> (wanted: bool)
        ensures
            wanted == self.time_limit_set,
    {
        self.time_limit_set
    }

    /// Sets the probe up on the parent's side, right after the child was
    /// created: it notes whether any time limit is set.
    pub fn on_post_clone_parent(&mut self, settings: &ExecutionSettings)
        ensures
            final(self).time_limit_set == settings.any_time_limit(),
    {
        self.time_limit_set = settings.has_time_limit();
    }

    /// Holds `time_usage` against the limits of `settings`. Where a limit is
    /// broken, stamps the verdict of the first broken limit and asks for the
    /// child to be killed; otherwise leaves the result alone.
    pub fn verify_time_usage(
        &self,
        settings: &ExecutionSettings,
        result: &mut ExecutionResult,
        time_usage: &TimeUsage,
    ) -> (action: WakeupAction)
        ensures
            match broken_time_limit(*settings, *time_usage) {
                Some(comment) => action == WakeupAction::Kill && final(result)@ == (
                ExecutionResultView {
                    exit_status: old(result)@.exit_status.stamp(Verdict::TLE(comment)),
                    ..old(result)@
                }),
                None => action == WakeupAction::Continue && final(result)@ == old(result)@,
            },
    {
        let user: u128 = time_usage.process_time_usage.user_time.as_nanos();
        let system: u128 = time_usage.process_time_usage.system_time.as_nanos();
        if settings.real_time_limit.is_some() && time_usage.real_time.exceeds(
            &settings.real_time_limit.unwrap(),
        ) {
            result.set_exit_status(
                ExitStatus::TLE(String::from_str("real time limit exceeded")),
            );
            WakeupAction::Kill
        } else if settings.user_time_limit.is_some()
            && time_usage.process_time_usage.user_time.exceeds(
            &settings.user_time_limit.unwrap(),
        ) {
            result.set_exit_status(
                ExitStatus::TLE(String::from_str("user time limit exceeded")),
            );
            WakeupAction::Kill
        } else if settings.system_time_limit.is_some()
            && time_usage.process_time_usage.system_time.exceeds(
            &settings.system_time_limit.unwrap(),
        ) {
            result.set_exit_status(
                ExitStatus::TLE(String::from_str("system time limit exceeded")),
            );
            WakeupAction::Kill
        } else if settings.user_system_time_limit.is_some() && user + system
            > settings.user_system_time_limit.unwrap().as_nanos() {
            result.set_exit_status(
                ExitStatus::TLE(String::from_str("user+system time limit exceeded")),
            );
            WakeupAction::Kill
        } else {
            WakeupAction::Continue
        }
    }

    /// What a wakeup does: nothing without a time limit; with one, a failed
    /// reading fails the run and a broken limit stamps its verdict and asks
    /// for the kill.
    pub open spec fn wakeup(
        self,
        settings: ExecutionSettings,
        result: ExecutionResultView,
        reading: Reading<TimeUsage>,
    ) -> (ExecutionResultView, Result<WakeupAction, RunError>) {
        if !self.time_limit_set {
            (result, Ok(WakeupAction::Continue))
        } else {
            match reading {
                Reading::Absent => (result, Ok(WakeupAction::Continue)),
                Reading::Failed(errno) => (result, Err(RunError::IOError(errno))),
                Reading::Taken(usage) => match broken_time_limit(settings, usage) {
                    Some(comment) => (
                        ExecutionResultView {
                            exit_status: result.exit_status.stamp(Verdict::TLE(comment)),
                            ..result
                        },
                        Ok(WakeupAction::Kill),
                    ),
                    None => (result, Ok(WakeupAction::Continue)),
                },
            }
        }
    }

    /// Looks at the child's time usage on a wakeup.
    pub fn on_wakeup(
        &self,
        settings: &ExecutionSettings,
        result: &mut ExecutionResult,
        reading: &Reading<TimeUsage>,
    ) -> (answer: Result<WakeupAction, RunError>)
        ensures
            (final(result)@, answer) == self.wakeup(*settings, old(result)@, *reading),
    {
        if !self.time_limit_set {
            return Ok(WakeupAction::Continue);
        }
        match reading {
            Reading::Absent => Ok(WakeupAction::Continue),
            Reading::Failed(errno) => Err(RunError::IOError(*errno)),
            Reading::Taken(usage) => Ok(self.verify_time_usage(settings, result, usage)),
        }
    }

    /// What the end of the run does: the three times are stored whether or
    /// not a limit is set, and with a limit set a broken one stamps its
    /// verdict. A failed reading fails the run.
    pub open spec fn post_execute(
        self,
        settings: ExecutionSettings,
        result: ExecutionResultView,
        reading: Reading<TimeUsage>,
    ) -> (ExecutionResultView, Result<(), RunError>) {
        match reading {
            Reading::Absent => (result, Ok(())),
            Reading::Failed(errno) => (result, Err(RunError::IOError(errno))),
            Reading::Taken(usage) => (
                ExecutionResultView {
                    exit_status: if self.time_limit_set && broken_time_limit(settings, usage)
                        is Some {
                        result.exit_status.stamp(
                            Verdict::TLE(broken_time_limit(settings, usage)->Some_0),
                        )
                    } else {
                        result.exit_status
                    },
                    real_time: usage.real_time@,
                    user_time: usage.process_time_usage.user_time@,
                    system_time: usage.process_time_usage.system_time@,
                    ..result
                },
                Ok(()),
            ),
        }
    }

    /// Stores the final times once the child has ended.
    pub fn on_post_execute(
        &self,
        settings: &ExecutionSettings,
        result: &mut ExecutionResult,
        reading: &Reading<TimeUsage>,
    ) -> (answer: Result<(), RunError>)
        ensures
            (final(result)@, answer) == self.post_execute(*settings, old(result)@, *reading),
    {
        match reading {
            Reading::Absent => Ok(()),
            Reading::Failed(errno) => Err(RunError::IOError(*errno)),
            Reading::Taken(usage) => {
                result.set_real_time(usage.real_time);
                result.set_user_time(usage.process_time_usage.user_time);
                result.set_system_time(usage.process_time_usage.system_time);
                if self.time_limit_set {
                    let _ = self.verify_time_usage(settings, result, usage);
                }
                Ok(())
            },
        }
    }
}

/// Each time limit has a comment of its own, and where several limits are
/// broken at once the comment is that of the first in the order real, user,
/// system, user and system together.
pub proof fn lemma_time_limit_comments(settings: ExecutionSettings, usage: TimeUsage)
    ensures
        ({
            let over_real = settings.real_time_limit is Some && usage.real_time@
                > settings.real_time_limit->Some_0@;
            let over_user = settings.user_time_limit is Some && usage.process_time_usage.user_time@
                > settings.user_time_limit->Some_0@;
            let over_system = settings.system_time_limit is Some
                && usage.process_time_usage.system_time@ > settings.system_time_limit->Some_0@;
            let over_both = settings.user_system_time_limit is Some
                && usage.process_time_usage.user_time@ + usage.process_time_usage.system_time@
                > settings.user_system_time_limit->Some_0@;
            let broken = broken_time_limit(settings, usage);
            &&& over_real ==> broken == Some("real time limit exceeded"@)
            &&& !over_real && over_user ==> broken == Some("user time limit exceeded"@)
            &&& !over_real && !over_user && over_system ==> broken == Some("system time limit exceeded"@)
            &&& !over_real && !over_user && !over_system && over_both ==> broken == Some(
                "user+system time limit exceeded"@,
            )
            &&& !over_real && !over_user && !over_system && !over_both ==> broken is None
        }),
{
}

/// On a result without a complaint, a time probe that has found a limit
/// and sees it broken leaves exactly the verdict of that limit, on a wakeup
/// as at the end of the run, and on a wakeup it asks for the kill.
pub proof fn lemma_time_limit_verdict(
    settings: ExecutionSettings,
    result: ExecutionResultView,
    usage: TimeUsage,
)
    requires
        result.exit_status is OK,
        broken_time_limit(settings, usage) is Some,
    ensures
        ({
            let probe = TimeListener { time_limit_set: true };
            let verdict = Verdict::TLE(broken_time_limit(settings, usage)->Some_0);
            &&& probe.wakeup(settings, result, Reading::Taken(usage)).0.exit_status == verdict
            &&& probe.wakeup(settings, result, Reading::Taken(usage)).1 == Ok::<
                WakeupAction,
                RunError,
            >(WakeupAction::Kill)
            &&& probe.post_execute(settings, result, Reading::Taken(usage)).0.exit_status
                == verdict
        }),
{
}

} // verus!
