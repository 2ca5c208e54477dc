//! The memory probe: the peak size of the child's address space.

use vstd::prelude::*;
use vstd::string::StringExecFns;

use crate::listener::Reading;
use crate::listener::WakeupAction;
use crate::process::data::ExecutionSettings;
use crate::process::error::RunError;
use crate::process::execution_result::ExecutionResult;
use crate::process::execution_result::ExecutionResultView;
use crate::process::execution_result::ExitStatus;
use crate::process::execution_result::Verdict;
use crate::util::text::find_line;
use crate::util::text::first_line;
use crate::util::text::nth_word;
use crate::util::text::parse_u64;
use crate::util::text::u64_of;
use crate::util::text::word;

verus! {

/// One look at the child's memory.
///
/// Until the child has executed the target program, its process still shows
/// the supervisor's own memory, so a peak counts only once `exec_called`
/// holds.
#[derive(Clone, Copy, Debug, PartialEq, Eq, Structural)]
pub struct MemorySample {
    /// Whether the child has executed the target program.
    pub exec_called: bool,
    /// The peak size of the address space in KiB, where the kernel reports
    /// one.
    pub peak_kibibytes: Option<u64>,
}

impl MemorySample {
    /// The peak that the sample contributes: nothing before the target
    /// program runs, and nothing where the kernel reports no peak.
    pub open spec fn observed_peak(self) -> u64 {
        if self.exec_called && self.peak_kibibytes is Some {
            self.peak_kibibytes->Some_0
        } else {
            0
        }
    }
}

/// The error number of a read that found nothing to read yet.
pub const EAGAIN: i32 = 11;

/// The error number of a call that a signal interrupted.
pub const EINTR: i32 = 4;

/// What became of one read from the pipe whose writing end the child
/// closes when it executes the target program.
#[derive(Clone, Copy, Debug, PartialEq, Eq, Structural)]
pub enum PipeRead {
    /// The read returned this many bytes.
    Returned(usize),
    /// The read failed with this error number.
    Failed(i32),
}

/// What a read from the pipe says of the child.
#[derive(Clone, Copy, Debug, PartialEq, Eq, Structural)]
pub enum ExecCheck {
    /// The pipe is at its end: the child has executed the target program.
    Called,
    /// There is nothing to read yet: the child has not executed it.
    NotCalled,
    /// A signal interrupted the read: read again.
    Again,
    /// Nothing that this pipe can do: nobody writes to it.
    Unexpected,
}

/// What the text of a process's status file says of the peak size of the
/// address space.
#[derive(Clone, Copy, Debug, PartialEq, Eq, Structural)]
pub enum PeakMemory {
    /// The text has no line for the peak, as for a process that has no
    /// address space left.
    NotReported,
    /// The peak, in KiB.
    Reported(u64),
    /// The text has a line for the peak, but no number in its place.
    Malformed,
}

/// The label of the line that reports the peak: the bytes of `VmPeak:`.
pub open spec fn peak_label() -> Seq<u8> {
    seq![86u8, 109u8, 80u8, 101u8, 97u8, 107u8, 58u8]
}

/// What the text of a process's status file says of the peak: the second
/// word of the first line that begins with the label, read as a `u64`.
pub open spec fn peak_memory_of(status: Seq<u8>) -> PeakMemory {
    match first_line(status, 0, peak_label(), false) {
        None => PeakMemory::NotReported,
        Some(line) => if word(line, 1) is Some && u64_of(word(line, 1)->Some_0) is Some {
            PeakMemory::Reported(u64_of(word(line, 1)->Some_0)->Some_0)
        } else {
            PeakMemory::Malformed
        },
    }
}

/// The larger of two peaks.
pub open spec fn larger(a: u64, b: u64) -> u64 {
    if a >= b {
        a
    } else {
        b
    }
}

/// The largest peak that `samples` contribute, and 0 where there is none.
pub open spec fn largest_peak(samples: Seq<MemorySample>) -> u64
    decreases samples.len(),
{
    if samples.len() == 0 {
        0
    } else {
        larger(largest_peak(samples.drop_last()), samples.last().observed_peak())
    }
}

/// The memory probe. It keeps the largest peak it has seen.
#[derive(Clone, Copy, Debug, PartialEq, Eq, Structural)]
pub struct MemoryListener {
    /// The largest peak seen so far, in KiB.
    pub peak_memory_kibibytes: u64,
}

impl MemoryListener {
    /// The verdict's comment when the memory limit is broken.
    pub open spec fn limit_comment() -> Seq<char> {
        "memory limit exceeded"@
    }

    /// A probe that has seen nothing yet.
    pub fn new() -> (listener: MemoryListener)
        ensures
            listener.peak_memory_kibibytes == 0,
    {
        MemoryListener { peak_memory_kibibytes: 0 }
    }

    /// What a read from the pipe says of the child: the end of the pipe
    /// means that the target program runs, an empty pipe that it does not
    /// run yet, and an interruption that the read is to be repeated.
    pub fn was_exec_called(read: PipeRead) -> (check: ExecCheck)
        ensures
            check == match read {
                PipeRead::Returned(bytes) => if bytes == 0 {
                    ExecCheck::Called
                } else {
                    ExecCheck::Unexpected
                },
                PipeRead::Failed(errno) => if errno == EAGAIN {
                    ExecCheck::NotCalled
                } else if errno == EINTR {
                    ExecCheck::Again
                } else {
                    ExecCheck::Unexpected
                },
            },
    {
        match read {
            PipeRead::Returned(bytes) => if bytes == 0 {
                ExecCheck::Called
            } else {
                ExecCheck::Unexpected
            },
            PipeRead::Failed(errno) => if errno == EAGAIN {
                ExecCheck::NotCalled
            } else if errno == EINTR {
                ExecCheck::Again
            } else {
                ExecCheck::Unexpected
            },
        }
    }

    /// What the text of a process's status file says of the peak size of the
    /// address space.
    pub fn get_peak_memory_usage(status: &[u8]) -> (peak: PeakMemory)
        ensures
            peak == peak_memory_of(status@),
    {
        let mut label: Vec<u8> = Vec::new();
        label.push(86);
        label.push(109);
        label.push(80);
        label.push(101);
        label.push(97);
        label.push(107);
        label.push(58);
        assert(label@ =~= peak_label());
        match find_line(status, label.as_slice(), false) {
            None => PeakMemory::NotReported,
            Some(line) => match nth_word(line, 1) {
                Some(text) => match parse_u64(text) {
                    Some(kibibytes) => PeakMemory::Reported(kibibytes),
                    None => PeakMemory::Malformed,
                },
                None => PeakMemory::Malformed,
            },
        }
    }

    /// Whether the supervisor must wake on a cadence for this probe: it must
    /// when a memory limit is set.
    pub fn requires_timeout(&self, settings: &ExecutionSettings) -> (needed: bool)
        ensures
            needed == settings.memory_limit_kibibytes is Some,
    {
        settings.memory_limit_kibibytes.is_some()
    }

    /// What a wakeup does to the peak, to the result and to the child: once
    /// the target program runs, the peak follows the sample, and a peak over
    /// the limit stamps the verdict and asks for the kill.
    pub open spec fn wakeup(
        peak: u64,
        settings: ExecutionSettings,
        result: ExecutionResultView,
        reading: Reading<MemorySample>,
    ) -> (u64, ExecutionResultView, Result<WakeupAction, RunError>) {
        match reading {
            Reading::Absent => (peak, result, Ok(WakeupAction::Continue)),
            Reading::Failed(errno) => (peak, result, Err(RunError::IOError(errno))),
            Reading::Taken(sample) => if !sample.exec_called {
                (peak, result, Ok(WakeupAction::Continue))
            } else {
                let seen = larger(peak, sample.observed_peak());
                if settings.memory_limit_kibibytes is Some && seen
                    > settings.memory_limit_kibibytes->Some_0 {
                    (
                        seen,
                        ExecutionResultView {
                            exit_status: result.exit_status.stamp(
                                Verdict::MLE(Self::limit_comment()),
                            ),
                            ..result
                        },
                        Ok(WakeupAction::Kill),
                    )
                } else {
                    (seen, result, Ok(WakeupAction::Continue))
                }
            },
        }
    }

    /// Looks at the child's memory on a wakeup.
    pub fn on_wakeup(
        &mut self,
        settings: &ExecutionSettings,
        result: &mut ExecutionResult,
        reading: &Reading<MemorySample>,
    ) -> (answer: Result<WakeupAction, RunError>)
        ensures
            (final(self).peak_memory_kibibytes, final(result)@, answer) == Self::wakeup(
                old(self).peak_memory_kibibytes,
                *settings,
                old(result)@,
                *reading,
            ),
    {
        match reading {
            Reading::Absent => Ok(WakeupAction::Continue),
            Reading::Failed(errno) => Err(RunError::IOError(*errno)),
            Reading::Taken(sample) => {
                if !sample.exec_called {
                    return Ok(WakeupAction::Continue);
                }
                let observed: u64 = match sample.peak_kibibytes {
                    Some(peak) => peak,
                    None => 0,
                };
                if observed > self.peak_memory_kibibytes {
                    self.peak_memory_kibibytes = observed;
                }
                match settings.memory_limit_kibibytes {
                    Some(limit) => {
                        if self.peak_memory_kibibytes > limit {
                            result.set_exit_status(
                                ExitStatus::MLE(String::from_str("memory limit exceeded")),
                            );
                            return Ok(WakeupAction::Kill);
                        }
                    },
                    None => {},
                }
                Ok(WakeupAction::Continue)
            },
        }
    }

    /// What the end of the run does: the peak is stored, and a peak over the
    /// limit stamps the verdict.
    pub open spec fn post_execute(
        peak: u64,
        settings: ExecutionSettings,
        result: ExecutionResultView,
    ) -> ExecutionResultView {
        ExecutionResultView {
            exit_status: if settings.memory_limit_kibibytes is Some && peak
                > settings.memory_limit_kibibytes->Some_0 {
                result.exit_status.stamp(Verdict::MLE(Self::limit_comment()))
            } else {
                result.exit_status
            },
            memory_usage_kibibytes: Some(peak),
            ..result
        }
    }

    /// Stores the peak once the child has ended.
    pub fn on_post_execute(&self, settings: &ExecutionSettings, result: &mut ExecutionResult)
        ensures
            final(result)@ == Self::post_execute(
                self.peak_memory_kibibytes,
                *settings,
                old(result)@,
            ),
    {
        result.set_memory_usage_kibibytes(self.peak_memory_kibibytes);
        match settings.memory_limit_kibibytes {
            Some(limit) => {
                if self.peak_memory_kibibytes > limit {
                    result.set_exit_status(
                        ExitStatus::MLE(String::from_str("memory limit exceeded")),
                    );
                }
            },
            None => {},
        }
    }
}

/// The peak of a probe that started at `peak` and was woken once for each
/// of `samples`, in order.
pub open spec fn peak_after_wakeups(
    peak: u64,
    settings: ExecutionSettings,
    samples: Seq<MemorySample>,
) -> u64
    decreases samples.len(),
{
    if samples.len() == 0 {
        peak
    } else {
        MemoryListener::wakeup(
            peak_after_wakeups(peak, settings, samples.drop_last()),
            settings,
            ExecutionResult::new_view(),
            Reading::Taken(samples.last()),
        ).0
    }
}

/// What a wakeup does to the peak depends on the sample alone: the peak
/// moves to the larger of the peak and what the sample contributes,
/// whatever the settings and the result are.
pub proof fn lemma_wakeup_peak(
    peak: u64,
    settings: ExecutionSettings,
    result: ExecutionResultView,
    sample: MemorySample,
)
    ensures
        MemoryListener::wakeup(peak, settings, result, Reading::Taken(sample)).0 == larger(
            peak,
            sample.observed_peak(),
        ),
{
}

/// A probe is as good as its samples: after any series of wakeups, a new
/// probe holds the largest peak that was observed while the target program
/// ran. It is at least every observed peak, and it is one of them, or 0
/// where nothing was observed. So what the end of the run stores as the
/// memory use is the largest peak observed during the run.
pub proof fn lemma_peak_is_largest_seen(settings: ExecutionSettings, samples: Seq<MemorySample>)
    ensures
        peak_after_wakeups(0, settings, samples) == largest_peak(samples),
        forall|i: int|
            0 <= i < samples.len() ==> peak_after_wakeups(0, settings, samples) >= (
            #[trigger] samples[i]).observed_peak(),
        peak_after_wakeups(0, settings, samples) == 0 || exists|i: int|
            0 <= i < samples.len() && peak_after_wakeups(0, settings, samples)
                == (#[trigger] samples[i]).observed_peak(),
        forall|result: ExecutionResultView|
            (#[trigger] MemoryListener::post_execute(
                peak_after_wakeups(0, settings, samples),
                settings,
                result,
            )).memory_usage_kibibytes == Some(largest_peak(samples)),
    decreases samples.len(),
{
    if samples.len() > 0 {
        let front = samples.drop_last();
        lemma_peak_is_largest_seen(settings, front);
        let now = peak_after_wakeups(0, settings, samples);
        assert forall|i: int| 0 <= i < samples.len() implies now >= (
        #[trigger] samples[i]).observed_peak() by {
            if i < front.len() {
                assert(front[i] == samples[i]);
            }
        }
        if now != 0 {
            if now == samples.last().observed_peak() {
                assert(samples[samples.len() - 1] == samples.last());
            } else {
                let i = choose|i: int|
                    0 <= i < front.len() && peak_after_wakeups(0, settings, front)
                        == (#[trigger] front[i]).observed_peak();
                assert(front[i] == samples[i]);
            }
        }
    }
}

/// On a result without a complaint, a peak over the memory limit leaves
/// exactly the verdict "memory limit exceeded", on a wakeup as at the end of
/// the run, and on a wakeup it asks for the kill.
pub proof fn lemma_memory_limit_verdict(
    peak: u64,
    settings: ExecutionSettings,
    result: ExecutionResultView,
    sample: MemorySample,
)
    requires
        result.exit_status is OK,
        settings.memory_limit_kibibytes is Some,
        sample.exec_called,
        larger(peak, sample.observed_peak()) > settings.memory_limit_kibibytes->Some_0,
    ensures
        ({
            let verdict = Verdict::MLE("memory limit exceeded"@);
            let woken = MemoryListener::wakeup(peak, settings, result, Reading::Taken(sample));
            &&& woken.1.exit_status == verdict
            &&& woken.2 == Ok::<WakeupAction, RunError>(WakeupAction::Kill)
            &&& MemoryListener::post_execute(woken.0, settings, result).exit_status == verdict
        }),
{
}

} // verus!
