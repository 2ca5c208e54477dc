//! What a run ends with: one verdict, one cause of termination, and the
//! measurements taken on the way.

use vstd::prelude::*;
use vstd::string::StringExecFns;

use crate::time::Duration;
use crate::util::append_decimal;
use crate::util::CYCLES_PER_SECOND;
use crate::util::decimal_text;

verus! {

/// The verdict on a run.
///
/// `OK` means that no limit was broken and nothing went wrong. Every other
/// verdict carries a human-readable comment.
#[derive(Debug, PartialEq)]
pub enum ExitStatus {
    /// No complaint.
    OK,
    /// Runtime error.
    RE(String),
    /// Rule violation.
    RV(String),
    /// Time limit exceeded.
    TLE(String),
    /// Memory limit exceeded.
    MLE(String),
    /// Output limit exceeded.
    OLE(String),
}

/// A verdict as a mathematical value: the kind and the comment's characters.
pub enum Verdict {
    OK,
    RE(Seq<char>),
    RV(Seq<char>),
    TLE(Seq<char>),
    MLE(Seq<char>),
    OLE(Seq<char>),
}

impl Verdict {
    /// The comment of the verdict; `OK` has the empty comment.
    pub open spec fn comment(self) -> Seq<char> {
        match self {
            Verdict::OK => Seq::<char>::empty(),
            Verdict::RE(c) => c,
            Verdict::RV(c) => c,
            Verdict::TLE(c) => c,
            Verdict::MLE(c) => c,
            Verdict::OLE(c) => c,
        }
    }

    /// The verdict that stands after `next` is stamped on `self`: the first
    /// verdict that is not `OK` stays for good.
    pub open spec fn stamp(self, next: Verdict) -> Verdict {
        if self is OK {
            next
        } else {
            self
        }
    }

    /// The verdict that stands after each of `stamps` has been stamped on
    /// `self`, in order.
    pub open spec fn stamp_all(self, stamps: Seq<Verdict>) -> Verdict
        decreases stamps.len(),
    {
        if stamps.len() == 0 {
            self
        } else {
            self.stamp_all(stamps.drop_last()).stamp(stamps.last())
        }
    }
}

/// The comment of the verdict for a child that a signal ended.
pub open spec fn killed_by_signal_text(signal: int) -> Seq<char> {
    "runtime error: killed by signal "@ + decimal_text(signal)
}

impl View for ExitStatus {
    type V = Verdict;

    open spec fn view(&self) -> Verdict {
        match self {
            ExitStatus::OK => Verdict::OK,
            ExitStatus::RE(c) => Verdict::RE(c@),
            ExitStatus::RV(c) => Verdict::RV(c@),
            ExitStatus::TLE(c) => Verdict::TLE(c@),
            ExitStatus::MLE(c) => Verdict::MLE(c@),
            ExitStatus::OLE(c) => Verdict::OLE(c@),
        }
    }
}

impl Clone for ExitStatus {
    fn clone(&self) -> (copy: Self)
        ensures
            copy == *self,
    {
        match self {
            ExitStatus::OK => ExitStatus::OK,
            ExitStatus::RE(c) => ExitStatus::RE(c.clone()),
            ExitStatus::RV(c) => ExitStatus::RV(c.clone()),
            ExitStatus::TLE(c) => ExitStatus::TLE(c.clone()),
            ExitStatus::MLE(c) => ExitStatus::MLE(c.clone()),
            ExitStatus::OLE(c) => ExitStatus::OLE(c.clone()),
        }
    }
}

impl ExitStatus {
    /// The comment that the verdict carries; empty for `OK`.
    pub fn get_exit_status_comment(&self) -> (comment: String)
        ensures
            comment@ == self@.comment(),
    {
        match self {
            ExitStatus::OK => String::new(),
            ExitStatus::RE(comment) => comment.clone(),
            ExitStatus::RV(comment) => comment.clone(),
            ExitStatus::TLE(comment) => comment.clone(),
            ExitStatus::MLE(comment) => comment.clone(),
            ExitStatus::OLE(comment) => comment.clone(),
        }
    }

    /// Whether the verdict is `OK`.
    pub fn is_ok(&self) -> (ok: bool)
        ensures
            ok == (self@ is OK),
    {
        match self {
            ExitStatus::OK => true,
            _ => false,
        }
    }

    /// The verdict for a child that signal `signal` ended.
    pub fn killed_by_signal(signal: i32) -> (status: ExitStatus)
        ensures
            status@ == Verdict::RE(killed_by_signal_text(signal as int)),
    {
        let mut comment = String::from_str("runtime error: killed by signal ");
        append_decimal(&mut comment, signal);
        ExitStatus::RE(comment)
    }
}

/// How the child came to its end.
#[derive(Clone, Copy, Debug, PartialEq, Eq, Structural)]
pub enum ExitReason {
    /// The child ran until it exited, with this status.
    Exited { exit_status: i32 },
    /// A signal ended the child.
    Killed { signal: i32 },
}

/// The whole milliseconds of measured time that `instructions` retired
/// instructions stand for, at `CYCLES_PER_SECOND` instructions a second.
pub open spec fn measured_time_millis(instructions: int) -> int {
    instructions * 1_000 / (CYCLES_PER_SECOND as int)
}

/// An execution result as a mathematical value. Time spans are nanoseconds.
pub struct ExecutionResultView {
    pub exit_status: Verdict,
    pub exit_reason: ExitReason,
    pub instructions_used: Option<i64>,
    pub measured_time: Option<nat>,
    pub real_time: nat,
    pub user_time: nat,
    pub system_time: nat,
    pub memory_usage_kibibytes: Option<u64>,
}

/// The result of a run, filled in while the run is supervised.
///
/// The verdict leaves `OK` at most once: the first complaint stands and later
/// ones are dropped. The measured time is present exactly when the
/// instruction count is, and is always the time that the count stands for.
#[derive(Debug, PartialEq)]
pub struct ExecutionResult {
    exit_status: ExitStatus,
    exit_reason: ExitReason,
    measured: Option<(i64, Duration)>,
    real_time: Duration,
    user_time: Duration,
    system_time: Duration,
    memory_usage_kibibytes: Option<u64>,
}

impl View for ExecutionResult {
    type V = ExecutionResultView;

    closed spec fn view(&self) -> ExecutionResultView {
        ExecutionResultView {
            exit_status: self.exit_status@,
            exit_reason: self.exit_reason,
            instructions_used: match self.measured {
                Some(pair) => Some(pair.0),
                None => None,
            },
            measured_time: match self.measured {
                Some(pair) => Some(pair.1@),
                None => None,
            },
            real_time: self.real_time@,
            user_time: self.user_time@,
            system_time: self.system_time@,
            memory_usage_kibibytes: self.memory_usage_kibibytes,
        }
    }
}

impl ExecutionResultView {
    /// The measured time is there exactly when the instruction count is, and
    /// is the time that the count stands for.
    pub open spec fn measured_time_matches(self) -> bool {
        match self.instructions_used {
            Some(count) => count >= 0 && self.measured_time == Some(
                (measured_time_millis(count as int) * 1_000_000) as nat,
            ),
            None => self.measured_time is None,
        }
    }
}

impl Clone for ExecutionResult {
    fn clone(&self) -> (copy: Self)
        ensures
            copy@ == self@,
    {
        proof {
            use_type_invariant(self);
        }
        ExecutionResult {
            exit_status: self.exit_status.clone(),
            exit_reason: self.exit_reason,
            measured: self.measured,
            real_time: self.real_time,
            user_time: self.user_time,
            system_time: self.system_time,
            memory_usage_kibibytes: self.memory_usage_kibibytes,
        }
    }
}

impl ExecutionResult {
    #[verifier::type_invariant]
    spec fn measured_time_in_step(self) -> bool {
        self@.measured_time_matches()
    }

    /// The result before anything is known, as a mathematical value.
    pub open spec fn new_view() -> ExecutionResultView {
        ExecutionResultView {
            exit_status: Verdict::OK,
            exit_reason: ExitReason::Exited { exit_status: 0 },
            instructions_used: None,
            measured_time: None,
            real_time: 0,
            user_time: 0,
            system_time: 0,
            memory_usage_kibibytes: None,
        }
    }

    /// The result before anything is known: verdict `OK`, exit with status 0,
    /// nothing measured.
    pub fn new() -> (result: ExecutionResult)
        ensures
            result@ == ExecutionResult::new_view(),
    {
        ExecutionResult {
            exit_status: ExitStatus::OK,
            exit_reason: ExitReason::Exited { exit_status: 0 },
            measured: None,
            real_time: Duration::zero(),
            user_time: Duration::zero(),
            system_time: Duration::zero(),
            memory_usage_kibibytes: None,
        }
    }

    /// Stamps a verdict. It takes effect only while the verdict is still
    /// `OK`; after the first complaint every later stamp is dropped.
    pub fn set_exit_status(&mut self, exit_status: ExitStatus)
        ensures
            final(self)@ == (ExecutionResultView {
                exit_status: old(self)@.exit_status.stamp(exit_status@),
                ..old(self)@
            }),
    {
        proof {
            use_type_invariant(&*self);
        }
        if self.exit_status.is_ok() {
            self.exit_status = exit_status;
        }
    }

    /// Records how the child ended.
    pub fn set_exit_reason(&mut self, exit_reason: ExitReason)
        ensures
            final(self)@ == (ExecutionResultView { exit_reason, ..old(self)@ }),
    {
        proof {
            use_type_invariant(&*self);
        }
        self.exit_reason = exit_reason;
    }

    /// Records the number of retired instructions, and with it the measured
    /// time: `instructions_used * 1000 / 2_000_000_000` whole milliseconds.
    pub fn set_instructions_used(&mut self, instructions_used: i64)
        requires
            instructions_used >= 0,
        ensures
            final(self)@ == (ExecutionResultView {
                instructions_used: Some(instructions_used),
                measured_time: Some(
                    (measured_time_millis(instructions_used as int) * 1_000_000) as nat,
                ),
                ..old(self)@
            }),
    {
        proof {
            use_type_invariant(&*self);
            lemma_measured_time_millis(instructions_used as int);
        }
        let millis: u64 = (instructions_used / (CYCLES_PER_SECOND / 1_000)) as u64;
        self.measured = Some((instructions_used, Duration::from_millis(millis)));
    }

    /// Records the wall-clock time of the run.
    pub fn set_real_time(&mut self, real_time: Duration)
        ensures
            final(self)@ == (ExecutionResultView { real_time: real_time@, ..old(self)@ }),
    {
        proof {
            use_type_invariant(&*self);
        }
        self.real_time = real_time;
    }

    /// Records the time the child spent in user mode.
    pub fn set_user_time(&mut self, user_time: Duration)
        ensures
            final(self)@ == (ExecutionResultView { user_time: user_time@, ..old(self)@ }),
    {
        proof {
            use_type_invariant(&*self);
        }
        self.user_time = user_time;
    }

    /// Records the time the child spent in kernel mode.
    pub fn set_system_time(&mut self, system_time: Duration)
        ensures
            final(self)@ == (ExecutionResultView { system_time: system_time@, ..old(self)@ }),
    {
        proof {
            use_type_invariant(&*self);
        }
        self.system_time = system_time;
    }

    /// Records the peak memory use of the child, in KiB.
    pub fn set_memory_usage_kibibytes(&mut self, kibibytes: u64)
        ensures
            final(self)@ == (ExecutionResultView {
                memory_usage_kibibytes: Some(kibibytes),
                ..old(self)@
            }),
    {
        proof {
            use_type_invariant(&*self);
        }
        self.memory_usage_kibibytes = Some(kibibytes);
    }

    /// The verdict.
    pub fn exit_status(&self) -> (status: &ExitStatus)
        ensures
            status@ == self@.exit_status,
    {
        &self.exit_status
    }

    /// How the child ended.
    pub fn exit_reason(&self) -> (reason: ExitReason)
        ensures
            reason == self@.exit_reason,
    {
        self.exit_reason
    }

    /// The number of instructions that the child retired, where it was
    /// counted.
    pub fn instructions_used(&self) -> (count: Option<i64>)
        ensures
            count == self@.instructions_used,
            self@.measured_time_matches(),
    {
        proof {
            use_type_invariant(self);
        }
        match self.measured {
            Some(pair) => Some(pair.0),
            None => None,
        }
    }

    /// The measured time: present exactly when the instruction count is, and
    /// then the whole milliseconds that the count stands for.
    pub fn measured_time(&self) -> (time: Option<Duration>)
        ensures
            time is Some == self@.measured_time is Some,
            time matches Some(t) ==> self@.measured_time == Some(t@),
            self@.measured_time_matches(),
    {
        proof {
            use_type_invariant(self);
        }
        match self.measured {
            Some(pair) => Some(pair.1),
            None => None,
        }
    }

    /// The wall-clock time of the run.
    pub fn real_time(&self) -> (time: Duration)
        ensures
            time@ == self@.real_time,
    {
        self.real_time
    }

    /// The time the child spent in user mode.
    pub fn user_time(&self) -> (time: Duration)
        ensures
            time@ == self@.user_time,
    {
        self.user_time
    }

    /// The time the child spent in kernel mode.
    pub fn system_time(&self) -> (time: Duration)
        ensures
            time@ == self@.system_time,
    {
        self.system_time
    }

    /// The peak memory use of the child in KiB, where it was sampled.
    pub fn memory_usage_kibibytes(&self) -> (kibibytes: Option<u64>)
        ensures
            kibibytes == self@.memory_usage_kibibytes,
    {
        self.memory_usage_kibibytes
    }
}

/// A count times a thousand, divided by the instructions in a second, is the
/// count divided by the instructions in a millisecond.
pub proof fn lemma_measured_time_millis(instructions: int)
    requires
        instructions >= 0,
    ensures
        measured_time_millis(instructions) == instructions / 2_000_000,
        measured_time_millis(instructions) >= 0,
{
    assert(instructions * 1_000 / 2_000_000_000 == instructions / 2_000_000) by (nonlinear_arith)
        requires
            instructions >= 0,
    ;
}

/// Starting from `OK`, stamping any sequence of verdicts leaves the first of
/// them that is not `OK`, and `OK` when all of them are.
pub proof fn lemma_first_complaint_stands(stamps: Seq<Verdict>)
    ensures
        (forall|i: int| 0 <= i < stamps.len() ==> stamps[i] is OK) ==> Verdict::OK.stamp_all(
            stamps,
        ) is OK,
        forall|i: int|
            0 <= i < stamps.len() && !(stamps[i] is OK) && (forall|j: int|
                0 <= j < i ==> stamps[j] is OK) ==> Verdict::OK.stamp_all(stamps)
                == #[trigger] stamps[i],
    decreases stamps.len(),
{
    if stamps.len() > 0 {
        let front = stamps.drop_last();
        lemma_first_complaint_stands(front);
        assert forall|i: int|
            0 <= i < stamps.len() && !(stamps[i] is OK) && (forall|j: int|
                0 <= j < i ==> stamps[j] is OK) implies Verdict::OK.stamp_all(stamps)
            == #[trigger] stamps[i] by {
            if i < front.len() {
                assert(front[i] == stamps[i]);
                assert forall|j: int| 0 <= j < i implies front[j] is OK by {
                    assert(front[j] == stamps[j]);
                }
            } else {
                assert forall|j: int| 0 <= j < front.len() implies front[j] is OK by {
                    assert(front[j] == stamps[j]);
                }
            }
        }
        if forall|i: int| 0 <= i < stamps.len() ==> stamps[i] is OK {
            assert forall|j: int| 0 <= j < front.len() implies front[j] is OK by {
                assert(front[j] == stamps[j]);
            }
        }
    }
}

/// Once a verdict is a complaint, no sequence of stamps changes it.
pub proof fn lemma_complaint_is_final(verdict: Verdict, stamps: Seq<Verdict>)
    requires
        !(verdict is OK),
    ensures
        verdict.stamp_all(stamps) == verdict,
    decreases stamps.len(),
{
    if stamps.len() > 0 {
        lemma_complaint_is_final(verdict, stamps.drop_last());
    }
}

} // verus!
