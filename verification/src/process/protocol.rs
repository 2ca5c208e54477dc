//! The spawn protocol: what either side of the clone does, and in which
//! order.
//!
//! The parent and the child meet at two barriers. The child reports ready
//! once its own setup is done, and then waits. The parent lets the child go
//! only after every probe is set up on the parent's side. So the target
//! program never runs before the probes are in place.

use vstd::prelude::*;

use crate::listener::Listener;
use crate::process::data::ExecutionContext;
use crate::process::data::ExecutionSettings;
use crate::process::error::SpawnError;
use crate::process::jail::Feature;
use crate::util::text::find_line;
use crate::util::text::first_line;
use crate::util::text::i32_of;
use crate::util::text::nth_word;
use crate::util::text::parse_i32;
use crate::util::text::word;

verus! {

/// One of the three standard streams of a process.
#[derive(Clone, Copy, Debug, PartialEq, Eq, Structural)]
pub enum StandardStream {
    /// Standard input.
    Input,
    /// Standard output.
    Output,
    /// Standard error.
    Error,
}

/// One step of the child between the clone and the target program.
#[derive(Clone, Copy, Debug, PartialEq, Eq, Structural)]
pub enum ChildStep {
    /// Run the child's part of the setup of the probe of this feature.
    PostCloneChild(Feature),
    /// Change to the working directory of the settings.
    ChangeDirectory,
    /// Duplicate this descriptor onto the slot of a standard stream.
    Redirect { stream: StandardStream, fd: i32 },
    /// Close this descriptor, inside the child only.
    Close(i32),
    /// Tell the parent that the child's setup is done.
    SignalChildReady,
    /// Wait until the parent lets the child go.
    AwaitParentReady,
    /// Replace the child by the target program.
    Execute,
}

/// One step of the parent while it spawns a child.
#[derive(Clone, Copy, Debug, PartialEq, Eq, Structural)]
pub enum ParentStep {
    /// Create the child and take hold of its process id.
    CreateChild,
    /// Wait until the child's setup is done.
    AwaitChildReady,
    /// Run the parent's part of the setup of the probe of this feature.
    PostCloneParent(Feature),
    /// Let the child go.
    SignalParentReady,
}

/// The feature that a probe serves.
pub open spec fn feature_of(listener: Listener) -> Feature {
    match listener {
        Listener::Perf(_) => Feature::PERF,
        Listener::Time(_) => Feature::TIME_MEASUREMENT,
        Listener::Memory(_) => Feature::MEMORY_MEASUREMENT,
        Listener::Ptrace(_) => Feature::PTRACE,
    }
}

/// The steps that redirect one standard stream: duplicate the descriptor
/// onto the stream's slot, then close the descriptor.
pub open spec fn redirect(fd: Option<i32>, stream: StandardStream) -> Seq<ChildStep> {
    match fd {
        Some(fd) => seq![ChildStep::Redirect { stream, fd }, ChildStep::Close(fd)],
        None => Seq::<ChildStep>::empty(),
    }
}

/// The child's part of the setup of each probe, in the order of
/// registration.
pub open spec fn child_hooks(listeners: Seq<Listener>) -> Seq<ChildStep> {
    Seq::new(listeners.len(), |i: int| ChildStep::PostCloneChild(feature_of(listeners[i])))
}

/// The change to the working directory, where the settings name one.
pub open spec fn change_directory(settings: ExecutionSettings) -> Seq<ChildStep> {
    if settings.working_dir is Some {
        seq![ChildStep::ChangeDirectory]
    } else {
        Seq::<ChildStep>::empty()
    }
}

/// The rendezvous with the parent, and the target program after it.
pub open spec fn rendezvous_and_execute() -> Seq<ChildStep> {
    seq![ChildStep::SignalChildReady, ChildStep::AwaitParentReady, ChildStep::Execute]
}

/// The steps of the child, in order: the probes' setup in the order of
/// registration, the working directory, the three standard streams, the
/// rendezvous with the parent, and the target program last.
pub open spec fn child_steps(listeners: Seq<Listener>, settings: ExecutionSettings) -> Seq<
    ChildStep,
> {
    child_hooks(listeners) + change_directory(settings) + redirect(
        settings.stdin_fd,
        StandardStream::Input,
    ) + redirect(settings.stdout_fd, StandardStream::Output) + redirect(
        settings.stderr_fd,
        StandardStream::Error,
    ) + rendezvous_and_execute()
}

/// The steps of the parent, in order: the clone, the wait for the child's
/// setup, the probes' setup in the order of registration, and the release of
/// the child last.
pub open spec fn parent_steps(listeners: Seq<Listener>) -> Seq<ParentStep> {
    seq![ParentStep::CreateChild, ParentStep::AwaitChildReady] + Seq::new(
        listeners.len(),
        |i: int| ParentStep::PostCloneParent(feature_of(listeners[i])),
    ) + seq![ParentStep::SignalParentReady]
}

impl Listener {
    /// The feature that the probe serves.
    pub fn feature(&self) -> (feature: Feature)
        ensures
            feature == feature_of(*self),
    {
        match self {
            Listener::Perf(_) => Feature::PERF,
            Listener::Time(_) => Feature::TIME_MEASUREMENT,
            Listener::Memory(_) => Feature::MEMORY_MEASUREMENT,
            Listener::Ptrace(_) => Feature::PTRACE,
        }
    }
}

fn push_redirect(plan: &mut Vec<ChildStep>, fd: Option<i32>, stream: StandardStream)
    ensures
        final(plan)@ == old(plan)@ + redirect(fd, stream),
{
    match fd {
        Some(fd) => {
            plan.push(ChildStep::Redirect { stream, fd });
            plan.push(ChildStep::Close(fd));
            assert(plan@ =~= old(plan)@ + redirect(Some(fd), stream));
        },
        None => {
            assert(plan@ =~= old(plan)@ + redirect(None, stream));
        },
    }
}

fn push_rendezvous(plan: &mut Vec<ChildStep>)
    ensures
        final(plan)@ == old(plan)@ + rendezvous_and_execute(),
{
    plan.push(ChildStep::SignalChildReady);
    plan.push(ChildStep::AwaitParentReady);
    plan.push(ChildStep::Execute);
    assert(plan@ =~= old(plan)@ + rendezvous_and_execute());
}

impl ExecutionContext {
    /// The steps of the child between the clone and the target program.
    pub fn child_plan(&self) -> (plan: Vec<ChildStep>)
        ensures
            plan@ == child_steps(self.listeners@, self.settings),
    {
        let mut plan: Vec<ChildStep> = Vec::new();
        let mut i: usize = 0;
        while i < self.listeners.len()
            invariant
                i <= self.listeners@.len(),
                plan@ == child_hooks(self.listeners@.take(i as int)),
            decreases self.listeners@.len() - i,
        {
            plan.push(ChildStep::PostCloneChild(self.listeners[i].feature()));
            i += 1;
            assert(plan@ =~= child_hooks(self.listeners@.take(i as int)));
        }
        assert(self.listeners@.take(i as int) =~= self.listeners@);
        if self.settings.working_dir.is_some() {
            plan.push(ChildStep::ChangeDirectory);
        }
        assert(plan@ =~= child_hooks(self.listeners@) + change_directory(self.settings));
        push_redirect(&mut plan, self.settings.stdin_fd, StandardStream::Input);
        push_redirect(&mut plan, self.settings.stdout_fd, StandardStream::Output);
        push_redirect(&mut plan, self.settings.stderr_fd, StandardStream::Error);
        push_rendezvous(&mut plan);
        plan
    }

    /// The steps of the parent while it spawns the child.
    pub fn parent_plan(&self) -> (plan: Vec<ParentStep>)
        ensures
            plan@ == parent_steps(self.listeners@),
    {
        let mut plan: Vec<ParentStep> = Vec::new();
        plan.push(ParentStep::CreateChild);
        plan.push(ParentStep::AwaitChildReady);
        let mut i: usize = 0;
        while i < self.listeners.len()
            invariant
                i <= self.listeners@.len(),
                plan@ == seq![ParentStep::CreateChild, ParentStep::AwaitChildReady] + Seq::new(
                    i as nat,
                    |j: int| ParentStep::PostCloneParent(feature_of(self.listeners@[j])),
                ),
            decreases self.listeners@.len() - i,
        {
            plan.push(ParentStep::PostCloneParent(self.listeners[i].feature()));
            i += 1;
            assert(plan@ =~= seq![ParentStep::CreateChild, ParentStep::AwaitChildReady]
                + Seq::new(
                i as nat,
                |j: int| ParentStep::PostCloneParent(feature_of(self.listeners@[j])),
            ));
        }
        plan.push(ParentStep::SignalParentReady);
        assert(plan@ =~= parent_steps(self.listeners@));
        plan
    }
}

/// The label of the line that names the process of a process descriptor:
/// the bytes of `Pid:`.
pub open spec fn pid_label() -> Seq<u8> {
    seq![80u8, 105u8, 100u8, 58u8]
}

/// The process id that the description of a process descriptor names: the
/// second word of the first line that holds the label, read as an `i32`.
pub open spec fn described_pid(fdinfo: Seq<u8>) -> Option<i32> {
    match first_line(fdinfo, 0, pid_label(), true) {
        None => None,
        Some(line) => if word(line, 1) is Some {
            i32_of(word(line, 1)->Some_0)
        } else {
            None
        },
    }
}

/// The process id of the child, from the kernel's description of the
/// descriptor that the clone handed out. There is none where the text has
/// no such line or no number in its place: the descriptor is then no
/// process descriptor.
pub fn read_child_pid(fdinfo: &[u8]) -> (pid: Option<i32>)
    ensures
        pid == described_pid(fdinfo@),
{
    let mut label: Vec<u8> = Vec::new();
    label.push(80);
    label.push(105);
    label.push(100);
    label.push(58);
    assert(label@ =~= pid_label());
    match find_line(fdinfo, label.as_slice(), true) {
        None => None,
        Some(line) => match nth_word(line, 1) {
            Some(text) => parse_i32(text),
            None => None,
        },
    }
}

/// What a failed step of the parent means for the spawn.
#[derive(Clone, Copy, Debug, PartialEq, Eq, Structural)]
pub struct SpawnFailure {
    /// The error that the spawn returns.
    pub error: SpawnError,
    /// Whether a child exists already and has to be killed.
    pub kill_child: bool,
}

/// What the spawn comes to when `step` fails with error number `errno`: the
/// error names the step, and a child that exists already is killed.
pub fn spawn_failure(step: ParentStep, errno: i32) -> (failure: SpawnFailure)
    ensures
        failure == match step {
            ParentStep::CreateChild => SpawnFailure {
                error: SpawnError::CloneFailed(errno),
                kill_child: false,
            },
            ParentStep::PostCloneParent(_) => SpawnFailure {
                error: SpawnError::ListenerSetupFailed(errno),
                kill_child: true,
            },
            ParentStep::AwaitChildReady => SpawnFailure {
                error: SpawnError::BarrierFailed(errno),
                kill_child: true,
            },
            ParentStep::SignalParentReady => SpawnFailure {
                error: SpawnError::BarrierFailed(errno),
                kill_child: true,
            },
        },
{
    match step {
        ParentStep::CreateChild => SpawnFailure {
            error: SpawnError::CloneFailed(errno),
            kill_child: false,
        },
        ParentStep::PostCloneParent(_) => SpawnFailure {
            error: SpawnError::ListenerSetupFailed(errno),
            kill_child: true,
        },
        _ => SpawnFailure { error: SpawnError::BarrierFailed(errno), kill_child: true },
    }
}

/// The order that the two barriers guard.
///
/// The child executes the target program as its very last step, and waits
/// for the parent right before it. The parent lets the child go as its very
/// last step, after the parent's part of every probe's setup. So as long as
/// the barriers hold, the target program does not start before every probe
/// is set up on the parent's side.
pub proof fn lemma_barrier_ordering(listeners: Seq<Listener>, settings: ExecutionSettings)
    ensures
        ({
            let child = child_steps(listeners, settings);
            let parent = parent_steps(listeners);
            &&& child.len() >= 3
            &&& child[child.len() - 1] == ChildStep::Execute
            &&& child[child.len() - 2] == ChildStep::AwaitParentReady
            &&& child[child.len() - 3] == ChildStep::SignalChildReady
            &&& forall|i: int| 0 <= i < child.len() - 1 ==> child[i] != ChildStep::Execute
            &&& parent.len() == listeners.len() + 3
            &&& parent[parent.len() - 1] == ParentStep::SignalParentReady
            &&& forall|i: int|
                0 <= i < parent.len() - 1 ==> parent[i] != ParentStep::SignalParentReady
            &&& forall|k: int|
                0 <= k < listeners.len() ==> #[trigger] parent[k + 2]
                    == ParentStep::PostCloneParent(feature_of(listeners[k]))
        }),
{
    let hooks = child_hooks(listeners);
    let dir = change_directory(settings);
    let stdin = redirect(settings.stdin_fd, StandardStream::Input);
    let stdout = redirect(settings.stdout_fd, StandardStream::Output);
    let stderr = redirect(settings.stderr_fd, StandardStream::Error);
    let before = hooks + dir + stdin + stdout + stderr;
    let child = child_steps(listeners, settings);
    assert(child == before + rendezvous_and_execute());
    assert forall|i: int| 0 <= i < before.len() implies before[i] != ChildStep::Execute by {
        if i < hooks.len() {
        } else if i < hooks.len() + dir.len() {
        } else if i < hooks.len() + dir.len() + stdin.len() {
        } else if i < hooks.len() + dir.len() + stdin.len() + stdout.len() {
        } else {
        }
    }
    assert forall|i: int| 0 <= i < child.len() - 1 implies child[i] != ChildStep::Execute by {
        if i < before.len() {
            assert(child[i] == before[i]);
        }
    }
}

} // verus!
