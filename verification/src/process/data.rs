//! What is fixed once a child has been spawned.

use vstd::prelude::*;

use crate::listener::Listener;
use crate::process::jail::Perfjail;
use crate::time::Duration;

verus! {

/// The settings of one run. Nothing changes them after the spawn.
///
/// File descriptors are borrowed: they must stay open for as long as the
/// child is supervised, and they are never closed on the parent's behalf.
#[derive(Debug)]
pub struct ExecutionSettings {
    /// The longest wall-clock time the child may run.
    pub real_time_limit: Option<Duration>,
    /// The longest time the child may spend in user mode.
    pub user_time_limit: Option<Duration>,
    /// The longest time the child may spend in kernel mode.
    pub system_time_limit: Option<Duration>,
    /// The longest time the child may spend in user and kernel mode together.
    pub user_system_time_limit: Option<Duration>,
    /// The largest number of instructions the child may retire.
    pub instruction_count_limit: Option<i64>,
    /// The largest peak memory use, in KiB.
    pub memory_limit_kibibytes: Option<u64>,
    /// The program to execute.
    pub executable_path: String,
    /// The argument vector; its first entry is the program itself.
    pub args: Vec<String>,
    /// The directory the child changes to before it starts the program.
    pub working_dir: Option<String>,
    /// The descriptor that becomes the child's standard input.
    pub stdin_fd: Option<i32>,
    /// The descriptor that becomes the child's standard output.
    pub stdout_fd: Option<i32>,
    /// The descriptor that becomes the child's standard error.
    pub stderr_fd: Option<i32>,
}

/// What a run starts from: its settings and its probes, in the order in
/// which they are registered.
#[derive(Debug)]
pub struct ExecutionContext {
    /// The settings of the run.
    pub settings: ExecutionSettings,
    /// The probes of the run.
    pub listeners: Vec<Listener>,
}

impl ExecutionContext {
    /// The context of the run that `executor` describes: its settings, and
    /// a new probe for each of its features.
    pub fn new(executor: Perfjail) -> (context: ExecutionContext)
        ensures
            context.settings == executor.settings,
            context.listeners@ == executor.features.probes(),
    {
        let listeners = executor.features.listeners();
        ExecutionContext { settings: ExecutionSettings::new(executor), listeners }
    }
}

impl ExecutionSettings {
    /// The settings that `executor` has gathered.
    pub fn new(executor: Perfjail) -> (settings: ExecutionSettings)
        ensures
            settings == executor.settings,
    {
        executor.settings
    }

    /// Whether any of the four time limits is set.
    pub open spec fn any_time_limit(&self) -> bool {
        self.real_time_limit is Some || self.user_time_limit is Some
            || self.system_time_limit is Some || self.user_system_time_limit is Some
    }

    /// Whether any of the four time limits is set.
    pub fn has_time_limit(&self) -> (set: bool)
        ensures
            set == self.any_time_limit(),
    {
        self.real_time_limit.is_some() || self.user_time_limit.is_some()
            || self.system_time_limit.is_some() || self.user_system_time_limit.is_some()
    }
}

} // verus!
