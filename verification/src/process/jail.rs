//! Configuring a run, builder-style.

use vstd::prelude::*;
use vstd::string::StringExecFns;

use crate::listener::memory::MemoryListener;
use crate::listener::perf::PerfListener;
use crate::listener::ptrace::PtraceListener;
use crate::listener::time::TimeListener;
use crate::listener::Listener;
use crate::process::data::ExecutionSettings;
use crate::time::Duration;
use crate::util::CYCLES_PER_SECOND;

verus! {

/// The longest measured-time limit, in milliseconds, whose instruction count
/// still fits the counter's range.
pub const MAX_MEASURED_TIME_LIMIT_MILLIS: u64 = 4_611_686_018_427;

/// The instructions that stand for one millisecond of measured time: a
/// thousandth of `CYCLES_PER_SECOND`.
pub const INSTRUCTIONS_PER_MILLI: i64 = 2_000_000;

/// A thousand milliseconds of instructions are a second of them.
pub proof fn lemma_instructions_per_milli()
    ensures
        INSTRUCTIONS_PER_MILLI * 1_000 == CYCLES_PER_SECOND,
{
}

/// What a run can measure and enforce beyond the bare exit of the child.
#[allow(non_camel_case_types)]
#[derive(Clone, Copy, Debug, PartialEq, Eq, Hash, Structural)]
pub enum Feature {
    /// Counting retired instructions, and with them measured time.
    PERF,
    /// Measuring wall-clock, user and system time.
    TIME_MEASUREMENT,
    /// Measuring peak memory use.
    MEMORY_MEASUREMENT,
    /// Tracing the child, so that it dies with its supervisor.
    PTRACE,
}

/// A set of features.
#[derive(Clone, Copy, Debug, PartialEq, Eq, Hash, Structural)]
pub struct FeatureSet {
    /// Whether `PERF` is in the set.
    pub perf: bool,
    /// Whether `TIME_MEASUREMENT` is in the set.
    pub time_measurement: bool,
    /// Whether `MEMORY_MEASUREMENT` is in the set.
    pub memory_measurement: bool,
    /// Whether `PTRACE` is in the set.
    pub ptrace: bool,
}

impl FeatureSet {
    /// Whether `feature` is in the set.
    pub open spec fn has(self, feature: Feature) -> bool {
        match feature {
            Feature::PERF => self.perf,
            Feature::TIME_MEASUREMENT => self.time_measurement,
            Feature::MEMORY_MEASUREMENT => self.memory_measurement,
            Feature::PTRACE => self.ptrace,
        }
    }

    /// The set with `feature` added.
    pub open spec fn with(self, feature: Feature) -> FeatureSet {
        match feature {
            Feature::PERF => FeatureSet { perf: true, ..self },
            Feature::TIME_MEASUREMENT => FeatureSet { time_measurement: true, ..self },
            Feature::MEMORY_MEASUREMENT => FeatureSet { memory_measurement: true, ..self },
            Feature::PTRACE => FeatureSet { ptrace: true, ..self },
        }
    }

    /// The set of the features that are in either set.
    pub open spec fn joined(self, other: FeatureSet) -> FeatureSet {
        FeatureSet {
            perf: self.perf || other.perf,
            time_measurement: self.time_measurement || other.time_measurement,
            memory_measurement: self.memory_measurement || other.memory_measurement,
            ptrace: self.ptrace || other.ptrace,
        }
    }

    /// The probes of the set, in the order in which they are registered:
    /// instruction counter, time, memory, tracing.
    pub open spec fn probes(self) -> Seq<Listener> {
        (if self.perf {
            seq![Listener::Perf(PerfListener {  })]
        } else {
            Seq::<Listener>::empty()
        }) + (if self.time_measurement {
            seq![Listener::Time(TimeListener { time_limit_set: false })]
        } else {
            Seq::<Listener>::empty()
        }) + (if self.memory_measurement {
            seq![Listener::Memory(MemoryListener { peak_memory_kibibytes: 0 })]
        } else {
            Seq::<Listener>::empty()
        }) + (if self.ptrace {
            seq![Listener::Ptrace(PtraceListener {  })]
        } else {
            Seq::<Listener>::empty()
        })
    }

    /// The empty set.
    pub fn new() -> (set: FeatureSet)
        ensures
            set == FeatureSet::empty(),
            forall|feature: Feature| !set.has(feature),
    {
        FeatureSet {
            perf: false,
            time_measurement: false,
            memory_measurement: false,
            ptrace: false,
        }
    }

    /// The set that holds `feature` and nothing else.
    pub fn only(feature: Feature) -> (set: FeatureSet)
        ensures
            set == FeatureSet::empty().with(feature),
            forall|other: Feature| set.has(other) == (other == feature),
    {
        let mut set = FeatureSet::new();
        set.insert(feature);
        set
    }

    /// The empty set.
    pub open spec fn empty() -> FeatureSet {
        FeatureSet {
            perf: false,
            time_measurement: false,
            memory_measurement: false,
            ptrace: false,
        }
    }

    /// Whether `feature` is in the set.
    pub fn contains(&self, feature: Feature) -> (found: bool)
        ensures
            found == self.has(feature),
    {
        match feature {
            Feature::PERF => self.perf,
            Feature::TIME_MEASUREMENT => self.time_measurement,
            Feature::MEMORY_MEASUREMENT => self.memory_measurement,
            Feature::PTRACE => self.ptrace,
        }
    }

    /// Adds `feature` to the set. The answer is whether it was missing.
    pub fn insert(&mut self, feature: Feature) -> (added: bool)
        ensures
            *final(self) == old(self).with(feature),
            added == !old(self).has(feature),
            forall|other: Feature|
                final(self).has(other) == (other == feature || old(self).has(other)),
    {
        let added = !self.contains(feature);
        match feature {
            Feature::PERF => {
                self.perf = true;
            },
            Feature::TIME_MEASUREMENT => {
                self.time_measurement = true;
            },
            Feature::MEMORY_MEASUREMENT => {
                self.memory_measurement = true;
            },
            Feature::PTRACE => {
                self.ptrace = true;
            },
        }
        added
    }

    /// Adds every feature of `other` to the set.
    pub fn insert_all(&mut self, other: FeatureSet)
        ensures
            *final(self) == old(self).joined(other),
            forall|feature: Feature|
                final(self).has(feature) == (old(self).has(feature) || other.has(feature)),
    {
        self.perf = self.perf || other.perf;
        self.time_measurement = self.time_measurement || other.time_measurement;
        self.memory_measurement = self.memory_measurement || other.memory_measurement;
        self.ptrace = self.ptrace || other.ptrace;
    }

    /// The features of the set, in the order in which their probes are
    /// registered.
    pub fn to_vec(&self) -> (features: Vec<Feature>)
        ensures
            features@ == (if self.perf {
                seq![Feature::PERF]
            } else {
                Seq::<Feature>::empty()
            }) + (if self.time_measurement {
                seq![Feature::TIME_MEASUREMENT]
            } else {
                Seq::<Feature>::empty()
            }) + (if self.memory_measurement {
                seq![Feature::MEMORY_MEASUREMENT]
            } else {
                Seq::<Feature>::empty()
            }) + (if self.ptrace {
                seq![Feature::PTRACE]
            } else {
                Seq::<Feature>::empty()
            }),
    {
        let mut features: Vec<Feature> = Vec::new();
        if self.perf {
            features.push(Feature::PERF);
        }
        if self.time_measurement {
            features.push(Feature::TIME_MEASUREMENT);
        }
        if self.memory_measurement {
            features.push(Feature::MEMORY_MEASUREMENT);
        }
        if self.ptrace {
            features.push(Feature::PTRACE);
        }
        features
    }

    /// A new probe for each feature of the set, in the order of registration.
    pub fn listeners(&self) -> (listeners: Vec<Listener>)
        ensures
            listeners@ == self.probes(),
    {
        let mut listeners: Vec<Listener> = Vec::new();
        if self.perf {
            listeners.push(Listener::Perf(PerfListener::new()));
        }
        if self.time_measurement {
            listeners.push(Listener::Time(TimeListener::new()));
        }
        if self.memory_measurement {
            listeners.push(Listener::Memory(MemoryListener::new()));
        }
        if self.ptrace {
            listeners.push(Listener::Ptrace(PtraceListener::new()));
        }
        listeners
    }
}

/// A builder for the run of one program, in the style of
/// `std::process::Command`.
///
/// A new builder has no limits and no features. Setting a limit also enables
/// the feature that enforces it, where one is named for it.
#[derive(Debug)]
pub struct Perfjail {
    /// The settings gathered so far.
    pub settings: ExecutionSettings,
    /// The features enabled so far.
    pub features: FeatureSet,
}

impl Perfjail {
    /// A builder for running `program`: no limits, no features, the standard
    /// streams and the working directory of the supervisor, and `program`
    /// itself as the only argument.
    ///
    /// `program` is handed to the kernel as a C string, so it holds no NUL.
    pub fn new(program: &str) -> (jail: Perfjail)
        requires
            !program@.contains('\0'),
        ensures
            jail.settings.executable_path@ == program@,
            jail.settings.args@.len() == 1,
            jail.settings.args@[0]@ == program@,
            jail.settings.real_time_limit is None,
            jail.settings.user_time_limit is None,
            jail.settings.system_time_limit is None,
            jail.settings.user_system_time_limit is None,
            jail.settings.instruction_count_limit is None,
            jail.settings.memory_limit_kibibytes is None,
            jail.settings.working_dir is None,
            jail.settings.stdin_fd is None,
            jail.settings.stdout_fd is None,
            jail.settings.stderr_fd is None,
            jail.features == FeatureSet::empty(),
    {
        let mut args: Vec<String> = Vec::new();
        args.push(String::from_str(program));
        Perfjail {
            settings: ExecutionSettings {
                real_time_limit: None,
                user_time_limit: None,
                system_time_limit: None,
                user_system_time_limit: None,
                instruction_count_limit: None,
                memory_limit_kibibytes: None,
                executable_path: String::from_str(program),
                args,
                working_dir: None,
                stdin_fd: None,
                stdout_fd: None,
                stderr_fd: None,
            },
            features: FeatureSet::new(),
        }
    }

    /// Adds one argument to pass to the program.
    ///
    /// `arg` is handed to the kernel as a C string, so it holds no NUL.
    pub fn arg(self, arg: &str) -> (jail: Perfjail)
        requires
            !arg@.contains('\0'),
        ensures
            jail.settings.args@.len() == self.settings.args@.len() + 1,
            jail.settings.args@.drop_last() == self.settings.args@,
            jail.settings.args@.last()@ == arg@,
            jail.settings == (ExecutionSettings { args: jail.settings.args, ..self.settings }),
            jail.features == self.features,
    {
        let mut jail = self;
        jail.settings.args.push(String::from_str(arg));
        assert(jail.settings.args@.drop_last() =~= self.settings.args@);
        jail
    }

    /// Adds several arguments to pass to the program, in their order.
    ///
    /// Each argument is handed to the kernel as a C string, so none holds a
    /// NUL.
    pub fn args(self, args: &Vec<String>) -> (jail: Perfjail)
        requires
            forall|i: int| 0 <= i < args@.len() ==> !(#[trigger] args@[i])@.contains('\0'),
        ensures
            jail.settings.args@ == self.settings.args@ + args@,
            jail.settings == (ExecutionSettings { args: jail.settings.args, ..self.settings }),
            jail.features == self.features,
    {
        let mut jail = self;
        let mut i: usize = 0;
        while i < args.len()
            invariant
                i <= args@.len(),
                jail.settings.args@ == self.settings.args@ + args@.subrange(0, i as int),
                jail.settings == (ExecutionSettings {
                    args: jail.settings.args,
                    ..self.settings
                }),
                jail.features == self.features,
            decreases args@.len() - i,
        {
            jail.settings.args.push(args[i].clone());
            i += 1;
            assert(jail.settings.args@ =~= self.settings.args@ + args@.subrange(0, i as int));
        }
        assert(args@.subrange(0, i as int) =~= args@);
        jail
    }

    /// Sets the directory the child changes to before it starts the program.
    pub fn current_dir(self, dir: &str) -> (jail: Perfjail)
        ensures
            jail.settings.working_dir is Some,
            jail.settings.working_dir->Some_0@ == dir@,
            jail.settings == (ExecutionSettings {
                working_dir: jail.settings.working_dir,
                ..self.settings
            }),
            jail.features == self.features,
    {
        let mut jail = self;
        jail.settings.working_dir = Some(String::from_str(dir));
        jail
    }

    /// Sets the descriptor that becomes the child's standard input. The
    /// descriptor is borrowed: it must outlive the run.
    pub fn stdin(self, fd: i32) -> (jail: Perfjail)
        ensures
            jail.settings == (ExecutionSettings { stdin_fd: Some(fd), ..self.settings }),
            jail.features == self.features,
    {
        let mut jail = self;
        jail.settings.stdin_fd = Some(fd);
        jail
    }

    /// Sets the descriptor that becomes the child's standard output. The
    /// descriptor is borrowed: it must outlive the run.
    pub fn stdout(self, fd: i32) -> (jail: Perfjail)
        ensures
            jail.settings == (ExecutionSettings { stdout_fd: Some(fd), ..self.settings }),
            jail.features == self.features,
    {
        let mut jail = self;
        jail.settings.stdout_fd = Some(fd);
        jail
    }

    /// Sets the descriptor that becomes the child's standard error. The
    /// descriptor is borrowed: it must outlive the run.
    pub fn stderr(self, fd: i32) -> (jail: Perfjail)
        ensures
            jail.settings == (ExecutionSettings { stderr_fd: Some(fd), ..self.settings }),
            jail.features == self.features,
    {
        let mut jail = self;
        jail.settings.stderr_fd = Some(fd);
        jail
    }

    /// Enables one feature.
    pub fn feature(self, feature: Feature) -> (jail: Perfjail)
        ensures
            jail.settings == self.settings,
            jail.features == self.features.with(feature),
    {
        let mut jail = self;
        jail.features.insert(feature);
        jail
    }

    /// Enables every feature of `features`, on top of those already enabled.
    pub fn features(self, features: FeatureSet) -> (jail: Perfjail)
        ensures
            jail.settings == self.settings,
            jail.features == self.features.joined(features),
    {
        let mut jail = self;
        jail.features.insert_all(features);
        jail
    }

    /// Limits the wall-clock time of the run, and enables time measurement.
    pub fn real_time_limit(self, limit: Duration) -> (jail: Perfjail)
        ensures
            jail.settings == (ExecutionSettings { real_time_limit: Some(limit), ..self.settings }),
            jail.features == self.features.with(Feature::TIME_MEASUREMENT),
    {
        let mut jail = self;
        jail.settings.real_time_limit = Some(limit);
        jail.features.insert(Feature::TIME_MEASUREMENT);
        jail
    }

    /// Limits the time the child spends in user mode, and enables time
    /// measurement.
    pub fn user_time_limit(self, limit: Duration) -> (jail: Perfjail)
        ensures
            jail.settings == (ExecutionSettings { user_time_limit: Some(limit), ..self.settings }),
            jail.features == self.features.with(Feature::TIME_MEASUREMENT),
    {
        let mut jail = self;
        jail.settings.user_time_limit = Some(limit);
        jail.features.insert(Feature::TIME_MEASUREMENT);
        jail
    }

    /// Limits the time the child spends in kernel mode, and enables time
    /// measurement.
    pub fn system_time_limit(self, limit: Duration) -> (jail: Perfjail)
        ensures
            jail.settings == (ExecutionSettings {
                system_time_limit: Some(limit),
                ..self.settings
            }),
            jail.features == self.features.with(Feature::TIME_MEASUREMENT),
    {
        let mut jail = self;
        jail.settings.system_time_limit = Some(limit);
        jail.features.insert(Feature::TIME_MEASUREMENT);
        jail
    }

    /// Limits the time the child spends in user and kernel mode together,
    /// and enables time measurement.
    pub fn user_system_time_limit(self, limit: Duration) -> (jail: Perfjail)
        ensures
            jail.settings == (ExecutionSettings {
                user_system_time_limit: Some(limit),
                ..self.settings
            }),
            jail.features == self.features.with(Feature::TIME_MEASUREMENT),
    {
        let mut jail = self;
        jail.settings.user_system_time_limit = Some(limit);
        jail.features.insert(Feature::TIME_MEASUREMENT);
        jail
    }

    /// Whether `limit` can be a measured-time limit: its instruction count
    /// must fit the counter's range.
    pub fn measured_time_limit_fits(limit: &Duration) -> (fits: bool)
        ensures
            fits == (limit@ / 1_000_000 * 2_000_000 <= i64::MAX),
    {
        limit.as_millis() <= MAX_MEASURED_TIME_LIMIT_MILLIS as u128
    }

    /// Limits the measured time of the run, and enables the instruction
    /// counter. The limit is kept as a count of instructions: two million
    /// for each whole millisecond of `limit`.
    pub fn measured_time_limit(self, limit: Duration) -> (jail: Perfjail)
        requires
            limit@ / 1_000_000 * 2_000_000 <= i64::MAX,
        ensures
            jail.settings == (ExecutionSettings {
                instruction_count_limit: Some((limit@ / 1_000_000 * 2_000_000) as i64),
                ..self.settings
            }),
            jail.features == self.features.with(Feature::PERF),
    {
        let mut jail = self;
        let millis: i64 = limit.as_millis() as i64;
        jail.settings.instruction_count_limit = Some(millis * INSTRUCTIONS_PER_MILLI);
        jail.features.insert(Feature::PERF);
        jail
    }

    /// Limits the number of instructions the child may retire. The limit is
    /// enforced where the instruction counter is enabled.
    pub fn instruction_count_limit(self, limit: i64) -> (jail: Perfjail)
        ensures
            jail.settings == (ExecutionSettings {
                instruction_count_limit: Some(limit),
                ..self.settings
            }),
            jail.features == self.features,
    {
        let mut jail = self;
        jail.settings.instruction_count_limit = Some(limit);
        jail
    }

    /// Limits the peak memory use of the child, in KiB, and enables memory
    /// measurement.
    pub fn memory_limit_kibibytes(self, limit: u64) -> (jail: Perfjail)
        ensures
            jail.settings == (ExecutionSettings {
                memory_limit_kibibytes: Some(limit),
                ..self.settings
            }),
            jail.features == self.features.with(Feature::MEMORY_MEASUREMENT),
    {
        let mut jail = self;
        jail.settings.memory_limit_kibibytes = Some(limit);
        jail.features.insert(Feature::MEMORY_MEASUREMENT);
        jail
    }
}

} // verus!
