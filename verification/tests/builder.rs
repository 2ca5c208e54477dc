use perfjail::listener::memory::MemoryListener;
use perfjail::listener::perf::PerfListener;
use perfjail::listener::ptrace::PtraceListener;
use perfjail::listener::time::TimeListener;
use perfjail::listener::Listener;
use perfjail::process::data::ExecutionContext;
use perfjail::process::data::ExecutionSettings;
use perfjail::process::error::SpawnError;
use perfjail::process::jail::Feature;
use perfjail::process::jail::FeatureSet;
use perfjail::process::jail::Perfjail;
use perfjail::process::protocol::read_child_pid;
use perfjail::process::protocol::spawn_failure;
use perfjail::process::protocol::ChildStep;
use perfjail::process::protocol::ParentStep;
use perfjail::process::protocol::SpawnFailure;
use perfjail::process::protocol::StandardStream;
use perfjail::time::Duration;

#[test]
fn new_builder_has_no_limits_and_no_features() {
    let jail = Perfjail::new("echo");
    assert_eq!(jail.settings.executable_path, "echo");
    assert_eq!(jail.settings.args, vec!["echo".to_string()]);
    assert_eq!(jail.settings.real_time_limit, None);
    assert_eq!(jail.settings.user_time_limit, None);
    assert_eq!(jail.settings.system_time_limit, None);
    assert_eq!(jail.settings.user_system_time_limit, None);
    assert_eq!(jail.settings.instruction_count_limit, None);
    assert_eq!(jail.settings.memory_limit_kibibytes, None);
    assert_eq!(jail.settings.working_dir, None);
    assert_eq!(jail.settings.stdin_fd, None);
    assert_eq!(jail.settings.stdout_fd, None);
    assert_eq!(jail.settings.stderr_fd, None);
    assert_eq!(jail.features, FeatureSet::new());
    assert!(jail.features.to_vec().is_empty());
}

#[test]
fn arguments_keep_their_order() {
    let jail = Perfjail::new("ls")
        .arg("-l")
        .args(&vec!["-a".to_string(), "/tmp".to_string()])
        .arg("--")
        .args(&Vec::new());
    assert_eq!(
        jail.settings.args,
        vec![
            "ls".to_string(),
            "-l".to_string(),
            "-a".to_string(),
            "/tmp".to_string(),
            "--".to_string()
        ]
    );
    assert_eq!(jail.settings.executable_path, "ls");
}

#[test]
fn streams_and_directory_are_recorded() {
    let jail = Perfjail::new("cat")
        .current_dir("/srv/run")
        .stdin(7)
        .stdout(8)
        .stderr(9);
    assert_eq!(jail.settings.working_dir, Some("/srv/run".to_string()));
    assert_eq!(jail.settings.stdin_fd, Some(7));
    assert_eq!(jail.settings.stdout_fd, Some(8));
    assert_eq!(jail.settings.stderr_fd, Some(9));
    assert_eq!(jail.features, FeatureSet::new());
}

#[test]
fn limits_enable_their_features() {
    let jail = Perfjail::new("p").real_time_limit(Duration::from_millis(1));
    assert_eq!(jail.features.to_vec(), vec![Feature::TIME_MEASUREMENT]);
    assert_eq!(jail.settings.real_time_limit, Some(Duration::from_millis(1)));
    let jail = Perfjail::new("p").user_time_limit(Duration::from_millis(2));
    assert_eq!(jail.features.to_vec(), vec![Feature::TIME_MEASUREMENT]);
    assert_eq!(jail.settings.user_time_limit, Some(Duration::from_millis(2)));
    let jail = Perfjail::new("p").system_time_limit(Duration::from_millis(3));
    assert_eq!(jail.features.to_vec(), vec![Feature::TIME_MEASUREMENT]);
    assert_eq!(jail.settings.system_time_limit, Some(Duration::from_millis(3)));
    let jail = Perfjail::new("p").user_system_time_limit(Duration::from_millis(4));
    assert_eq!(jail.features.to_vec(), vec![Feature::TIME_MEASUREMENT]);
    assert_eq!(
        jail.settings.user_system_time_limit,
        Some(Duration::from_millis(4))
    );
    let jail = Perfjail::new("p").memory_limit_kibibytes(8_192);
    assert_eq!(jail.features.to_vec(), vec![Feature::MEMORY_MEASUREMENT]);
    assert_eq!(jail.settings.memory_limit_kibibytes, Some(8_192));
    let jail = Perfjail::new("p").measured_time_limit(Duration::from_millis(500));
    assert_eq!(jail.features.to_vec(), vec![Feature::PERF]);
    assert_eq!(jail.settings.instruction_count_limit, Some(1_000_000_000));
    let jail = Perfjail::new("p").instruction_count_limit(77);
    assert!(jail.features.to_vec().is_empty());
    assert_eq!(jail.settings.instruction_count_limit, Some(77));
}

#[test]
fn measured_time_limit_counts_whole_milliseconds() {
    let jail = Perfjail::new("p").measured_time_limit(Duration::from_micros(1_999));
    assert_eq!(jail.settings.instruction_count_limit, Some(2_000_000));
    let jail = Perfjail::new("p").measured_time_limit(Duration::from_micros(999));
    assert_eq!(jail.settings.instruction_count_limit, Some(0));
    let longest = Duration::from_millis(4_611_686_018_427);
    assert!(Perfjail::measured_time_limit_fits(&longest));
    let jail = Perfjail::new("p").measured_time_limit(longest);
    assert_eq!(
        jail.settings.instruction_count_limit,
        Some(9_223_372_036_854_000_000)
    );
    assert!(!Perfjail::measured_time_limit_fits(&Duration::from_millis(
        4_611_686_018_428
    )));
    assert!(!Perfjail::measured_time_limit_fits(&Duration::from_secs(u64::MAX)));
}

#[test]
fn feature_sets_behave_like_sets() {
    let mut set = FeatureSet::new();
    assert!(!set.contains(Feature::PTRACE));
    assert!(set.insert(Feature::PTRACE));
    assert!(!set.insert(Feature::PTRACE));
    assert!(set.contains(Feature::PTRACE));
    assert!(!set.contains(Feature::PERF));
    assert_eq!(set, FeatureSet::only(Feature::PTRACE));
    let mut other = FeatureSet::only(Feature::PERF);
    other.insert_all(set);
    assert_eq!(other.to_vec(), vec![Feature::PERF, Feature::PTRACE]);
    other.insert_all(FeatureSet::only(Feature::MEMORY_MEASUREMENT));
    other.insert_all(FeatureSet::only(Feature::TIME_MEASUREMENT));
    assert_eq!(
        other.to_vec(),
        vec![
            Feature::PERF,
            Feature::TIME_MEASUREMENT,
            Feature::MEMORY_MEASUREMENT,
            Feature::PTRACE
        ]
    );
    let jail = Perfjail::new("p").feature(Feature::PTRACE).features(other);
    assert_eq!(jail.features, other);
}

#[test]
fn probes_are_registered_in_a_fixed_order() {
    let jail = Perfjail::new("p")
        .feature(Feature::PTRACE)
        .memory_limit_kibibytes(1)
        .real_time_limit(Duration::from_millis(1))
        .measured_time_limit(Duration::from_millis(1));
    let context = ExecutionContext::new(jail);
    assert_eq!(
        context.listeners,
        vec![
            Listener::Perf(PerfListener::new()),
            Listener::Time(TimeListener::new()),
            Listener::Memory(MemoryListener::new()),
            Listener::Ptrace(PtraceListener::new()),
        ]
    );
    assert_eq!(context.settings.memory_limit_kibibytes, Some(1));
    assert_eq!(context.listeners[0].feature(), Feature::PERF);
    assert_eq!(context.listeners[1].feature(), Feature::TIME_MEASUREMENT);
    assert_eq!(context.listeners[2].feature(), Feature::MEMORY_MEASUREMENT);
    assert_eq!(context.listeners[3].feature(), Feature::PTRACE);
    let bare = ExecutionContext::new(Perfjail::new("p"));
    assert!(bare.listeners.is_empty());
    let settings = ExecutionSettings::new(Perfjail::new("q").stdin(3));
    assert_eq!(settings.executable_path, "q");
    assert_eq!(settings.stdin_fd, Some(3));
}

#[test]
fn child_waits_for_the_parent_before_it_executes() {
    let bare = ExecutionContext::new(Perfjail::new("p"));
    assert_eq!(
        bare.child_plan(),
        vec![
            ChildStep::SignalChildReady,
            ChildStep::AwaitParentReady,
            ChildStep::Execute
        ]
    );
    let jail = Perfjail::new("p")
        .memory_limit_kibibytes(1)
        .feature(Feature::PERF)
        .current_dir("/tmp")
        .stdin(3)
        .stderr(5);
    let context = ExecutionContext::new(jail);
    assert_eq!(
        context.child_plan(),
        vec![
            ChildStep::PostCloneChild(Feature::PERF),
            ChildStep::PostCloneChild(Feature::MEMORY_MEASUREMENT),
            ChildStep::ChangeDirectory,
            ChildStep::Redirect {
                stream: StandardStream::Input,
                fd: 3
            },
            ChildStep::Close(3),
            ChildStep::Redirect {
                stream: StandardStream::Error,
                fd: 5
            },
            ChildStep::Close(5),
            ChildStep::SignalChildReady,
            ChildStep::AwaitParentReady,
            ChildStep::Execute,
        ]
    );
    let all = ExecutionContext::new(Perfjail::new("p").stdout(4));
    assert_eq!(
        all.child_plan(),
        vec![
            ChildStep::Redirect {
                stream: StandardStream::Output,
                fd: 4
            },
            ChildStep::Close(4),
            ChildStep::SignalChildReady,
            ChildStep::AwaitParentReady,
            ChildStep::Execute,
        ]
    );
}

#[test]
fn parent_lets_the_child_go_last() {
    let bare = ExecutionContext::new(Perfjail::new("p"));
    assert_eq!(
        bare.parent_plan(),
        vec![
            ParentStep::CreateChild,
            ParentStep::AwaitChildReady,
            ParentStep::SignalParentReady
        ]
    );
    let jail = Perfjail::new("p")
        .feature(Feature::PTRACE)
        .real_time_limit(Duration::from_millis(1));
    assert_eq!(
        ExecutionContext::new(jail).parent_plan(),
        vec![
            ParentStep::CreateChild,
            ParentStep::AwaitChildReady,
            ParentStep::PostCloneParent(Feature::TIME_MEASUREMENT),
            ParentStep::PostCloneParent(Feature::PTRACE),
            ParentStep::SignalParentReady,
        ]
    );
}

#[test]
fn failed_spawn_steps_name_their_error() {
    assert_eq!(
        spawn_failure(ParentStep::CreateChild, 11),
        SpawnFailure {
            error: SpawnError::CloneFailed(11),
            kill_child: false
        }
    );
    assert_eq!(
        spawn_failure(ParentStep::PostCloneParent(Feature::PERF), 13),
        SpawnFailure {
            error: SpawnError::ListenerSetupFailed(13),
            kill_child: true
        }
    );
    assert_eq!(
        spawn_failure(ParentStep::AwaitChildReady, 4),
        SpawnFailure {
            error: SpawnError::BarrierFailed(4),
            kill_child: true
        }
    );
    assert_eq!(
        spawn_failure(ParentStep::SignalParentReady, 5),
        SpawnFailure {
            error: SpawnError::BarrierFailed(5),
            kill_child: true
        }
    );
}

#[test]
fn pid_is_read_from_the_descriptor_text() {
    let fdinfo = b"pos:\t0\nflags:\t02000002\nmnt_id:\t15\nino:\t1057\nPid:\t4242\nNSpid:\t4242\n";
    assert_eq!(read_child_pid(fdinfo), Some(4242));
    assert_eq!(read_child_pid(b"Pid: -1\n"), Some(-1));
    assert_eq!(read_child_pid(b"xPid: 17 rest\n"), Some(17));
    assert_eq!(read_child_pid(b"Pid: +17"), Some(17));
    assert_eq!(read_child_pid(b"Pid: 2147483647"), Some(2_147_483_647));
    assert_eq!(read_child_pid(b"Pid: -2147483648"), Some(-2_147_483_648));
}

#[test]
fn text_that_describes_no_process_gives_no_pid() {
    assert_eq!(read_child_pid(b""), None);
    assert_eq!(read_child_pid(b"pos:\t0\nflags:\t02\n"), None);
    assert_eq!(read_child_pid(b"NSpid:\t4242\n"), None);
    assert_eq!(read_child_pid(b"Pid:\n4242\n"), None);
    assert_eq!(read_child_pid(b"Pid: abc\n"), None);
    assert_eq!(read_child_pid(b"Pid: 2147483648\n"), None);
    assert_eq!(read_child_pid(b"Pid: -2147483649\n"), None);
    assert_eq!(read_child_pid(b"Pid:4242\n"), None);
}
