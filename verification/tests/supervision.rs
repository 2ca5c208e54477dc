use perfjail::listener::memory::MemoryListener;
use perfjail::listener::memory::MemorySample;
use perfjail::listener::time::ProcessTimeUsage;
use perfjail::listener::time::TimeListener;
use perfjail::listener::time::TimeUsage;
use perfjail::listener::Listener;
use perfjail::listener::Observation;
use perfjail::listener::Reading;
use perfjail::listener::WaitEvent;
use perfjail::listener::WakeupAction;
use perfjail::process::child::ChildInternals;
use perfjail::process::child::ChildState;
use perfjail::process::child::EventDecision;
use perfjail::process::child::Phase;
use perfjail::process::child::SamplingPlan;
use perfjail::process::data::ExecutionContext;
use perfjail::process::error::RunError;
use perfjail::process::execution_result::ExecutionResult;
use perfjail::process::execution_result::ExitReason;
use perfjail::process::execution_result::ExitStatus;
use perfjail::process::jail::Feature;
use perfjail::process::jail::FeatureSet;
use perfjail::process::jail::Perfjail;
use perfjail::time::Duration;

fn nothing() -> Observation {
    Observation {
        instructions: Reading::Absent,
        time: Reading::Absent,
        memory: Reading::Absent,
    }
}

fn usage(real: u64, user: u64, system: u64) -> TimeUsage {
    TimeUsage {
        process_time_usage: ProcessTimeUsage {
            user_time: Duration::from_millis(user),
            system_time: Duration::from_millis(system),
        },
        real_time: Duration::from_millis(real),
    }
}

fn spawned(jail: Perfjail) -> ChildInternals {
    let mut child = ChildInternals::new(ExecutionContext::new(jail));
    assert_eq!(child.phase(), Phase::Cloned);
    child.on_post_clone_parent();
    assert_eq!(child.phase(), Phase::Ready);
    child
}

fn all_features() -> FeatureSet {
    let mut features = FeatureSet::new();
    features.insert(Feature::PERF);
    features.insert(Feature::TIME_MEASUREMENT);
    features.insert(Feature::MEMORY_MEASUREMENT);
    features.insert(Feature::PTRACE);
    features
}

#[test]
fn plain_run_ends_ok() {
    let mut child = spawned(Perfjail::new("echo").arg("test"));
    assert!(!child.requires_timeout());
    assert_eq!(child.outcome(), None);
    assert_eq!(child.begin_run(None), Ok(false));
    assert_eq!(child.phase(), Phase::Supervising);
    assert_eq!(
        child.sampling_plan(),
        SamplingPlan {
            instructions: false,
            time: false,
            memory: false
        }
    );
    assert_eq!(child.on_wakeup(&nothing()), Ok(WakeupAction::Continue));
    let exited = WaitEvent::Exited { code: 0 };
    assert_eq!(
        child.on_execute_event(None, exited),
        Ok(EventDecision {
            resume_tracee: false,
            terminal: true
        })
    );
    assert_eq!(child.phase(), Phase::Terminated { event: exited });
    assert_eq!(child.outcome(), None);
    assert_eq!(
        child.final_sampling_plan(),
        SamplingPlan {
            instructions: false,
            time: false,
            memory: false
        }
    );
    assert_eq!(child.on_post_execute(&nothing(), None), Ok(()));
    assert_eq!(child.phase(), Phase::Finished { event: exited });
    let result = child.outcome().unwrap().unwrap();
    assert_eq!(*result.exit_status(), ExitStatus::OK);
    assert_eq!(result.exit_reason(), ExitReason::Exited { exit_status: 0 });
    assert_eq!(result.instructions_used(), None);
    assert_eq!(result.measured_time(), None);
    assert_eq!(result.memory_usage_kibibytes(), None);
}

#[test]
fn exit_code_is_kept() {
    let mut child = spawned(Perfjail::new("false"));
    child.begin_run(None).unwrap();
    child.on_wakeup(&nothing()).unwrap();
    child
        .on_execute_event(None, WaitEvent::Exited { code: 42 })
        .unwrap();
    child.on_post_execute(&nothing(), None).unwrap();
    let result = child.outcome().unwrap().unwrap();
    assert_eq!(result.exit_reason(), ExitReason::Exited { exit_status: 42 });
    assert_eq!(*result.exit_status(), ExitStatus::OK);
}

#[test]
fn real_time_limit_kills_and_names_the_limit() {
    let jail = Perfjail::new("sleep")
        .arg("0.1")
        .real_time_limit(Duration::from_millis(10));
    let mut child = spawned(jail);
    assert!(child.requires_timeout());
    assert_eq!(child.begin_run(None), Ok(true));
    assert_eq!(
        child.sampling_plan(),
        SamplingPlan {
            instructions: false,
            time: true,
            memory: false
        }
    );
    let mut early = nothing();
    early.time = Reading::Taken(usage(5, 0, 0));
    assert_eq!(child.on_wakeup(&early), Ok(WakeupAction::Continue));
    let mut late = nothing();
    late.time = Reading::Taken(usage(11, 0, 0));
    assert_eq!(child.on_wakeup(&late), Ok(WakeupAction::Kill));
    let killed = WaitEvent::Signaled {
        signal: 9,
        core_dumped: false,
    };
    assert_eq!(
        child.on_execute_event(None, killed),
        Ok(EventDecision {
            resume_tracee: false,
            terminal: true
        })
    );
    assert_eq!(
        child.final_sampling_plan(),
        SamplingPlan {
            instructions: false,
            time: true,
            memory: false
        }
    );
    let mut last = nothing();
    last.time = Reading::Taken(usage(12, 1, 2));
    assert_eq!(child.on_post_execute(&last, None), Ok(()));
    let result = child.outcome().unwrap().unwrap();
    assert_eq!(
        *result.exit_status(),
        ExitStatus::TLE("real time limit exceeded".to_string())
    );
    assert_eq!(result.exit_reason(), ExitReason::Killed { signal: 9 });
    assert_eq!(result.real_time(), Duration::from_millis(12));
    assert_eq!(result.user_time(), Duration::from_millis(1));
    assert_eq!(result.system_time(), Duration::from_millis(2));
}

#[test]
fn memory_limit_kills_and_names_the_limit() {
    let jail = Perfjail::new("hog").memory_limit_kibibytes(8_192);
    let mut child = spawned(jail);
    assert_eq!(child.begin_run(None), Ok(true));
    assert_eq!(
        child.sampling_plan(),
        SamplingPlan {
            instructions: false,
            time: false,
            memory: true
        }
    );
    let mut before_exec = nothing();
    before_exec.memory = Reading::Taken(MemorySample {
        exec_called: false,
        peak_kibibytes: Some(500_000),
    });
    assert_eq!(child.on_wakeup(&before_exec), Ok(WakeupAction::Continue));
    let mut grown = nothing();
    grown.memory = Reading::Taken(MemorySample {
        exec_called: true,
        peak_kibibytes: Some(102_400),
    });
    assert_eq!(child.on_wakeup(&grown), Ok(WakeupAction::Kill));
    child
        .on_execute_event(
            None,
            WaitEvent::Signaled {
                signal: 9,
                core_dumped: false,
            },
        )
        .unwrap();
    child.on_post_execute(&nothing(), None).unwrap();
    let result = child.outcome().unwrap().unwrap();
    assert_eq!(
        *result.exit_status(),
        ExitStatus::MLE("memory limit exceeded".to_string())
    );
    assert_eq!(result.memory_usage_kibibytes(), Some(102_400));
    assert_eq!(result.exit_reason(), ExitReason::Killed { signal: 9 });
}

#[test]
fn concurrent_kill_run_test() {
    let mut child = spawned(Perfjail::new("sleep").arg("0.1"));
    let mut state = ChildState::new(4242);
    child.begin_run(None).unwrap();
    assert_eq!(child.on_wakeup(&nothing()), Ok(WakeupAction::Continue));
    assert_eq!(state.kill_target(), Some(4242));
    child
        .on_execute_event(
            None,
            WaitEvent::Signaled {
                signal: 9,
                core_dumped: false,
            },
        )
        .unwrap();
    child.on_post_execute(&nothing(), None).unwrap();
    assert_eq!(state.mark_reaped(), Some(4242));
    let result = child.outcome().unwrap().unwrap();
    assert_eq!(
        *result.exit_status(),
        ExitStatus::RE("runtime error: killed by signal 9".into())
    );
    assert_eq!(result.exit_reason(), ExitReason::Killed { signal: 9 });
    assert_eq!(result.instructions_used(), None);
    assert_eq!(result.measured_time(), None);
    assert_eq!(state, ChildState::Reaped);
    assert_eq!(state.kill_target(), None);
    assert_eq!(state.mark_reaped(), None);
}

#[test]
fn core_dump_counts_as_killed() {
    let mut child = spawned(Perfjail::new("crash"));
    child.begin_run(None).unwrap();
    child.on_wakeup(&nothing()).unwrap();
    child
        .on_execute_event(
            None,
            WaitEvent::Signaled {
                signal: 11,
                core_dumped: true,
            },
        )
        .unwrap();
    child.on_post_execute(&nothing(), None).unwrap();
    let result = child.outcome().unwrap().unwrap();
    assert_eq!(result.exit_reason(), ExitReason::Killed { signal: 11 });
    assert_eq!(
        *result.exit_status(),
        ExitStatus::RE("runtime error: killed by signal 11".to_string())
    );
}

#[test]
fn concurrent_run_test() {
    let mut child = spawned(Perfjail::new("sleep").arg("0.1"));
    child.begin_run(None).unwrap();
    child.on_wakeup(&nothing()).unwrap();
    child
        .on_execute_event(None, WaitEvent::Exited { code: 0 })
        .unwrap();
    child.on_post_execute(&nothing(), None).unwrap();
    let first = child.outcome().unwrap().unwrap();
    child.fail(RunError::IOError(5));
    let second = child.outcome().unwrap().unwrap();
    let third = child.outcome().unwrap().unwrap();
    assert_eq!(first, second);
    assert_eq!(second, third);
}

#[test]
fn time_measurement_test() {
    let mut features = FeatureSet::new();
    features.insert(Feature::PERF);
    features.insert(Feature::TIME_MEASUREMENT);
    features.insert(Feature::MEMORY_MEASUREMENT);
    let jail = Perfjail::new("tests/bud")
        .stdin(3)
        .stdout(4)
        .features(features)
        .measured_time_limit(Duration::from_millis(500));
    assert_eq!(jail.settings.instruction_count_limit, Some(1_000_000_000));
    let mut child = spawned(jail);
    assert_eq!(child.begin_run(None), Ok(true));
    assert_eq!(
        child.sampling_plan(),
        SamplingPlan {
            instructions: true,
            time: false,
            memory: true
        }
    );
    let mut running = nothing();
    running.instructions = Reading::Taken(500_000_000);
    running.memory = Reading::Taken(MemorySample {
        exec_called: true,
        peak_kibibytes: Some(3_000),
    });
    assert_eq!(child.on_wakeup(&running), Ok(WakeupAction::Continue));
    child
        .on_execute_event(None, WaitEvent::Exited { code: 0 })
        .unwrap();
    assert_eq!(
        child.final_sampling_plan(),
        SamplingPlan {
            instructions: true,
            time: true,
            memory: false
        }
    );
    let mut last = nothing();
    last.instructions = Reading::Taken(934_567_890);
    last.time = Reading::Taken(usage(480, 470, 5));
    child.on_post_execute(&last, None).unwrap();
    let result = child.outcome().unwrap().unwrap();
    assert_eq!(*result.exit_status(), ExitStatus::OK);
    assert_eq!(result.exit_reason(), ExitReason::Exited { exit_status: 0 });
    assert_eq!(result.measured_time().unwrap().as_millis(), 467);
    assert!(result.instructions_used().unwrap() > 0);
    assert_eq!(result.memory_usage_kibibytes(), Some(3_000));
    assert_eq!(result.real_time(), Duration::from_millis(480));
}

#[test]
fn two_children_do_not_share_anything() {
    let mut first = spawned(Perfjail::new("a").memory_limit_kibibytes(10));
    let mut second = spawned(Perfjail::new("b").memory_limit_kibibytes(10));
    first.begin_run(None).unwrap();
    second.begin_run(None).unwrap();
    let mut big = nothing();
    big.memory = Reading::Taken(MemorySample {
        exec_called: true,
        peak_kibibytes: Some(11),
    });
    assert_eq!(first.on_wakeup(&big), Ok(WakeupAction::Kill));
    assert_eq!(second.on_wakeup(&nothing()), Ok(WakeupAction::Continue));
    second
        .on_execute_event(None, WaitEvent::Exited { code: 0 })
        .unwrap();
    second.on_post_execute(&nothing(), None).unwrap();
    let result = second.outcome().unwrap().unwrap();
    assert_eq!(*result.exit_status(), ExitStatus::OK);
    assert_eq!(result.memory_usage_kibibytes(), Some(0));
    assert_eq!(first.outcome(), None);
}

#[test]
fn first_probe_to_complain_wins_the_pass() {
    let jail = Perfjail::new("prog")
        .features(all_features())
        .instruction_count_limit(100)
        .real_time_limit(Duration::from_millis(10))
        .memory_limit_kibibytes(10);
    let mut child = spawned(jail);
    child.begin_run(None).unwrap();
    assert_eq!(
        child.sampling_plan(),
        SamplingPlan {
            instructions: true,
            time: true,
            memory: true
        }
    );
    let everything = Observation {
        instructions: Reading::Taken(50),
        time: Reading::Taken(usage(11, 0, 0)),
        memory: Reading::Taken(MemorySample {
            exec_called: true,
            peak_kibibytes: Some(11),
        }),
    };
    assert_eq!(child.on_wakeup(&everything), Ok(WakeupAction::Kill));
    assert_eq!(
        *child.execution_result().exit_status(),
        ExitStatus::TLE("real time limit exceeded".to_string())
    );
    assert_eq!(
        child.listeners()[2],
        Listener::Memory(MemoryListener {
            peak_memory_kibibytes: 11
        })
    );
    assert_eq!(
        child.listeners()[1],
        Listener::Time(TimeListener {
            time_limit_set: true
        })
    );
}

#[test]
fn failed_reading_fails_the_run_at_its_probe() {
    let jail = Perfjail::new("prog")
        .features(all_features())
        .instruction_count_limit(100)
        .real_time_limit(Duration::from_millis(10))
        .memory_limit_kibibytes(10);
    let mut child = spawned(jail);
    child.begin_run(None).unwrap();
    let broken = Observation {
        instructions: Reading::Taken(101),
        time: Reading::Failed(2),
        memory: Reading::Taken(MemorySample {
            exec_called: true,
            peak_kibibytes: Some(11),
        }),
    };
    assert_eq!(child.on_wakeup(&broken), Err(RunError::IOError(2)));
    assert_eq!(
        child.phase(),
        Phase::Failed {
            error: RunError::IOError(2)
        }
    );
    assert_eq!(
        *child.execution_result().exit_status(),
        ExitStatus::TLE("time limit exceeded".to_string())
    );
    assert_eq!(
        child.listeners()[2],
        Listener::Memory(MemoryListener {
            peak_memory_kibibytes: 0
        })
    );
    assert_eq!(child.outcome(), Some(Err(RunError::IOError(2))));
}

#[test]
fn child_failure_before_exec_fails_the_run() {
    let mut child = spawned(Perfjail::new("missing"));
    assert_eq!(child.begin_run(Some(2)), Err(RunError::ChildErrno(2)));
    assert_eq!(child.outcome(), Some(Err(RunError::ChildErrno(2))));

    let mut child = spawned(Perfjail::new("missing"));
    child.begin_run(None).unwrap();
    child.on_wakeup(&nothing()).unwrap();
    assert_eq!(
        child.on_execute_event(Some(13), WaitEvent::Exited { code: 1 }),
        Err(RunError::ChildErrno(13))
    );
    assert_eq!(child.outcome(), Some(Err(RunError::ChildErrno(13))));

    let mut child = spawned(Perfjail::new("missing"));
    child.begin_run(None).unwrap();
    child.on_wakeup(&nothing()).unwrap();
    child
        .on_execute_event(None, WaitEvent::Exited { code: 1 })
        .unwrap();
    assert_eq!(
        child.on_post_execute(&nothing(), Some(8)),
        Err(RunError::ChildErrno(8))
    );
    assert_eq!(child.outcome(), Some(Err(RunError::ChildErrno(8))));
}

#[test]
fn first_outcome_stands() {
    let mut child = spawned(Perfjail::new("prog"));
    child.begin_run(None).unwrap();
    child.fail(RunError::IOError(4));
    child.fail(RunError::ChildErrno(9));
    assert_eq!(child.outcome(), Some(Err(RunError::IOError(4))));
    assert_eq!(
        child.phase(),
        Phase::Failed {
            error: RunError::IOError(4)
        }
    );
}

#[test]
fn stops_do_not_end_the_run() {
    let jail = Perfjail::new("prog").feature(Feature::PTRACE);
    let mut child = spawned(jail);
    child.begin_run(None).unwrap();
    let events = vec![
        (WaitEvent::Stopped { signal: 19 }, false),
        (WaitEvent::PtraceEvent { signal: 5, event: 6 }, true),
        (WaitEvent::PtraceSyscall, false),
        (WaitEvent::Continued, false),
    ];
    for (event, resume) in events {
        assert_eq!(child.on_wakeup(&nothing()), Ok(WakeupAction::Continue));
        assert_eq!(
            child.on_execute_event(None, event),
            Ok(EventDecision {
                resume_tracee: resume,
                terminal: false
            })
        );
        assert_eq!(child.phase(), Phase::Supervising);
        assert_eq!(
            child.execution_result().exit_reason(),
            ExitReason::Exited { exit_status: 0 }
        );
    }
    let untraced = spawned(Perfjail::new("prog"));
    let mut untraced = untraced;
    untraced.begin_run(None).unwrap();
    assert_eq!(
        untraced.on_execute_event(None, WaitEvent::PtraceEvent { signal: 5, event: 6 }),
        Ok(EventDecision {
            resume_tracee: false,
            terminal: false
        })
    );
}

#[test]
fn setup_notes_who_needs_the_ticker() {
    let mut features = FeatureSet::new();
    features.insert(Feature::TIME_MEASUREMENT);
    features.insert(Feature::PTRACE);
    let mut quiet = ChildInternals::new(ExecutionContext::new(
        Perfjail::new("prog").features(features),
    ));
    assert!(!quiet.on_post_clone_parent());
    assert!(!quiet.requires_timeout());
    assert_eq!(
        quiet.listeners()[0],
        Listener::Time(TimeListener {
            time_limit_set: false
        })
    );
    let mut limited = ChildInternals::new(ExecutionContext::new(
        Perfjail::new("prog").user_time_limit(Duration::from_secs(1)),
    ));
    assert!(limited.on_post_clone_parent());
    assert!(limited.requires_timeout());
    assert_eq!(limited.settings().user_time_limit, Some(Duration::from_secs(1)));
    assert_eq!(*limited.execution_result(), ExecutionResult::new());
}
