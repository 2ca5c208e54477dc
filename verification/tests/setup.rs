use std::cell::Cell;

use perfjail::setup::pkexec_command;
use perfjail::setup::pkexec_result;
use perfjail::setup::set_perf_up_permanently;
use perfjail::setup::set_perf_up_temporarily;
use perfjail::setup::test_perf;
use perfjail::setup::CommandOutcome;
use perfjail::setup::PerfSetupError;
use perfjail::util::signal_safe_spinlock::SignalSafeSpinlock;

fn finished(code: Option<i32>, stderr: &[u8]) -> CommandOutcome {
    CommandOutcome::Finished {
        code,
        stderr: stderr.to_vec(),
    }
}

fn failed(why: &str) -> Result<(), PerfSetupError> {
    Err(PerfSetupError::SetupCommandFail(why.to_string()))
}

#[test]
fn clean_exit_is_success() {
    assert_eq!(pkexec_result(finished(Some(0), b"")), Ok(()));
}

#[test]
fn each_failure_has_its_error() {
    assert_eq!(
        pkexec_result(CommandOutcome::NotFound),
        Err(PerfSetupError::PkexecNotFound)
    );
    assert_eq!(
        pkexec_result(CommandOutcome::Failed(13)),
        Err(PerfSetupError::IoError(13))
    );
    assert_eq!(
        pkexec_result(finished(None, b"")),
        failed("the process was terminated by a signal")
    );
    assert_eq!(
        pkexec_result(finished(None, b"noise")),
        failed("the process was terminated by a signal")
    );
    assert_eq!(
        pkexec_result(finished(Some(126), b"")),
        Err(PerfSetupError::AuthenticationFailed)
    );
    assert_eq!(
        pkexec_result(finished(Some(127), b"not authorized")),
        Err(PerfSetupError::AuthenticationFailed)
    );
    assert_eq!(
        pkexec_result(finished(Some(0), b"sysctl: permission denied\n")),
        failed("sysctl: permission denied\n")
    );
    assert_eq!(
        pkexec_result(finished(Some(3), "b\u{142}\u{105}d".as_bytes())),
        failed("b\u{142}\u{105}d")
    );
    assert_eq!(
        pkexec_result(finished(Some(1), &[0xff, 0xfe])),
        failed("stderr is not valid UTF-8")
    );
    assert_eq!(
        pkexec_result(finished(Some(1), b"")),
        failed("the process returned a non-zero return code: 1")
    );
    assert_eq!(
        pkexec_result(finished(Some(255), b"")),
        failed("the process returned a non-zero return code: 255")
    );
    assert_eq!(
        pkexec_result(finished(Some(-2), b"")),
        failed("the process returned a non-zero return code: -2")
    );
}

#[test]
fn temporary_setup_runs_sysctl_under_pkexec() {
    let seen: Cell<Vec<String>> = Cell::new(Vec::new());
    let result = set_perf_up_temporarily(|line: Vec<String>| {
        seen.set(line);
        finished(Some(0), b"")
    });
    assert_eq!(result, Ok(()));
    assert_eq!(
        seen.take(),
        vec![
            "pkexec".to_string(),
            "sysctl".to_string(),
            "-w".to_string(),
            "kernel.perf_event_paranoid=-1".to_string()
        ]
    );
    assert_eq!(
        set_perf_up_temporarily(|_line: Vec<String>| CommandOutcome::NotFound),
        Err(PerfSetupError::PkexecNotFound)
    );
}

#[test]
fn permanent_setup_also_writes_the_configuration() {
    let seen: Cell<Vec<String>> = Cell::new(Vec::new());
    let result = set_perf_up_permanently(|line: Vec<String>| {
        seen.set(line);
        finished(Some(127), b"")
    });
    assert_eq!(result, Err(PerfSetupError::AuthenticationFailed));
    assert_eq!(
        seen.take(),
        vec![
            "pkexec".to_string(),
            "bash".to_string(),
            "-c".to_string(),
            "set -e;sysctl -w kernel.perf_event_paranoid=-1;echo -e \"\n# Settings required by perfjail:\nkernel.perf_event_paranoid = -1\" >> /etc/sysctl.conf;".to_string()
        ]
    );
}

#[test]
fn any_command_can_run_under_pkexec() {
    let seen: Cell<Vec<String>> = Cell::new(Vec::new());
    let result = pkexec_command(
        "true",
        vec!["a".to_string(), "b c".to_string()],
        |line: Vec<String>| {
            seen.set(line);
            finished(Some(2), b"")
        },
    );
    assert_eq!(
        result,
        failed("the process returned a non-zero return code: 2")
    );
    assert_eq!(
        seen.take(),
        vec![
            "pkexec".to_string(),
            "true".to_string(),
            "a".to_string(),
            "b c".to_string()
        ]
    );
    let result = pkexec_command("true", Vec::new(), |line: Vec<String>| {
        seen.set(line);
        finished(Some(0), b"")
    });
    assert_eq!(result, Ok(()));
    assert_eq!(seen.take(), vec!["pkexec".to_string(), "true".to_string()]);
}

#[test]
fn kernel_is_ready_at_minus_one_only() {
    assert!(test_perf(&"-1".to_string()));
    assert!(!test_perf(&"2".to_string()));
    assert!(!test_perf(&"-1\n".to_string()));
    assert!(!test_perf(&"".to_string()));
    assert!(!test_perf(&"1".to_string()));
}

#[test]
fn lock_runs_what_it_is_given() {
    let lock = SignalSafeSpinlock::new();
    assert_eq!(lock.with_lock(|| 5), 5);
    assert_eq!(lock.try_with_lock(|| 6), Some(6));
    assert_eq!(lock.with_lock(|| "again"), "again");
}

#[test]
fn held_lock_cannot_be_tried() {
    let lock = SignalSafeSpinlock::new();
    let inner = lock.with_lock(|| lock.try_with_lock(|| 1));
    assert_eq!(inner, None);
    let inner = lock.try_with_lock(|| lock.try_with_lock(|| 1));
    assert_eq!(inner, Some(None));
    assert_eq!(lock.try_with_lock(|| 2), Some(2));
}

#[test]
fn lock_is_released_after_each_use() {
    let lock = SignalSafeSpinlock::new();
    let mut sum = 0;
    for i in 0..100 {
        sum += lock.with_lock(|| i);
        assert_eq!(lock.try_with_lock(|| ()), Some(()));
    }
    assert_eq!(sum, 4_950);
}
