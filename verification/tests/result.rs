use perfjail::process::execution_result::ExecutionResult;
use perfjail::process::execution_result::ExitReason;
use perfjail::process::execution_result::ExitStatus;
use perfjail::time::Duration;
use perfjail::util::append_decimal;
use perfjail::util::cvt_no_errno;

#[test]
fn new_result_knows_nothing() {
    let result = ExecutionResult::new();
    assert_eq!(*result.exit_status(), ExitStatus::OK);
    assert_eq!(result.exit_reason(), ExitReason::Exited { exit_status: 0 });
    assert_eq!(result.instructions_used(), None);
    assert_eq!(result.measured_time(), None);
    assert_eq!(result.real_time(), Duration::zero());
    assert_eq!(result.user_time(), Duration::zero());
    assert_eq!(result.system_time(), Duration::zero());
    assert_eq!(result.memory_usage_kibibytes(), None);
}

#[test]
fn first_complaint_stands() {
    let mut result = ExecutionResult::new();
    result.set_exit_status(ExitStatus::OK);
    assert_eq!(*result.exit_status(), ExitStatus::OK);
    result.set_exit_status(ExitStatus::MLE("memory limit exceeded".to_string()));
    result.set_exit_status(ExitStatus::TLE("time limit exceeded".to_string()));
    result.set_exit_status(ExitStatus::OK);
    result.set_exit_status(ExitStatus::RE("runtime error: killed by signal 9".to_string()));
    assert_eq!(
        *result.exit_status(),
        ExitStatus::MLE("memory limit exceeded".to_string())
    );
}

#[test]
fn stamping_changes_nothing_else() {
    let mut result = ExecutionResult::new();
    result.set_exit_reason(ExitReason::Killed { signal: 9 });
    result.set_real_time(Duration::from_millis(12));
    result.set_exit_status(ExitStatus::RV("forbidden".to_string()));
    assert_eq!(result.exit_reason(), ExitReason::Killed { signal: 9 });
    assert_eq!(result.real_time(), Duration::from_millis(12));
    assert_eq!(result.instructions_used(), None);
}

#[test]
fn exit_status_comments() {
    assert_eq!(ExitStatus::OK.get_exit_status_comment(), "");
    assert_eq!(ExitStatus::RE("a".to_string()).get_exit_status_comment(), "a");
    assert_eq!(ExitStatus::RV("b".to_string()).get_exit_status_comment(), "b");
    assert_eq!(ExitStatus::TLE("c".to_string()).get_exit_status_comment(), "c");
    assert_eq!(ExitStatus::MLE("d".to_string()).get_exit_status_comment(), "d");
    assert_eq!(ExitStatus::OLE("e".to_string()).get_exit_status_comment(), "e");
    assert!(ExitStatus::OK.is_ok());
    assert!(!ExitStatus::OLE(String::new()).is_ok());
}

#[test]
fn exit_status_clone_is_equal() {
    let status = ExitStatus::TLE("real time limit exceeded".to_string());
    assert_eq!(status.clone(), status);
    assert_eq!(ExitStatus::OK.clone(), ExitStatus::OK);
}

#[test]
fn measured_time_is_a_thousandth_of_two_million_instructions() {
    let cases: Vec<(i64, u64)> = vec![
        (0, 0),
        (1, 0),
        (1_999_999, 0),
        (2_000_000, 1),
        (3_999_999, 1),
        (934_000_000, 467),
        (935_999_999, 467),
        (2_000_000_000, 1_000),
        (9_223_372_036_854_775_807, 4_611_686_018_427),
    ];
    for (instructions, millis) in cases {
        let mut result = ExecutionResult::new();
        result.set_instructions_used(instructions);
        assert_eq!(result.instructions_used(), Some(instructions));
        assert_eq!(result.measured_time(), Some(Duration::from_millis(millis)));
        assert_eq!(result.measured_time().unwrap().as_millis(), millis as u128);
    }
}

#[test]
fn setters_store_their_values() {
    let mut result = ExecutionResult::new();
    result.set_real_time(Duration::from_millis(3));
    result.set_user_time(Duration::from_micros(20_000));
    result.set_system_time(Duration::from_secs(1));
    result.set_memory_usage_kibibytes(4096);
    result.set_exit_reason(ExitReason::Exited { exit_status: 3 });
    assert_eq!(result.real_time().as_millis(), 3);
    assert_eq!(result.user_time().as_millis(), 20);
    assert_eq!(result.system_time().as_millis(), 1_000);
    assert_eq!(result.memory_usage_kibibytes(), Some(4096));
    assert_eq!(result.exit_reason(), ExitReason::Exited { exit_status: 3 });
    assert_eq!(*result.exit_status(), ExitStatus::OK);
}

#[test]
fn result_clone_is_equal() {
    let mut result = ExecutionResult::new();
    result.set_instructions_used(4_000_000);
    result.set_exit_status(ExitStatus::TLE("time limit exceeded".to_string()));
    let copy = result.clone();
    assert_eq!(copy, result);
}

#[test]
fn killed_by_signal_names_the_signal() {
    assert_eq!(
        ExitStatus::killed_by_signal(9),
        ExitStatus::RE("runtime error: killed by signal 9".to_string())
    );
    assert_eq!(
        ExitStatus::killed_by_signal(11),
        ExitStatus::RE("runtime error: killed by signal 11".to_string())
    );
    assert_eq!(
        ExitStatus::killed_by_signal(0),
        ExitStatus::RE("runtime error: killed by signal 0".to_string())
    );
}

#[test]
fn decimal_text_of_every_shape() {
    let cases: Vec<(i32, &str)> = vec![
        (0, "0"),
        (7, "7"),
        (10, "10"),
        (109, "109"),
        (-1, "-1"),
        (-120, "-120"),
        (2_147_483_647, "2147483647"),
        (-2_147_483_648, "-2147483648"),
    ];
    for (n, text) in cases {
        let mut out = String::from("x");
        append_decimal(&mut out, n);
        assert_eq!(out, format!("x{}", text));
    }
}

#[test]
fn cvt_no_errno_reads_zero_as_success() {
    assert_eq!(cvt_no_errno(0), Ok(()));
    assert_eq!(cvt_no_errno(11), Err(11));
    assert_eq!(cvt_no_errno(-1), Err(-1));
}

#[test]
fn durations_convert_exactly() {
    assert_eq!(Duration::zero().as_nanos(), 0);
    assert_eq!(Duration::new(2, 5).as_nanos(), 2_000_000_005);
    assert_eq!(Duration::from_secs(3).as_millis(), 3_000);
    assert_eq!(Duration::from_millis(1_234).as_secs(), 1);
    assert_eq!(Duration::from_millis(1_234).subsec_nanos(), 234_000_000);
    assert_eq!(Duration::from_micros(1_234_567).as_micros(), 1_234_567);
    assert_eq!(Duration::from_micros(1_234_567).as_millis(), 1_234);
    assert_eq!(Duration::from_micros(1_234_567).as_nanos(), 1_234_567_000);
    assert_eq!(
        Duration::from_millis(u64::MAX).as_millis(),
        18_446_744_073_709_551_615
    );
    assert_eq!(
        Duration::from_micros(u64::MAX).as_micros(),
        18_446_744_073_709_551_615
    );
    assert_eq!(
        Duration::new(u64::MAX, 999_999_999).as_nanos(),
        18_446_744_073_709_551_615_999_999_999
    );
}

#[test]
fn durations_compare_by_length() {
    assert!(Duration::from_millis(11).exceeds(&Duration::from_millis(10)));
    assert!(!Duration::from_millis(10).exceeds(&Duration::from_millis(10)));
    assert!(!Duration::from_millis(9).exceeds(&Duration::from_millis(10)));
    assert!(Duration::new(1, 0).exceeds(&Duration::new(0, 999_999_999)));
    assert!(Duration::new(1, 0) > Duration::new(0, 999_999_999));
    assert_eq!(Duration::from_millis(1_000), Duration::from_secs(1));
}
