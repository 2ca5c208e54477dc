//! Setting the kernel up for counting instructions.
//!
//! The instruction counter of an unprivileged process needs the kernel
//! parameter `kernel.perf_event_paranoid` at -1. Changing it takes
//! elevated rights, which `pkexec` asks the user for. This module says
//! which command is run and what its outcome means; running a command is
//! the business of the caller, who hands in the means to do so.

use vstd::prelude::*;
use vstd::string::StringExecFns;
use vstd::utf8::decode_utf8;
use vstd::utf8::valid_utf8;

use crate::util::append_decimal;
use crate::util::decimal_text;

verus! {

/// Why the kernel could not be set up.
#[derive(Debug, PartialEq, Eq)]
pub enum PerfSetupError {
    /// `pkexec` was not found.
    PkexecNotFound,
    /// `pkexec` could not elevate the rights.
    AuthenticationFailed,
    /// The setup command failed, with this explanation.
    SetupCommandFail(String),
    /// The command could not be run, with this error number.
    IoError(i32),
}

/// A failure of the setup as a mathematical value.
pub enum PerfSetupFailure {
    PkexecNotFound,
    AuthenticationFailed,
    SetupCommandFail(Seq<char>),
    IoError(i32),
}

impl View for PerfSetupError {
    type V = PerfSetupFailure;

    open spec fn view(&self) -> PerfSetupFailure {
        match self {
            PerfSetupError::PkexecNotFound => PerfSetupFailure::PkexecNotFound,
            PerfSetupError::AuthenticationFailed => PerfSetupFailure::AuthenticationFailed,
            PerfSetupError::SetupCommandFail(why) => PerfSetupFailure::SetupCommandFail(why@),
            PerfSetupError::IoError(errno) => PerfSetupFailure::IoError(*errno),
        }
    }
}

/// What became of a command.
#[derive(Debug, PartialEq, Eq)]
pub enum CommandOutcome {
    /// The command ran to its end. `code` is its exit code, and is missing
    /// where a signal ended it; `stderr` is what it wrote to standard
    /// error.
    Finished { code: Option<i32>, stderr: Vec<u8> },
    /// The command was not found.
    NotFound,
    /// The command could not be started, with this error number.
    Failed(i32),
}

/// The texts of a command line.
pub open spec fn texts(line: Seq<String>) -> Seq<Seq<char>> {
    line.map_values(|word: String| word@)
}

/// What the outcome of a setup command means.
///
/// A command that was not found or could not be started fails the setup as
/// such. Of a command that ran, the first of these that holds decides: a
/// signal ended it; its exit code is 126 or 127, with which `pkexec`
/// reports that the rights were not granted; it wrote to standard error,
/// and what it wrote is the explanation; its exit code is not 0.
pub open spec fn setup_result(outcome: CommandOutcome) -> Result<(), PerfSetupFailure> {
    match outcome {
        CommandOutcome::NotFound => Err(PerfSetupFailure::PkexecNotFound),
        CommandOutcome::Failed(errno) => Err(PerfSetupFailure::IoError(errno)),
        CommandOutcome::Finished { code, stderr } => match code {
            None => Err(
                PerfSetupFailure::SetupCommandFail("the process was terminated by a signal"@),
            ),
            Some(code) => if code == 127 || code == 126 {
                Err(PerfSetupFailure::AuthenticationFailed)
            } else if stderr@.len() > 0 {
                if valid_utf8(stderr@) {
                    Err(PerfSetupFailure::SetupCommandFail(decode_utf8(stderr@)))
                } else {
                    Err(PerfSetupFailure::SetupCommandFail("stderr is not valid UTF-8"@))
                }
            } else if code != 0 {
                Err(
                    PerfSetupFailure::SetupCommandFail(
                        "the process returned a non-zero return code: "@ + decimal_text(
                            code as int,
                        ),
                    ),
                )
            } else {
                Ok(())
            },
        },
    }
}

/// Whether `result` is what `meaning` says.
pub open spec fn result_is(
    result: Result<(), PerfSetupError>,
    meaning: Result<(), PerfSetupFailure>,
) -> bool {
    match result {
        Ok(_) => meaning is Ok,
        Err(error) => meaning == Err::<(), PerfSetupFailure>(error@),
    }
}

/// `String::from_utf8` turns bytes into a string where they are valid
/// UTF-8, and the string then holds the characters that the bytes encode;
/// where they are not, it returns an error, which is dropped here.
#[verifier::external_body]
fn string_from_utf8(bytes: Vec<u8>) -> (text: Option<String>)
    ensures
        text is Some == valid_utf8(bytes@),
        text matches Some(t) ==> t@ == decode_utf8(bytes@),
{
    String::from_utf8(bytes).ok()
}

/// What the outcome of a setup command means for the setup.
pub fn pkexec_result(outcome: CommandOutcome) -> (result: Result<(), PerfSetupError>)
    ensures
        result_is(result, setup_result(outcome)),
{
    match outcome {
        CommandOutcome::NotFound => Err(PerfSetupError::PkexecNotFound),
        CommandOutcome::Failed(errno) => Err(PerfSetupError::IoError(errno)),
        CommandOutcome::Finished { code, stderr } => {
            let code: i32 = match code {
                None => {
                    return Err(
                        PerfSetupError::SetupCommandFail(
                            String::from_str("the process was terminated by a signal"),
                        ),
                    );
                },
                Some(code) => code,
            };
            if code == 127 || code == 126 {
                Err(PerfSetupError::AuthenticationFailed)
            } else if stderr.len() > 0 {
                match string_from_utf8(stderr) {
                    Some(why) => Err(PerfSetupError::SetupCommandFail(why)),
                    None => Err(
                        PerfSetupError::SetupCommandFail(
                            String::from_str("stderr is not valid UTF-8"),
                        ),
                    ),
                }
            } else if code != 0 {
                let mut why = String::from_str("the process returned a non-zero return code: ");
                append_decimal(&mut why, code);
                Err(PerfSetupError::SetupCommandFail(why))
            } else {
                Ok(())
            }
        },
    }
}

/// The command line that runs `program` with `args` under `pkexec`.
pub open spec fn pkexec_line(program: Seq<char>, args: Seq<Seq<char>>) -> Seq<Seq<char>> {
    seq!["pkexec"@, program] + args
}

/// The command that sets the kernel parameter until the next boot.
pub open spec fn temporary_setup_line() -> Seq<Seq<char>> {
    pkexec_line("sysctl"@, seq!["-w"@, "kernel.perf_event_paranoid=-1"@])
}

/// The shell script that sets the kernel parameter and adds the line that
/// sets it at every boot to `/etc/sysctl.conf`.
pub const PERMANENT_SETUP_SCRIPT: &'static str =
    "set -e;sysctl -w kernel.perf_event_paranoid=-1;echo -e \"\n# Settings required by perfjail:\nkernel.perf_event_paranoid = -1\" >> /etc/sysctl.conf;";

/// The command that sets the kernel parameter now and, by a line added to
/// `/etc/sysctl.conf`, at every boot.
pub open spec fn permanent_setup_line() -> Seq<Seq<char>> {
    pkexec_line(
        "bash"@,
        seq!["-c"@, PERMANENT_SETUP_SCRIPT@],
    )
}

/// Runs `program` with `args` under `pkexec`, by `run`, and says what the
/// outcome means for the setup.
pub fn pkexec_command<F>(program: &str, args: Vec<String>, run: F) -> (result: Result<
    (),
    PerfSetupError,
>) where F: FnOnce(Vec<String>) -> CommandOutcome
    requires
        forall|line: Vec<String>|
            texts(line@) == pkexec_line(program@, texts(args@)) ==> run.requires((line,)),
    ensures
        exists|line: Vec<String>, outcome: CommandOutcome|
            texts(line@) == pkexec_line(program@, texts(args@)) && #[trigger] run.ensures(
                (line,),
                outcome,
            ) && result_is(result, setup_result(outcome)),
{
    let mut line: Vec<String> = Vec::new();
    line.push(String::from_str("pkexec"));
    line.push(String::from_str(program));
    let mut i: usize = 0;
    while i < args.len()
        invariant
            i <= args@.len(),
            texts(line@) == pkexec_line(program@, texts(args@.take(i as int))),
        decreases args@.len() - i,
    {
        let ghost before = line@;
        line.push(args[i].clone());
        i += 1;
        assert(texts(line@) =~= texts(before).push(args@[i - 1]@));
        assert(texts(args@.take(i as int)) =~= texts(args@.take(i - 1)).push(args@[i - 1]@));
        assert(texts(line@) =~= pkexec_line(program@, texts(args@.take(i as int))));
    }
    assert(args@.take(i as int) =~= args@);
    let ghost handed = line;
    let outcome = run(line);
    let ghost seen = outcome;
    let result = pkexec_result(outcome);
    assert(run.ensures((handed,), seen) && result_is(result, setup_result(seen)));
    result
}

/// Sets the kernel up for counting instructions until the next boot: runs
/// `sysctl -w kernel.perf_event_paranoid=-1` under `pkexec`, by `run`.
pub fn set_perf_up_temporarily<F>(run: F) -> (result: Result<(), PerfSetupError>) where
    F: FnOnce(Vec<String>) -> CommandOutcome,

    requires
        forall|line: Vec<String>| texts(line@) == temporary_setup_line() ==> run.requires((line,)),
    ensures
        exists|line: Vec<String>, outcome: CommandOutcome|
            texts(line@) == temporary_setup_line() && #[trigger] run.ensures((line,), outcome)
                && result_is(result, setup_result(outcome)),
{
    let mut args: Vec<String> = Vec::new();
    args.push(String::from_str("-w"));
    args.push(String::from_str("kernel.perf_event_paranoid=-1"));
    assert(texts(args@) =~= seq!["-w"@, "kernel.perf_event_paranoid=-1"@]);
    pkexec_command("sysctl", args, run)
}

/// Sets the kernel up for counting instructions for good: sets the
/// parameter and adds a line to `/etc/sysctl.conf`, in one shell command
/// under `pkexec`, by `run`.
pub fn set_perf_up_permanently<F>(run: F) -> (result: Result<(), PerfSetupError>) where
    F: FnOnce(Vec<String>) -> CommandOutcome,

    requires
        forall|line: Vec<String>| texts(line@) == permanent_setup_line() ==> run.requires((line,)),
    ensures
        exists|line: Vec<String>, outcome: CommandOutcome|
            texts(line@) == permanent_setup_line() && #[trigger] run.ensures((line,), outcome)
                && result_is(result, setup_result(outcome)),
{
    let mut args: Vec<String> = Vec::new();
    args.push(String::from_str("-c"));
    args.push(String::from_str(PERMANENT_SETUP_SCRIPT));
    assert(texts(args@) =~= seq!["-c"@, PERMANENT_SETUP_SCRIPT@]);
    pkexec_command("bash", args, run)
}

/// Whether the kernel is set up for counting instructions, given the value
/// of its parameter `kernel.perf_event_paranoid`: it is when the value is
/// `-1`.
pub fn test_perf(paranoid: &String) -> (ready: bool)
    ensures
        ready == (paranoid@ == "-1"@),
{
    let wanted = String::from_str("-1");
    *paranoid == wanted
}

} // verus!
