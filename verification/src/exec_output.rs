//! What a run of a tool puts out, and how a patch run comes to it.

use crate::path::{lossy_text, repaired_text, text_of_bytes};
use core::time::Duration;
use vstd::prelude::*;
use vstd::string::*;
use vstd::utf8::{decode_utf8, valid_utf8};

verus! {

/// The exit code of a patch that was applied.
pub const EXIT_APPLIED: i32 = 0;

/// The exit code of a patch that was not applied.
pub const EXIT_FAILED: i32 = 1;

/// The exit code of a run that was not done in time.
pub const EXIT_TIMED_OUT: i32 = 124;

/// What came out of one stream.
#[derive(Debug, PartialEq, Eq)]
pub struct StreamOutput {
    pub text: String,
}

impl StreamOutput {
    pub fn new(text: String) -> (output: StreamOutput)
        ensures
            output.text == text,
    {
        StreamOutput { text }
    }
}

/// The outcome of one run of a tool.
#[derive(Debug, PartialEq, Eq)]
pub struct ExecToolCallOutput {
    pub exit_code: i32,
    pub stdout: StreamOutput,
    pub stderr: StreamOutput,
    pub aggregated_output: StreamOutput,
    pub duration: Duration,
    pub timed_out: bool,
}

/// An outcome with its texts as characters.
pub ghost struct OutputView {
    pub exit_code: i32,
    pub stdout: Seq<char>,
    pub stderr: Seq<char>,
    pub aggregated_output: Seq<char>,
    pub duration: Duration,
    pub timed_out: bool,
}

impl View for ExecToolCallOutput {
    type V = OutputView;

    open spec fn view(&self) -> OutputView {
        OutputView {
            exit_code: self.exit_code,
            stdout: self.stdout.text@,
            stderr: self.stderr.text@,
            aggregated_output: self.aggregated_output.text@,
            duration: self.duration,
            timed_out: self.timed_out,
        }
    }
}

/// Why a tool did not run.
#[derive(Debug, PartialEq, Eq)]
pub enum ToolError {
    Rejected(String),
    Codex(String),
}

/// How the thread that applies a patch ended, as far as it was waited for.
#[derive(Debug, PartialEq, Eq)]
pub enum WorkerEnd {
    Returned(Result<ExecToolCallOutput, ToolError>),
    JoinFailed { error: String },
    TimedOut,
}

/// The outcome of a patch run: both streams, and one after the other.
pub open spec fn patch_outcome(
    applied: bool,
    stdout: Seq<char>,
    stderr: Seq<char>,
    duration: Duration,
) -> OutputView {
    OutputView {
        exit_code: if applied {
            EXIT_APPLIED
        } else {
            EXIT_FAILED
        },
        stdout,
        stderr,
        aggregated_output: stdout + stderr,
        duration,
        timed_out: false,
    }
}

/// The outcome of a run that was not done in time: nothing of what it put out.
pub open spec fn timeout_outcome(duration: Duration) -> OutputView {
    OutputView {
        exit_code: EXIT_TIMED_OUT,
        stdout: Seq::empty(),
        stderr: Seq::empty(),
        aggregated_output: Seq::empty(),
        duration,
        timed_out: true,
    }
}

/// The outcome of a patch run whose streams are known as text.
pub fn patch_output(
    applied: bool,
    stdout: String,
    stderr: String,
    duration: Duration,
) -> (output: ExecToolCallOutput)
    ensures
        output@ == patch_outcome(applied, stdout@, stderr@, duration),
        output.exit_code == (if applied {
            0i32
        } else {
            1i32
        }),
        output.stdout.text@ == stdout@,
        output.stderr.text@ == stderr@,
        output.aggregated_output.text@ == stdout@ + stderr@,
        output.duration == duration,
        !output.timed_out,
{
    let exit_code: i32 = if applied {
        EXIT_APPLIED
    } else {
        EXIT_FAILED
    };
    let mut both = stdout.clone();
    both.append(stderr.as_str());
    ExecToolCallOutput {
        exit_code,
        stdout: StreamOutput::new(stdout),
        stderr: StreamOutput::new(stderr),
        aggregated_output: StreamOutput::new(both),
        duration,
        timed_out: false,
    }
}

/// The outcome of a patch run, from whether the patch was applied and the bytes that came out
/// of the two streams. A patch that was not applied makes an outcome too, not an error.
pub fn process_apply_patch(
    applied: bool,
    stdout: &[u8],
    stderr: &[u8],
    duration: Duration,
) -> (result: Result<ExecToolCallOutput, ToolError>)
    ensures
        result matches Ok(output) && output@ == patch_outcome(
            applied,
            lossy_text(stdout@),
            lossy_text(stderr@),
            duration,
        ),
        result matches Ok(output) && output.exit_code == (if applied {
            0i32
        } else {
            1i32
        }),
        result matches Ok(output) && output.duration == duration && !output.timed_out,
        result matches Ok(output) && output.aggregated_output.text@ == output.stdout.text@
            + output.stderr.text@,
        valid_utf8(stdout@) ==> (result matches Ok(output) && output.stdout.text@ == decode_utf8(
            stdout@,
        )),
        !valid_utf8(stdout@) ==> (result matches Ok(output) && output.stdout.text@
            == repaired_text(stdout@)),
        valid_utf8(stderr@) ==> (result matches Ok(output) && output.stderr.text@ == decode_utf8(
            stderr@,
        )),
        !valid_utf8(stderr@) ==> (result matches Ok(output) && output.stderr.text@
            == repaired_text(stderr@)),
{
    let stdout_text = text_of_bytes(stdout);
    let stderr_text = text_of_bytes(stderr);
    Ok(patch_output(applied, stdout_text, stderr_text, duration))
}

/// The outcome of a run that was not done in time.
pub fn timeout_exec_output(duration: Duration) -> (output: ExecToolCallOutput)
    ensures
        output@ == timeout_outcome(duration),
        output.exit_code == 124,
        output.stdout.text@.len() == 0,
        output.stderr.text@.len() == 0,
        output.aggregated_output.text@.len() == 0,
        output.duration == duration,
        output.timed_out,
{
    ExecToolCallOutput {
        exit_code: EXIT_TIMED_OUT,
        stdout: StreamOutput::new(String::new()),
        stderr: StreamOutput::new(String::new()),
        aggregated_output: StreamOutput::new(String::new()),
        duration,
        timed_out: true,
    }
}

/// The outcome of a run that was waited for `elapsed` long. What the worker returned in time
/// is handed on as it is.
pub fn blocking_exec_result(end: WorkerEnd, elapsed: Duration) -> (result: Result<
    ExecToolCallOutput,
    ToolError,
>)
    ensures
        match end {
            WorkerEnd::Returned(returned) => result == returned,
            WorkerEnd::JoinFailed { error } => result matches Err(ToolError::Rejected(message))
                && message@ == "apply_patch worker join failed: "@ + error@,
            WorkerEnd::TimedOut => result matches Ok(output) && output@ == timeout_outcome(elapsed),
        },
        end is TimedOut ==> (result matches Ok(output) && output.exit_code == 124
            && output.timed_out && output.duration == elapsed),
{
    match end {
        WorkerEnd::Returned(returned) => returned,
        WorkerEnd::JoinFailed { error } => {
            let mut message = "apply_patch worker join failed: ".to_string();
            message.append(error.as_str());
            Err(ToolError::Rejected(message))
        },
        WorkerEnd::TimedOut => Ok(timeout_exec_output(elapsed)),
    }
}

/// The exit code and the flag of a run tell a timeout from a patch that was or was not applied.
pub proof fn timeouts_are_told_apart(
    applied: bool,
    stdout: Seq<char>,
    stderr: Seq<char>,
    ran: Duration,
    waited: Duration,
)
    ensures
        patch_outcome(applied, stdout, stderr, ran).exit_code != timeout_outcome(waited).exit_code,
        !patch_outcome(applied, stdout, stderr, ran).timed_out,
        timeout_outcome(waited).timed_out,
        (patch_outcome(applied, stdout, stderr, ran).exit_code == EXIT_APPLIED) == applied,
{
}

/// Two runs that do the same to the files and put out the same have the same outcome but for
/// how long they took, and so have two runs that were not done in time.
pub proof fn outcomes_differ_in_duration_only(
    applied: bool,
    stdout: Seq<char>,
    stderr: Seq<char>,
    some: Duration,
    other: Duration,
)
    ensures
        patch_outcome(applied, stdout, stderr, some) == (OutputView {
            duration: some,
            ..patch_outcome(applied, stdout, stderr, other)
        }),
        timeout_outcome(some) == (OutputView { duration: some, ..timeout_outcome(other) }),
{
}

/// Each stream can be read back from the aggregated output.
pub proof fn streams_are_aggregated_in_order(
    applied: bool,
    stdout: Seq<char>,
    stderr: Seq<char>,
    duration: Duration,
)
    ensures
        ({
            let outcome = patch_outcome(applied, stdout, stderr, duration);
            &&& outcome.aggregated_output.take(stdout.len() as int) == outcome.stdout
            &&& outcome.aggregated_output.skip(stdout.len() as int) == outcome.stderr
        }),
{
    let both = stdout + stderr;
    assert(both.take(stdout.len() as int) =~= stdout);
    assert(both.skip(stdout.len() as int) =~= stderr);
}

/// The outcome of a patch run holds each stream as it was passed in, and aggregates the two
/// without losing, adding or changing a character: stdout is its prefix, stderr its suffix, and
/// it is as long as both. Its exit code is zero for a patch that was applied and one for any
/// other.
pub proof fn outcome_keeps_both_streams(
    output: ExecToolCallOutput,
    applied: bool,
    stdout: Seq<char>,
    stderr: Seq<char>,
    duration: Duration,
)
    requires
        output@ == patch_outcome(applied, stdout, stderr, duration),
    ensures
        output.stdout.text@ == stdout,
        output.stderr.text@ == stderr,
        output.aggregated_output.text@.len() == stdout.len() + stderr.len(),
        forall|i: int|
            0 <= i < stdout.len() ==> #[trigger] output.aggregated_output.text@[i] == stdout[i],
        forall|i: int|
            0 <= i < stderr.len() ==> output.aggregated_output.text@[stdout.len() + i]
                == #[trigger] stderr[i],
        output.exit_code == (if applied {
            0i32
        } else {
            1i32
        }),
        output.duration == duration,
        !output.timed_out,
{
}

/// The outcome of a run that was not done in time holds no output at all, whatever the run had
/// put out by then.
pub proof fn timeout_holds_no_output(output: ExecToolCallOutput, waited: Duration)
    requires
        output@ == timeout_outcome(waited),
    ensures
        output.stdout.text@.len() == 0,
        output.stderr.text@.len() == 0,
        output.aggregated_output.text@.len() == 0,
        output.exit_code == 124,
        output.duration == waited,
        output.timed_out,
{
}

} // verus!
