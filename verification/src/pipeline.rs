//! Supervision of the external transcoding process.
//!
//! The process is started with its input closed and both of its output
//! streams captured. Three tasks then run side by side: one drains the error
//! stream into text, one folds the output stream into a checksum, one waits
//! for the exit status. They meet at a [`PipelineJoin`], which decides only
//! once all three have reported, whatever the order in which they finish.

use vstd::prelude::*;
use vstd::string::StringExecFns;
use crate::error::{BenchError, ErrorKind};

verus! {

/// What is done with one of the standard streams of a started process.
#[derive(Clone, Copy, Debug, PartialEq, Eq, Structural)]
pub enum StreamDisposition {
    /// The stream is closed from the start.
    Closed,
    /// The stream is a pipe that the parent reads.
    Captured,
}

/// How to start a process: the program, its arguments and its three streams.
#[derive(Clone, Debug, PartialEq, Eq)]
pub struct Invocation {
    pub program: String,
    pub arguments: Vec<String>,
    pub stdin: StreamDisposition,
    pub stdout: StreamDisposition,
    pub stderr: StreamDisposition,
}

/// The arguments of the transcoder. Codec, frame rate, quality and container
/// are fixed; the duration limit and the input path are the only variables.
/// The encoded stream goes to standard output.
pub open spec fn transcode_argument_list(duration: Seq<char>, input_path: Seq<char>) -> Seq<
    Seq<char>,
> {
    seq![
        "-hide_banner"@,
        "-loglevel"@,
        "error"@,
        "-t"@,
        duration,
        "-i"@,
        input_path,
        "-c:v"@,
        "libx264"@,
        "-c:a"@,
        "aac"@,
        "-r"@,
        "30"@,
        "-crf"@,
        "26"@,
        "-f"@,
        "matroska"@,
        "-"@,
    ]
}

/// Builds the transcoder's arguments for a duration limit, already rendered
/// as decimal seconds, and an input path.
pub fn transcode_arguments(duration: &str, input_path: &str) -> (arguments: Vec<String>)
    ensures
        arguments.deep_view() == transcode_argument_list(duration@, input_path@),
{
    let mut arguments: Vec<String> = Vec::new();
    arguments.push(String::from_str("-hide_banner"));
    arguments.push(String::from_str("-loglevel"));
    arguments.push(String::from_str("error"));
    arguments.push(String::from_str("-t"));
    arguments.push(String::from_str(duration));
    arguments.push(String::from_str("-i"));
    arguments.push(String::from_str(input_path));
    arguments.push(String::from_str("-c:v"));
    arguments.push(String::from_str("libx264"));
    arguments.push(String::from_str("-c:a"));
    arguments.push(String::from_str("aac"));
    arguments.push(String::from_str("-r"));
    arguments.push(String::from_str("30"));
    arguments.push(String::from_str("-crf"));
    arguments.push(String::from_str("26"));
    arguments.push(String::from_str("-f"));
    arguments.push(String::from_str("matroska"));
    arguments.push(String::from_str("-"));
    proof {
        assert(arguments.deep_view() =~= transcode_argument_list(duration@, input_path@));
    }
    arguments
}

/// The whole invocation of the transcoder: `ffmpeg` with the arguments of
/// [`transcode_arguments`], its input closed, its output and error streams
/// captured.
pub fn transcode_invocation(duration: &str, input_path: &str) -> (invocation: Invocation)
    ensures
        invocation.program@ == "ffmpeg"@,
        invocation.arguments.deep_view() == transcode_argument_list(duration@, input_path@),
        invocation.stdin == StreamDisposition::Closed,
        invocation.stdout == StreamDisposition::Captured,
        invocation.stderr == StreamDisposition::Captured,
{
    Invocation {
        program: String::from_str("ffmpeg"),
        arguments: transcode_arguments(duration, input_path),
        stdin: StreamDisposition::Closed,
        stdout: StreamDisposition::Captured,
        stderr: StreamDisposition::Captured,
    }
}

/// What a finished process left behind.
#[derive(Clone, Debug, PartialEq, Eq)]
pub struct ProcessOutcome {
    /// Whether the exit status reports success.
    pub success: bool,
    /// Everything the process wrote to its error stream.
    pub diagnostics: String,
    /// The checksum of everything the process wrote to its output stream.
    pub checksum: u8,
}

impl ProcessOutcome {
    /// The result of the transcode: the checksum if the process succeeded,
    /// else a [`ErrorKind::ProcessExit`] failure that carries the diagnostics.
    pub open spec fn verdict(self) -> Result<u8, BenchError> {
        if self.success {
            Ok(self.checksum)
        } else {
            Err(BenchError { kind: ErrorKind::ProcessExit, detail: self.diagnostics })
        }
    }

    /// Decides pass or fail.
    pub fn into_result(self) -> (result: Result<u8, BenchError>)
        ensures
            result == self.verdict(),
    {
        if self.success {
            Ok(self.checksum)
        } else {
            Err(BenchError::new(ErrorKind::ProcessExit, self.diagnostics))
        }
    }
}

/// The report of one of the three tasks. `Err` carries the detail of the
/// failure that stopped the task.
#[derive(Debug, PartialEq, Eq)]
pub enum TaskReport {
    /// The error stream was drained to its end: all of its text.
    Diagnostics(Result<String, String>),
    /// The output stream was folded to its end: its checksum.
    Output(Result<u8, String>),
    /// The process exited: whether its status reports success.
    Exit(Result<bool, String>),
}

/// One of the three tasks that run beside a started process.
#[derive(Clone, Copy, Debug, PartialEq, Eq, Structural)]
pub enum Task {
    /// Drains the error stream into text.
    DrainDiagnostics,
    /// Folds the output stream into a checksum.
    HashOutput,
    /// Waits for the exit status.
    AwaitExit,
}

impl TaskReport {
    /// The task that a report comes from.
    pub open spec fn task(self) -> Task {
        match self {
            TaskReport::Diagnostics(_) => Task::DrainDiagnostics,
            TaskReport::Output(_) => Task::HashOutput,
            TaskReport::Exit(_) => Task::AwaitExit,
        }
    }

    /// Tells which task a report comes from.
    pub fn origin(&self) -> (task: Task)
        ensures
            task == self.task(),
    {
        match self {
            TaskReport::Diagnostics(_) => Task::DrainDiagnostics,
            TaskReport::Output(_) => Task::HashOutput,
            TaskReport::Exit(_) => Task::AwaitExit,
        }
    }
}

/// The state of the barrier: what each task has reported so far.
pub struct JoinState {
    pub diagnostics: Option<Result<String, String>>,
    pub output: Option<Result<u8, String>>,
    pub exit: Option<Result<bool, String>>,
}

impl JoinState {
    /// Nothing reported yet.
    pub open spec fn empty() -> JoinState {
        JoinState { diagnostics: None, output: None, exit: None }
    }

    /// Whether all three tasks have reported.
    pub open spec fn complete(self) -> bool {
        self.diagnostics is Some && self.output is Some && self.exit is Some
    }

    /// The state after a report. A task reports once: a second report of the
    /// same task changes nothing.
    pub open spec fn record(self, report: TaskReport) -> JoinState {
        match report {
            TaskReport::Diagnostics(r) => if self.diagnostics is None {
                JoinState { diagnostics: Some(r), ..self }
            } else {
                self
            },
            TaskReport::Output(r) => if self.output is None {
                JoinState { output: Some(r), ..self }
            } else {
                self
            },
            TaskReport::Exit(r) => if self.exit is None {
                JoinState { exit: Some(r), ..self }
            } else {
                self
            },
        }
    }

    /// The state after a sequence of reports, taken in order.
    pub open spec fn record_all(self, reports: Seq<TaskReport>) -> JoinState
        decreases reports.len(),
    {
        if reports.len() == 0 {
            self
        } else {
            self.record_all(reports.drop_last()).record(reports.last())
        }
    }

    /// What the barrier has decided. Nothing while a task is still running.
    /// Once all have reported: the failure of a task, if one failed, looked
    /// for in the order diagnostics, output, exit, as an [`ErrorKind::Io`]
    /// failure with the task's detail; else the outcome of the process.
    pub open spec fn decision(self) -> Option<Result<ProcessOutcome, BenchError>> {
        match (self.diagnostics, self.output, self.exit) {
            (Some(Err(detail)), Some(_), Some(_)) => Some(
                Err(BenchError { kind: ErrorKind::Io, detail }),
            ),
            (Some(Ok(_)), Some(Err(detail)), Some(_)) => Some(
                Err(BenchError { kind: ErrorKind::Io, detail }),
            ),
            (Some(Ok(_)), Some(Ok(_)), Some(Err(detail))) => Some(
                Err(BenchError { kind: ErrorKind::Io, detail }),
            ),
            (Some(Ok(diagnostics)), Some(Ok(checksum)), Some(Ok(success))) => Some(
                Ok(ProcessOutcome { success, diagnostics, checksum }),
            ),
            _ => None,
        }
    }

    /// What the transcode returns: nothing while a task is still running,
    /// then the failure of a task, or the verdict on the process's outcome.
    pub open spec fn verdict(self) -> Option<Result<u8, BenchError>> {
        match self.decision() {
            None => None,
            Some(Err(error)) => Some(Err(error)),
            Some(Ok(outcome)) => Some(outcome.verdict()),
        }
    }
}

/// The barrier at which the three tasks of a running transcode meet.
#[derive(Debug, PartialEq, Eq)]
pub struct PipelineJoin {
    diagnostics: Option<Result<String, String>>,
    output: Option<Result<u8, String>>,
    exit: Option<Result<bool, String>>,
}

impl View for PipelineJoin {
    type V = JoinState;

    closed spec fn view(&self) -> JoinState {
        JoinState { diagnostics: self.diagnostics, output: self.output, exit: self.exit }
    }
}

impl PipelineJoin {
    /// A barrier that no task has reached yet.
    pub fn new() -> (join: PipelineJoin)
        ensures
            join@ == JoinState::empty(),
    {
        PipelineJoin { diagnostics: None, output: None, exit: None }
    }

    /// Takes the report of one task.
    pub fn report(&mut self, report: TaskReport)
        ensures
            final(self)@ == old(self)@.record(report),
    {
        match report {
            TaskReport::Diagnostics(r) => {
                if self.diagnostics.is_none() {
                    self.diagnostics = Some(r);
                }
            },
            TaskReport::Output(r) => {
                if self.output.is_none() {
                    self.output = Some(r);
                }
            },
            TaskReport::Exit(r) => {
                if self.exit.is_none() {
                    self.exit = Some(r);
                }
            },
        }
    }

    /// Whether all three tasks have reported.
    pub fn is_complete(&self) -> (complete: bool)
        ensures
            complete == self@.complete(),
    {
        self.diagnostics.is_some() && self.output.is_some() && self.exit.is_some()
    }

    /// The outcome of the process, once all three tasks have reported.
    pub fn outcome(self) -> (decision: Option<Result<ProcessOutcome, BenchError>>)
        ensures
            decision == self@.decision(),
    {
        match (self.diagnostics, self.output, self.exit) {
            (Some(diagnostics), Some(output), Some(exit)) => {
                match diagnostics {
                    Err(detail) => Some(Err(BenchError::new(ErrorKind::Io, detail))),
                    Ok(text) => match output {
                        Err(detail) => Some(Err(BenchError::new(ErrorKind::Io, detail))),
                        Ok(checksum) => match exit {
                            Err(detail) => Some(Err(BenchError::new(ErrorKind::Io, detail))),
                            Ok(success) => Some(
                                Ok(ProcessOutcome { success, diagnostics: text, checksum }),
                            ),
                        },
                    },
                }
            },
            _ => None,
        }
    }

    /// The result of the transcode, once all three tasks have reported.
    pub fn conclude(self) -> (verdict: Option<Result<u8, BenchError>>)
        ensures
            verdict == self@.verdict(),
    {
        match self.outcome() {
            None => None,
            Some(Err(error)) => Some(Err(error)),
            Some(Ok(outcome)) => Some(outcome.into_result()),
        }
    }
}

/// The failure to report when the process could not be started at all.
pub fn spawn_failure(detail: String) -> (error: BenchError)
    ensures
        error.kind == ErrorKind::ProcessSpawn,
        error.detail == detail,
{
    BenchError::new(ErrorKind::ProcessSpawn, detail)
}

/// The barrier decides exactly when all three tasks have reported, and not
/// before.
pub proof fn lemma_decision_waits_for_all(state: JoinState)
    ensures
        state.decision() is Some <==> state.complete(),
        state.verdict() is Some <==> state.complete(),
{
}

/// Reports of two different tasks may arrive in either order: the barrier
/// ends in the same state.
pub proof fn lemma_reports_commute(state: JoinState, first: TaskReport, second: TaskReport)
    requires
        first.task() != second.task(),
    ensures
        state.record(first).record(second) == state.record(second).record(first),
{
}

/// A report never takes back what was reported before: a slot that is filled
/// stays as it is.
pub proof fn lemma_report_keeps_filled_slots(state: JoinState, report: TaskReport)
    ensures
        state.diagnostics is Some ==> state.record(report).diagnostics == state.diagnostics,
        state.output is Some ==> state.record(report).output == state.output,
        state.exit is Some ==> state.record(report).exit == state.exit,
        state.complete() ==> state.record(report) == state,
{
}

/// Whatever the order in which the three tasks finish, the barrier ends in
/// the same state, and so the transcode in the same way.
pub proof fn lemma_verdict_ignores_order(
    diagnostics: Result<String, String>,
    output: Result<u8, String>,
    exit: Result<bool, String>,
)
    ensures
        ({
            let d = TaskReport::Diagnostics(diagnostics);
            let o = TaskReport::Output(output);
            let e = TaskReport::Exit(exit);
            let start = JoinState::empty();
            let joined = JoinState {
                diagnostics: Some(diagnostics),
                output: Some(output),
                exit: Some(exit),
            };
            &&& start.record_all(seq![d, o, e]) == joined
            &&& start.record_all(seq![d, e, o]) == joined
            &&& start.record_all(seq![o, d, e]) == joined
            &&& start.record_all(seq![o, e, d]) == joined
            &&& start.record_all(seq![e, d, o]) == joined
            &&& start.record_all(seq![e, o, d]) == joined
            &&& joined.complete()
        }),
{
    let d = TaskReport::Diagnostics(diagnostics);
    let o = TaskReport::Output(output);
    let e = TaskReport::Exit(exit);
    lemma_record_three(JoinState::empty(), d, o, e);
    lemma_record_three(JoinState::empty(), d, e, o);
    lemma_record_three(JoinState::empty(), o, d, e);
    lemma_record_three(JoinState::empty(), o, e, d);
    lemma_record_three(JoinState::empty(), e, d, o);
    lemma_record_three(JoinState::empty(), e, o, d);
}

/// When all three tasks ran to their end, the transcode returns the checksum
/// of the output stream if the process succeeded, and fails with an
/// [`ErrorKind::ProcessExit`] failure that carries the diagnostics if it did
/// not: a failed process never yields a checksum.
pub proof fn lemma_verdict_of_finished_process(text: String, checksum: u8, success: bool)
    ensures
        ({
            let joined = JoinState {
                diagnostics: Some(Ok(text)),
                output: Some(Ok(checksum)),
                exit: Some(Ok(success)),
            };
            &&& joined.decision() == Some(
                Ok::<ProcessOutcome, BenchError>(
                    ProcessOutcome { success, diagnostics: text, checksum },
                ),
            )
            &&& success ==> joined.verdict() == Some(Ok::<u8, BenchError>(checksum))
            &&& !success ==> joined.verdict() == Some(
                Err::<u8, BenchError>(BenchError { kind: ErrorKind::ProcessExit, detail: text }),
            )
        }),
{
}

/// When a task failed, the transcode fails with an [`ErrorKind::Io`] failure,
/// whatever the process's exit status says.
pub proof fn lemma_task_failure_fails_transcode(state: JoinState)
    requires
        state.complete(),
        state.diagnostics matches Some(Err(_)) || state.output matches Some(Err(_))
            || state.exit matches Some(Err(_)),
    ensures
        state.verdict() matches Some(Err(error)) && error.kind == ErrorKind::Io,
{
}

/// Three reports taken in order are three single steps.
proof fn lemma_record_three(state: JoinState, a: TaskReport, b: TaskReport, c: TaskReport)
    ensures
        state.record_all(seq![a, b, c]) == state.record(a).record(b).record(c),
{
    let abc = seq![a, b, c];
    let ab = seq![a, b];
    let just_a = seq![a];
    assert(abc.drop_last() =~= ab);
    assert(ab.drop_last() =~= just_a);
    assert(just_a.drop_last() =~= Seq::<TaskReport>::empty());
    assert(state.record_all(Seq::<TaskReport>::empty()) == state);
    assert(state.record_all(just_a) == state.record(a));
    assert(state.record_all(ab) == state.record(a).record(b));
}

} // verus!
