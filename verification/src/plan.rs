//! The order of a benchmark: for each input file in turn, the file is read,
//! then transcoded, then transferred, and each of the three is timed under
//! its own label.

use vstd::prelude::*;
use vstd::string::StringExecFns;

verus! {

/// One of the three data paths that are measured.
#[derive(Clone, Copy, Debug, PartialEq, Eq, Structural)]
pub enum Operation {
    /// Read the file from disk.
    ReadFile,
    /// Run the file through the transcoder.
    Transcode,
    /// Send the file over the network.
    Transfer,
}

impl Operation {
    /// The place of an operation among the three.
    pub open spec fn index(self) -> nat {
        match self {
            Operation::ReadFile => 0,
            Operation::Transcode => 1,
            Operation::Transfer => 2,
        }
    }

    /// The operation at a place among the three.
    pub open spec fn at(index: nat) -> Operation {
        if index == 0 {
            Operation::ReadFile
        } else if index == 1 {
            Operation::Transcode
        } else {
            Operation::Transfer
        }
    }

    /// The label under which the timing of an operation is reported.
    pub open spec fn label_text(self) -> Seq<char> {
        match self {
            Operation::ReadFile => "Read file"@,
            Operation::Transcode => "Transcoded file"@,
            Operation::Transfer => "Transferred data in LAN"@,
        }
    }

    /// The label under which the timing of this operation is reported.
    pub fn label(self) -> (label: &'static str)
        ensures
            label@ == self.label_text(),
    {
        match self {
            Operation::ReadFile => "Read file",
            Operation::Transcode => "Transcoded file",
            Operation::Transfer => "Transferred data in LAN",
        }
    }
}

/// One timed step of a benchmark: an operation on one of the input files.
#[derive(Clone, Copy, Debug, PartialEq, Eq, Structural)]
pub struct Task {
    /// The index of the file among the inputs.
    pub file: usize,
    pub operation: Operation,
}

/// The task at a position of the benchmark: files in their order, and for
/// each file the three operations in theirs.
pub open spec fn task_at(position: nat) -> (nat, Operation) {
    (position / 3, Operation::at(position % 3))
}

/// The position of a task in the benchmark.
pub open spec fn position_of(file: nat, operation: Operation) -> nat {
    3 * file + operation.index()
}

/// The line that announces the benchmark of one file.
pub open spec fn heading_text(path: Seq<char>) -> Seq<char> {
    "Benchmark with "@ + path
}

/// Renders the line that announces the benchmark of one file.
pub fn heading(path: &str) -> (line: String)
    ensures
        line@ == heading_text(path@),
{
    let mut line = String::from_str("Benchmark with ");
    line.append(path);
    line
}

/// What a schedule holds: the number of input files and the position of the
/// task that comes next.
pub struct ScheduleState {
    pub files: nat,
    pub position: nat,
}

/// A walk through the tasks of a benchmark.
#[derive(Clone, Copy, Debug, PartialEq, Eq)]
pub struct Schedule {
    files: usize,
    file: usize,
    operation: Operation,
}

impl View for Schedule {
    type V = ScheduleState;

    closed spec fn view(&self) -> ScheduleState {
        ScheduleState {
            files: self.files as nat,
            position: position_of(self.file as nat, self.operation),
        }
    }
}

impl Schedule {
    /// Every schedule stands on a task of one of its files or just behind
    /// the last one.
    #[verifier::type_invariant]
    closed spec fn in_range(&self) -> bool {
        self.file < self.files || (self.file == self.files && self.operation
            == Operation::ReadFile)
    }

    /// The schedule of a benchmark over `files` input files, before its first
    /// task.
    pub fn new(files: usize) -> (schedule: Schedule)
        ensures
            schedule@ == (ScheduleState { files: files as nat, position: 0 }),
    {
        Schedule { files, file: 0, operation: Operation::ReadFile }
    }

    /// Hands out the next task and moves past it; nothing once every
    /// operation was handed out for every file.
    pub fn next(&mut self) -> (task: Option<Task>)
        ensures
            final(self)@.files == old(self)@.files,
            old(self)@.position <= 3 * old(self)@.files,
            old(self)@.position < 3 * old(self)@.files ==> task is Some && (
                task.unwrap().file as nat,
                task.unwrap().operation,
            ) == task_at(old(self)@.position) && final(self)@.position == old(self)@.position + 1,
            old(self)@.position == 3 * old(self)@.files ==> task is None && final(self)@ == old(
                self,
            )@,
    {
        proof {
            use_type_invariant(&*self);
        }
        if self.file >= self.files {
            return None;
        }
        let task = Task { file: self.file, operation: self.operation };
        let (file, operation) = match self.operation {
            Operation::ReadFile => (self.file, Operation::Transcode),
            Operation::Transcode => (self.file, Operation::Transfer),
            Operation::Transfer => (self.file + 1, Operation::ReadFile),
        };
        *self = Schedule { files: self.files, file, operation };
        Some(task)
    }

    /// Whether a task is the first of its file, before which the file is
    /// announced.
    pub fn opens_file(task: &Task) -> (first: bool)
        ensures
            first == (task.operation == Operation::ReadFile),
    {
        task.operation == Operation::ReadFile
    }
}

/// Every operation on every file has one position in the benchmark, and
/// every position holds one task: the benchmark visits each pair of a file
/// and an operation exactly once, file by file, and within a file in the
/// order read, transcode, transfer.
pub proof fn lemma_schedule_visits_each_once(file: nat, operation: Operation, position: nat)
    ensures
        task_at(position_of(file, operation)) == (file, operation),
        position_of(task_at(position).0, task_at(position).1) == position,
        position_of(file, operation) < 3 * (file + 1),
        position_of(file, Operation::ReadFile) < position_of(file, Operation::Transcode)
            < position_of(file, Operation::Transfer) < position_of(file + 1, Operation::ReadFile),
{
}

} // verus!
