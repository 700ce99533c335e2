use media_bench::checksum::{ReadEvent, StreamHash};
use media_bench::error::{BenchError, ErrorKind};
use media_bench::pipeline::{
    spawn_failure, transcode_arguments, transcode_invocation, PipelineJoin, ProcessOutcome,
    StreamDisposition, Task, TaskReport,
};

fn reports(
    diagnostics: Result<&str, &str>,
    output: Result<u8, &str>,
    exit: Result<bool, &str>,
) -> [TaskReport; 3] {
    [
        TaskReport::Diagnostics(diagnostics.map(str::to_string).map_err(str::to_string)),
        TaskReport::Output(output.map_err(str::to_string)),
        TaskReport::Exit(exit.map_err(str::to_string)),
    ]
}

fn join_in_order(
    order: [usize; 3],
    diagnostics: Result<&str, &str>,
    output: Result<u8, &str>,
    exit: Result<bool, &str>,
) -> Option<Result<u8, BenchError>> {
    let mut join = PipelineJoin::new();
    for (seen, index) in order.into_iter().enumerate() {
        assert!(!join.is_complete());
        let [d, o, e] = reports(diagnostics, output, exit);
        let report = match index {
            0 => d,
            1 => o,
            _ => e,
        };
        join.report(report);
        if seen < 2 {
            let mut pending = PipelineJoin::new();
            for earlier in order.into_iter().take(seen + 1) {
                let [d, o, e] = reports(diagnostics, output, exit);
                pending.report(match earlier {
                    0 => d,
                    1 => o,
                    _ => e,
                });
            }
            assert_eq!(pending.conclude(), None);
        }
    }
    assert!(join.is_complete());
    join.conclude()
}

const ORDERS: [[usize; 3]; 6] =
    [[0, 1, 2], [0, 2, 1], [1, 0, 2], [1, 2, 0], [2, 0, 1], [2, 1, 0]];

#[test]
fn transcode_arguments_follow_the_template() {
    let arguments = transcode_arguments("30", "/media/clip.mkv");
    let expected = [
        "-hide_banner",
        "-loglevel",
        "error",
        "-t",
        "30",
        "-i",
        "/media/clip.mkv",
        "-c:v",
        "libx264",
        "-c:a",
        "aac",
        "-r",
        "30",
        "-crf",
        "26",
        "-f",
        "matroska",
        "-",
    ];
    assert_eq!(arguments, expected);
}

#[test]
fn transcode_arguments_vary_only_in_duration_and_path() {
    let one = transcode_arguments("0.5", "a.mp4");
    let other = transcode_arguments("12", "b.mov");
    assert_eq!(one.len(), 18);
    assert_eq!(other.len(), 18);
    for i in 0..18 {
        if i == 4 || i == 6 {
            assert_ne!(one[i], other[i]);
        } else {
            assert_eq!(one[i], other[i]);
        }
    }
    assert_eq!(one[4], "0.5");
    assert_eq!(one[6], "a.mp4");
}

#[test]
fn transcode_invocation_closes_input_and_captures_outputs() {
    let invocation = transcode_invocation("30", "in.mkv");
    assert_eq!(invocation.program, "ffmpeg");
    assert_eq!(invocation.arguments, transcode_arguments("30", "in.mkv"));
    assert_eq!(invocation.stdin, StreamDisposition::Closed);
    assert_eq!(invocation.stdout, StreamDisposition::Captured);
    assert_eq!(invocation.stderr, StreamDisposition::Captured);
}

#[test]
fn successful_process_yields_its_checksum() {
    let outcome = ProcessOutcome { success: true, diagnostics: "warning".to_string(), checksum: 0x5a };
    assert_eq!(outcome.into_result(), Ok(0x5a));
}

#[test]
fn failed_process_yields_its_diagnostics() {
    let outcome = ProcessOutcome {
        success: false,
        diagnostics: "in.mkv: No such file or directory\n".to_string(),
        checksum: 0x5a,
    };
    assert_eq!(
        outcome.into_result(),
        Err(BenchError {
            kind: ErrorKind::ProcessExit,
            detail: "in.mkv: No such file or directory\n".to_string(),
        })
    );
}

#[test]
fn join_decides_only_when_all_three_reported() {
    let mut join = PipelineJoin::new();
    assert!(!join.is_complete());
    join.report(TaskReport::Exit(Ok(true)));
    assert!(!join.is_complete());
    join.report(TaskReport::Output(Ok(9)));
    assert!(!join.is_complete());
    let mut copy = PipelineJoin::new();
    copy.report(TaskReport::Exit(Ok(true)));
    copy.report(TaskReport::Output(Ok(9)));
    assert_eq!(copy.outcome(), None);
    join.report(TaskReport::Diagnostics(Ok(String::new())));
    assert!(join.is_complete());
    assert_eq!(
        join.outcome(),
        Some(Ok(ProcessOutcome { success: true, diagnostics: String::new(), checksum: 9 }))
    );
}

#[test]
fn join_gives_the_same_verdict_in_every_order() {
    for order in ORDERS {
        assert_eq!(join_in_order(order, Ok(""), Ok(0x21), Ok(true)), Some(Ok(0x21)));
        assert_eq!(
            join_in_order(order, Ok("bad input"), Ok(0x21), Ok(false)),
            Some(Err(BenchError { kind: ErrorKind::ProcessExit, detail: "bad input".to_string() }))
        );
    }
}

#[test]
fn join_reports_task_failures_as_io_failures() {
    for order in ORDERS {
        assert_eq!(
            join_in_order(order, Err("stderr broke"), Ok(1), Ok(true)),
            Some(Err(BenchError { kind: ErrorKind::Io, detail: "stderr broke".to_string() }))
        );
        assert_eq!(
            join_in_order(order, Ok("text"), Err("stdout broke"), Ok(false)),
            Some(Err(BenchError { kind: ErrorKind::Io, detail: "stdout broke".to_string() }))
        );
        assert_eq!(
            join_in_order(order, Ok("text"), Ok(1), Err("wait broke")),
            Some(Err(BenchError { kind: ErrorKind::Io, detail: "wait broke".to_string() }))
        );
        assert_eq!(
            join_in_order(order, Err("first"), Err("second"), Err("third")),
            Some(Err(BenchError { kind: ErrorKind::Io, detail: "first".to_string() }))
        );
        assert_eq!(
            join_in_order(order, Ok(""), Err("second"), Err("third")),
            Some(Err(BenchError { kind: ErrorKind::Io, detail: "second".to_string() }))
        );
    }
}

#[test]
fn join_keeps_the_first_report_of_a_task() {
    let mut join = PipelineJoin::new();
    join.report(TaskReport::Output(Ok(1)));
    join.report(TaskReport::Output(Ok(2)));
    join.report(TaskReport::Diagnostics(Ok("first".to_string())));
    join.report(TaskReport::Diagnostics(Err("second".to_string())));
    join.report(TaskReport::Exit(Ok(true)));
    join.report(TaskReport::Exit(Ok(false)));
    assert_eq!(join.conclude(), Some(Ok(1)));
}

#[test]
fn report_origin_names_the_task() {
    assert_eq!(TaskReport::Diagnostics(Ok(String::new())).origin(), Task::DrainDiagnostics);
    assert_eq!(TaskReport::Output(Ok(0)).origin(), Task::HashOutput);
    assert_eq!(TaskReport::Exit(Err("x".to_string())).origin(), Task::AwaitExit);
}

#[test]
fn spawn_failure_is_a_process_spawn_error() {
    assert_eq!(
        spawn_failure("No such file or directory (os error 2)".to_string()),
        BenchError {
            kind: ErrorKind::ProcessSpawn,
            detail: "No such file or directory (os error 2)".to_string(),
        }
    );
}

#[test]
fn transcode_of_missing_input_fails_with_exit_error() {
    let mut output = StreamHash::new();
    output = output.step(ReadEvent::Data(&[]));
    let checksum = match output {
        StreamHash::Done(checksum) => checksum,
        other => panic!("unexpected state {:?}", other),
    };
    let mut join = PipelineJoin::new();
    join.report(TaskReport::Output(Ok(checksum)));
    join.report(TaskReport::Exit(Ok(false)));
    join.report(TaskReport::Diagnostics(Ok("missing.mkv: No such file or directory\n".to_string())));
    assert_eq!(
        join.conclude(),
        Some(Err(BenchError {
            kind: ErrorKind::ProcessExit,
            detail: "missing.mkv: No such file or directory\n".to_string(),
        }))
    );
}

#[test]
fn large_interleaved_output_and_diagnostics_complete() {
    let output: Vec<u8> = (0..65536 + 123).map(|i| ((i * 31 + 7) % 256) as u8).collect();
    let diagnostics: String = "frame dropped\n".repeat(4096);
    assert!(diagnostics.len() > 50_000);
    let mut hashing = StreamHash::new();
    let mut drained = String::new();
    let mut text_chunks = diagnostics.as_bytes().chunks(1024);
    for chunk in output.chunks(1024) {
        hashing = hashing.step(ReadEvent::Data(chunk));
        if let Some(text) = text_chunks.next() {
            drained.push_str(std::str::from_utf8(text).unwrap());
        }
    }
    for text in text_chunks {
        drained.push_str(std::str::from_utf8(text).unwrap());
    }
    hashing = hashing.step(ReadEvent::Data(&[]));
    assert_eq!(hashing, StreamHash::Done(236));
    assert_eq!(drained, diagnostics);
    for order in ORDERS {
        assert_eq!(join_in_order(order, Ok(&drained), Ok(236), Ok(true)), Some(Ok(236)));
    }
}
