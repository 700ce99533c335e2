use media_bench::plan::{heading, Operation, Schedule, Task};

#[test]
fn labels_of_the_operations() {
    assert_eq!(Operation::ReadFile.label(), "Read file");
    assert_eq!(Operation::Transcode.label(), "Transcoded file");
    assert_eq!(Operation::Transfer.label(), "Transferred data in LAN");
}

#[test]
fn heading_names_the_file() {
    assert_eq!(heading("clip.mkv"), "Benchmark with clip.mkv");
    assert_eq!(heading(""), "Benchmark with ");
}

#[test]
fn schedule_of_no_files_is_empty() {
    let mut schedule = Schedule::new(0);
    assert_eq!(schedule.next(), None);
    assert_eq!(schedule.next(), None);
}

#[test]
fn schedule_walks_file_by_file() {
    let mut schedule = Schedule::new(2);
    let expected = [
        Task { file: 0, operation: Operation::ReadFile },
        Task { file: 0, operation: Operation::Transcode },
        Task { file: 0, operation: Operation::Transfer },
        Task { file: 1, operation: Operation::ReadFile },
        Task { file: 1, operation: Operation::Transcode },
        Task { file: 1, operation: Operation::Transfer },
    ];
    for task in expected {
        assert_eq!(schedule.next(), Some(task));
    }
    assert_eq!(schedule.next(), None);
    assert_eq!(schedule.next(), None);
}

#[test]
fn schedule_hands_out_three_tasks_per_file() {
    for files in [1usize, 3, 17] {
        let mut schedule = Schedule::new(files);
        let mut count = 0;
        while let Some(task) = schedule.next() {
            assert_eq!(task.file, count / 3);
            assert_eq!(Schedule::opens_file(&task), count % 3 == 0);
            count += 1;
        }
        assert_eq!(count, 3 * files);
    }
}

#[test]
fn schedule_of_the_most_files() {
    let mut schedule = Schedule::new(usize::MAX);
    assert_eq!(schedule.next(), Some(Task { file: 0, operation: Operation::ReadFile }));
}
