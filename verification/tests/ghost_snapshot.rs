use codex_core::ghost_snapshot::release_tool_gate_then;
use codex_core::ghost_snapshot::CaptureOutcome;
use codex_core::ghost_snapshot::Disposition;
use codex_core::ghost_snapshot::GateCause;
use codex_core::ghost_snapshot::GateState;
use codex_core::ghost_snapshot::GhostCommit;
use codex_core::ghost_snapshot::GhostSnapshotConfig;
use codex_core::ghost_snapshot::GhostSnapshotTask;
use codex_core::ghost_snapshot::SnapshotAction;
use codex_core::ghost_snapshot::SnapshotEvent;
use codex_core::ghost_snapshot::SnapshotRun;
use codex_core::ghost_snapshot::TaskKind;
use codex_core::ghost_snapshot::Token;
use codex_core::ghost_snapshot::SNAPSHOT_GATE_TIMEOUT_SECS;
use codex_core::path::FilePath;
use codex_core::snapshot_warnings::format_bytes;
use codex_core::snapshot_warnings::format_ignored_untracked_files_warning;
use codex_core::snapshot_warnings::format_large_untracked_warning;
use codex_core::snapshot_warnings::format_snapshot_warnings;
use codex_core::snapshot_warnings::GhostSnapshotReport;
use codex_core::snapshot_warnings::IgnoredUntrackedFile;
use codex_core::snapshot_warnings::LargeUntrackedDir;

const TIMEOUT_WARNING: &str = "Repository snapshot is taking too long. Continuing without an undo snapshot for this turn; large untracked or ignored files can slow snapshots.";

const MODELS_WARNING: &str = "Repository snapshot ignored large untracked directories (>= 200 files): models (250 files). These directories are excluded from snapshots and undo cleanup. Adjust `ghost_snapshot.ignore_large_untracked_dirs` to change this behavior.";

fn dir(path: &str, file_count: i64) -> LargeUntrackedDir {
    LargeUntrackedDir {
        path: FilePath::from_text(path),
        file_count,
    }
}

fn file(path: &str, byte_size: i64) -> IgnoredUntrackedFile {
    IgnoredUntrackedFile {
        path: FilePath::from_text(path),
        byte_size,
    }
}

fn models_report() -> GhostSnapshotReport {
    GhostSnapshotReport {
        large_untracked_dirs: vec![dir("models", 250)],
        ignored_untracked_files: Vec::new(),
    }
}

fn commit() -> GhostCommit {
    GhostCommit {
        id: "abc123".to_string(),
        parent: None,
        preexisting_untracked_files: Vec::new(),
        preexisting_untracked_dirs: Vec::new(),
    }
}

fn captured() -> SnapshotEvent {
    SnapshotEvent::CaptureEnded(CaptureOutcome::Captured {
        commit: commit(),
        report: models_report(),
    })
}

fn start(disable_warnings: bool) -> SnapshotRun {
    GhostSnapshotTask::new(Token { id: 7 }).run(GhostSnapshotConfig {
        ignore_large_untracked_files: Some(10 * 1024 * 1024),
        ignore_large_untracked_dirs: Some(200),
        disable_warnings,
    })
}

#[test]
fn large_untracked_warning_includes_threshold() {
    let report = models_report();

    let message = format_large_untracked_warning(Some(200), &report).unwrap();
    assert!(message.contains(">= 200 files"));
    assert_eq!(message, MODELS_WARNING);
}

#[test]
fn large_untracked_warning_disabled_when_threshold_disabled() {
    let report = models_report();

    assert_eq!(format_large_untracked_warning(None, &report), None);
}

#[test]
fn release_tool_gate_then_marks_ready_before_follow_up_finishes() {
    let token = Token { id: 1 };
    let actions = release_tool_gate_then(
        token,
        vec![SnapshotAction::SendWarning("follow-up started".to_string())],
    );

    let mut gate_ready = false;
    let mut follow_up_started = false;
    for action in actions {
        match action {
            SnapshotAction::MarkGateReady(marked) => {
                assert_eq!(marked, token);
                gate_ready = true;
            }
            SnapshotAction::SendWarning(message) => {
                assert_eq!(message, "follow-up started");
                assert!(gate_ready, "gate should be ready before follow-up completes");
                follow_up_started = true;
            }
            other => panic!("unexpected action {other:?}"),
        }
    }
    assert!(follow_up_started);
}

#[test]
fn large_untracked_warning_needs_a_directory() {
    let report = GhostSnapshotReport {
        large_untracked_dirs: Vec::new(),
        ignored_untracked_files: vec![file("a.bin", 5)],
    };
    assert_eq!(format_large_untracked_warning(Some(200), &report), None);
}

#[test]
fn large_untracked_warning_names_three_directories_and_counts_the_rest() {
    let mut report = GhostSnapshotReport {
        large_untracked_dirs: vec![dir("a", 1), dir("b", 2), dir("c", 3)],
        ignored_untracked_files: Vec::new(),
    };
    let message = format_large_untracked_warning(Some(-1), &report).unwrap();
    assert!(message.contains("(>= -1 files): a (1 files), b (2 files), c (3 files). These"));

    report.large_untracked_dirs.push(dir("d", 4));
    report.large_untracked_dirs.push(dir("e", 5));
    let message = format_large_untracked_warning(Some(0), &report).unwrap();
    assert!(message.contains("a (1 files), b (2 files), c (3 files), 2 more. These"));
}

#[test]
fn unnamed_directories_do_not_change_the_warning() {
    let report = |last: &str| GhostSnapshotReport {
        large_untracked_dirs: vec![dir("a", 1), dir("b", 2), dir("c", 3), dir(last, 4)],
        ignored_untracked_files: Vec::new(),
    };
    assert_eq!(
        format_large_untracked_warning(Some(1), &report("x")),
        format_large_untracked_warning(Some(1), &report("y"))
    );
}

#[test]
fn ignored_files_warning_is_exact() {
    let report = GhostSnapshotReport {
        large_untracked_dirs: Vec::new(),
        ignored_untracked_files: vec![
            file("a.bin", 11 * 1024 * 1024 + 5),
            file("b.bin", 2048),
            file("c.bin", 12),
            file("d.bin", 1),
        ],
    };
    assert_eq!(
        format_ignored_untracked_files_warning(Some(10 * 1024 * 1024), &report).unwrap(),
        "Repository snapshot ignored untracked files larger than 10 MiB: a.bin (11 MiB), b.bin (2 KiB), c.bin (12 B), 1 more. These files are preserved during undo cleanup, but their contents are not captured in the snapshot. Adjust `ghost_snapshot.ignore_large_untracked_files` to change this behavior. To avoid this message in the future, update your `.gitignore`."
    );
    assert_eq!(format_ignored_untracked_files_warning(None, &report), None);
    assert_eq!(
        format_ignored_untracked_files_warning(Some(1), &models_report()),
        None
    );
}

#[test]
fn paths_that_are_not_utf8_are_shown_repaired() {
    let report = GhostSnapshotReport {
        large_untracked_dirs: vec![LargeUntrackedDir {
            path: FilePath::Bytes(vec![b'm', 0xff, b'd']),
            file_count: 3,
        }],
        ignored_untracked_files: Vec::new(),
    };
    let message = format_large_untracked_warning(Some(2), &report).unwrap();
    assert!(message.contains("m\u{FFFD}d (3 files)"));
}

#[test]
fn wide_paths_show_one_replacement_for_each_unpaired_surrogate() {
    let report = GhostSnapshotReport {
        large_untracked_dirs: vec![LargeUntrackedDir {
            path: FilePath::Wide(vec![0x6d, 0xd800, 0x64]),
            file_count: 3,
        }],
        ignored_untracked_files: Vec::new(),
    };
    let message = format_large_untracked_warning(Some(2), &report).unwrap();
    assert!(message.contains(": m\u{FFFD}d (3 files)."));
}

#[test]
fn warnings_come_directories_first() {
    let report = GhostSnapshotReport {
        large_untracked_dirs: vec![dir("models", 250)],
        ignored_untracked_files: vec![file("a.bin", 4096)],
    };
    let warnings = format_snapshot_warnings(Some(2048), Some(200), &report);
    assert_eq!(warnings.len(), 2);
    assert_eq!(warnings[0], MODELS_WARNING);
    assert!(warnings[1].starts_with(
        "Repository snapshot ignored untracked files larger than 2 KiB: a.bin (4 KiB). These"
    ));
    assert_eq!(format_snapshot_warnings(None, None, &report).len(), 0);
    assert_eq!(format_snapshot_warnings(Some(2048), None, &report).len(), 1);
    assert_eq!(format_snapshot_warnings(None, Some(200), &report).len(), 1);
}

#[test]
fn empty_report_gives_no_warnings() {
    let report = GhostSnapshotReport {
        large_untracked_dirs: Vec::new(),
        ignored_untracked_files: Vec::new(),
    };
    assert_eq!(format_snapshot_warnings(Some(1), Some(1), &report).len(), 0);
}

#[test]
fn sizes_are_written_in_their_unit() {
    assert_eq!(format_bytes(0), "0 B");
    assert_eq!(format_bytes(1023), "1023 B");
    assert_eq!(format_bytes(1024), "1 KiB");
    assert_eq!(format_bytes(1024 * 1024 - 1), "1023 KiB");
    assert_eq!(format_bytes(1024 * 1024), "1 MiB");
    assert_eq!(format_bytes(i64::MAX), "8796093022207 MiB");
    assert_eq!(format_bytes(-5), "-5 B");
    assert_eq!(format_bytes(i64::MIN), "-9223372036854775808 B");
}

#[test]
fn shown_sizes_keep_order_and_never_overstate() {
    let stated = |text: String| -> i64 {
        let (number, unit) = text.split_once(' ').unwrap();
        let number: i64 = number.parse().unwrap();
        match unit {
            "B" => number,
            "KiB" => number * 1024,
            "MiB" => number * 1024 * 1024,
            other => panic!("unknown unit {other}"),
        }
    };
    let sizes = [
        i64::MIN,
        -5,
        0,
        1023,
        1024,
        1025,
        2047,
        1024 * 1024 - 1,
        1024 * 1024,
        3 * 1024 * 1024 + 7,
        i64::MAX,
    ];
    let mut before = i64::MIN;
    for size in sizes {
        let shown = stated(format_bytes(size));
        assert!(before <= shown);
        assert!(shown <= size);
        assert_eq!(format_bytes(shown), format_bytes(size));
        before = shown;
    }
    assert_eq!(stated(format_bytes(3 * 1024 * 1024 + 7)), 3 * 1024 * 1024);
}

#[test]
fn task_says_what_it_is() {
    let task = GhostSnapshotTask::new(Token { id: 3 });
    assert_eq!(task.kind(), TaskKind::Regular);
    assert_eq!(task.span_name(), "session_task.ghost_snapshot");
    assert_eq!(task.token, Token { id: 3 });
    assert_eq!(SNAPSHOT_GATE_TIMEOUT_SECS, 30);
    assert_eq!(start(false).gate, GateState::Held);
}

#[test]
fn snapshot_in_time_is_warned_of_and_recorded() {
    let mut run = start(false);
    assert_eq!(
        run.on_event(captured()),
        vec![
            SnapshotAction::SendWarning(MODELS_WARNING.to_string()),
            SnapshotAction::RecordGhostCommit(commit()),
            SnapshotAction::SignalFinished,
        ]
    );
    assert_eq!(
        run.on_event(SnapshotEvent::GateCause(GateCause::WorkerFinished)),
        vec![SnapshotAction::MarkGateReady(Token { id: 7 })]
    );
    assert!(!run.timed_out());
}

#[test]
fn disabled_warnings_are_held_back() {
    let mut run = start(true);
    assert_eq!(
        run.on_event(captured()),
        vec![
            SnapshotAction::RecordGhostCommit(commit()),
            SnapshotAction::SignalFinished,
        ]
    );
    let mut run = start(true);
    assert_eq!(
        run.on_event(SnapshotEvent::GateCause(GateCause::TimedOut)),
        vec![SnapshotAction::MarkGateReady(Token { id: 7 })]
    );
}

#[test]
fn timeout_opens_the_gate_and_then_warns() {
    let mut run = start(false);
    assert_eq!(
        run.on_event(SnapshotEvent::GateCause(GateCause::TimedOut)),
        vec![
            SnapshotAction::MarkGateReady(Token { id: 7 }),
            SnapshotAction::SendWarning(TIMEOUT_WARNING.to_string()),
        ]
    );
    assert!(run.timed_out());
    assert_eq!(run.on_event(captured()), vec![SnapshotAction::SignalFinished]);
}

#[test]
fn cancellation_opens_the_gate_without_a_word() {
    let mut run = start(false);
    assert_eq!(
        run.on_event(SnapshotEvent::GateCause(GateCause::Cancelled)),
        vec![SnapshotAction::MarkGateReady(Token { id: 7 })]
    );
    assert!(run.timed_out());
    assert_eq!(
        run.on_event(SnapshotEvent::CaptureEnded(CaptureOutcome::Panicked {
            error: "boom".to_string(),
        })),
        vec![SnapshotAction::SignalFinished]
    );
}

#[test]
fn gate_opens_once() {
    let mut run = start(false);
    run.on_event(SnapshotEvent::GateCause(GateCause::WorkerFinished));
    assert_eq!(
        run.on_event(SnapshotEvent::GateCause(GateCause::TimedOut)),
        Vec::new()
    );
    assert_eq!(run.gate, GateState::Released(GateCause::WorkerFinished));
}

#[test]
fn gate_opens_at_the_first_cause() {
    for cause in [
        GateCause::WorkerFinished,
        GateCause::Cancelled,
        GateCause::TimedOut,
    ] {
        let mut run = start(false);
        let before = run.on_event(captured());
        assert!(before
            .iter()
            .all(|action| !matches!(action, SnapshotAction::MarkGateReady(_))));
        let actions = run.on_event(SnapshotEvent::GateCause(cause));
        assert_eq!(actions[0], SnapshotAction::MarkGateReady(Token { id: 7 }));
    }
}

#[test]
fn commit_is_recorded_once() {
    let mut run = start(true);
    assert_eq!(
        run.on_event(captured()),
        vec![
            SnapshotAction::RecordGhostCommit(commit()),
            SnapshotAction::SignalFinished,
        ]
    );
    let mut later = commit();
    later.id = "def456".to_string();
    assert_eq!(
        run.on_event(SnapshotEvent::CaptureEnded(CaptureOutcome::Captured {
            commit: later,
            report: models_report(),
        })),
        Vec::new()
    );
}

#[test]
fn panic_is_told_even_with_warnings_disabled() {
    let mut run = start(true);
    assert_eq!(
        run.on_event(SnapshotEvent::CaptureEnded(CaptureOutcome::Panicked {
            error: "task 5 panicked".to_string(),
        })),
        vec![
            SnapshotAction::NotifyBackground(
                "Snapshots disabled after ghost snapshot panic: task 5 panicked.".to_string()
            ),
            SnapshotAction::SignalFinished,
        ]
    );
}

#[test]
fn failures_are_silent() {
    let mut run = start(false);
    assert_eq!(
        run.on_event(SnapshotEvent::CaptureEnded(
            CaptureOutcome::NotAGitRepository
        )),
        vec![SnapshotAction::SignalFinished]
    );
    let mut run = start(false);
    assert_eq!(
        run.on_event(SnapshotEvent::CaptureEnded(CaptureOutcome::Failed {
            error: "index locked".to_string(),
        })),
        vec![SnapshotAction::SignalFinished]
    );
}

#[test]
fn outcomes_are_told_apart() {
    let on_time = start(false);
    let mut late = start(false);
    late.on_event(SnapshotEvent::GateCause(GateCause::TimedOut));
    let kept = CaptureOutcome::Captured {
        commit: commit(),
        report: models_report(),
    };
    let failed = CaptureOutcome::Failed {
        error: "e".to_string(),
    };
    let panicked = CaptureOutcome::Panicked {
        error: "e".to_string(),
    };
    assert_eq!(on_time.disposition(&kept), Disposition::Kept);
    assert_eq!(late.disposition(&kept), Disposition::Stale);
    assert_eq!(on_time.disposition(&failed), Disposition::Failed);
    assert_eq!(late.disposition(&failed), Disposition::FailedLate);
    assert_eq!(on_time.disposition(&panicked), Disposition::Panicked);
    assert_eq!(late.disposition(&panicked), Disposition::PanickedLate);
    assert_eq!(
        late.disposition(&CaptureOutcome::NotAGitRepository),
        Disposition::NotARepository
    );
    assert_eq!(
        on_time.disposition(&CaptureOutcome::NotAGitRepository),
        Disposition::NotARepository
    );
}
