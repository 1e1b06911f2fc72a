use video_toolbox::job::{
    CancelAction, Completion, DiagnosticBuffer, JobSlot, TerminalOutcome, DIAGNOSTIC_CAP,
};

fn running(pid: u32, path: &str) -> JobSlot {
    let mut slot = JobSlot::new();
    slot.start(Some(path.to_string()));
    slot.set_process(Some(pid));
    slot
}

#[test]
fn new_slot_is_idle() {
    let slot = JobSlot::new();
    assert!(!slot.is_active());
    assert_eq!(slot.process_id(), None);
    assert_eq!(slot.recorded_output_path(), None);
    assert!(!slot.cancel_requested());
}

#[test]
fn cancel_without_a_job_does_nothing() {
    let mut slot = JobSlot::new();
    let action = slot.cancel();
    assert_eq!(action, CancelAction { terminate: None, delete: None });
    assert!(!slot.is_active());
    assert!(!slot.cancel_requested());
}

#[test]
fn cancel_right_after_start_marks_the_job() {
    let mut slot = JobSlot::new();
    slot.start(Some("/tmp/a.mp4".to_string()));
    let action = slot.cancel();
    assert_eq!(action, CancelAction { terminate: None, delete: Some("/tmp/a.mp4".to_string()) });
    assert!(slot.cancel_requested());
    assert!(slot.is_active());
}

#[test]
fn cancel_twice_names_the_process_once() {
    let mut slot = running(4242, "/tmp/a.mp4");
    let first = slot.cancel();
    assert_eq!(
        first,
        CancelAction { terminate: Some(4242), delete: Some("/tmp/a.mp4".to_string()) }
    );
    let second = slot.cancel();
    assert_eq!(second, CancelAction { terminate: None, delete: Some("/tmp/a.mp4".to_string()) });
    assert!(slot.cancel_requested());
    assert_eq!(slot.process_id(), None);
    assert_eq!(slot.recorded_output_path(), Some("/tmp/a.mp4".to_string()));
}

#[test]
fn second_start_overwrites_the_first_job() {
    let mut slot = running(1, "/tmp/first.mp4");
    slot.start(Some("/tmp/second.mp4".to_string()));
    assert!(slot.is_active());
    assert_eq!(slot.process_id(), None);
    assert_eq!(slot.recorded_output_path(), Some("/tmp/second.mp4".to_string()));
    slot.set_process(Some(2));
    assert_eq!(slot.process_id(), Some(2));
    let action = slot.cancel();
    assert_eq!(
        action,
        CancelAction { terminate: Some(2), delete: Some("/tmp/second.mp4".to_string()) }
    );
}

#[test]
fn announced_output_replaces_the_expected_one() {
    let mut slot = running(7, "/tmp/guess.mp4");
    slot.record_output("/tmp/real.webm".to_string());
    assert_eq!(slot.recorded_output_path(), Some("/tmp/real.webm".to_string()));
    let mut idle = JobSlot::new();
    idle.record_output("/tmp/x".to_string());
    assert_eq!(idle.recorded_output_path(), None);
    idle.set_process(Some(3));
    assert_eq!(idle.process_id(), None);
}

#[test]
fn missing_process_identifier_is_accepted() {
    let mut slot = JobSlot::new();
    slot.start(None);
    slot.set_process(None);
    assert!(slot.is_active());
    assert_eq!(slot.process_id(), None);
    let done = slot.resolve(true, Some(0), "out.mp4".to_string(), String::new());
    assert_eq!(
        done.outcome,
        TerminalOutcome::Succeeded { output_path: "out.mp4".to_string() }
    );
}

#[test]
fn failed_spawn_clears_the_slot() {
    let mut slot = JobSlot::new();
    slot.start(Some("/tmp/a.mp4".to_string()));
    slot.spawn_failed();
    assert!(!slot.is_active());
    assert_eq!(slot.recorded_output_path(), None);
    assert!(!slot.cancel_requested());
}

#[test]
fn success_keeps_the_output() {
    let mut slot = running(9, "/tmp/a.mp4");
    let done = slot.resolve(true, Some(0), "/tmp/a.mp4".to_string(), "noise".to_string());
    assert_eq!(
        done,
        Completion {
            outcome: TerminalOutcome::Succeeded { output_path: "/tmp/a.mp4".to_string() },
            delete: None,
        }
    );
    assert!(!slot.is_active());
    assert_eq!(slot.process_id(), Some(9));
    assert_eq!(slot.recorded_output_path(), Some("/tmp/a.mp4".to_string()));
    slot.release();
    assert!(!slot.is_active());
    assert_eq!(slot.process_id(), None);
    assert_eq!(slot.recorded_output_path(), None);
}

#[test]
fn cancellation_overrides_a_successful_exit() {
    let mut slot = running(9, "/tmp/a.mp4");
    slot.cancel();
    let done = slot.resolve(true, Some(0), "/tmp/a.mp4".to_string(), String::new());
    assert_eq!(
        done,
        Completion { outcome: TerminalOutcome::Cancelled, delete: Some("/tmp/a.mp4".to_string()) }
    );
    assert!(!slot.cancel_requested());
    assert!(!slot.is_active());
}

#[test]
fn cancellation_deletes_the_last_recorded_output() {
    let mut slot = running(9, "/tmp/guess.mp4");
    slot.record_output("/tmp/real.mkv".to_string());
    slot.cancel();
    let done = slot.resolve(false, Some(1), String::new(), "killed".to_string());
    assert_eq!(done.outcome, TerminalOutcome::Cancelled);
    assert_eq!(done.delete, Some("/tmp/real.mkv".to_string()));
}

#[test]
fn failure_carries_code_and_diagnostics() {
    let mut slot = running(9, "/tmp/a.mp4");
    let done = slot.resolve(false, Some(2), String::new(), "ERROR: no such file".to_string());
    assert_eq!(
        done,
        Completion {
            outcome: TerminalOutcome::Failed {
                exit_code: Some(2),
                diagnostic_text: "ERROR: no such file".to_string(),
            },
            delete: None,
        }
    );
    slot.release();
    assert_eq!(slot.recorded_output_path(), None);
    assert!(!slot.is_active());
}

#[test]
fn a_job_after_a_cancelled_one_starts_clean() {
    let mut slot = running(9, "/tmp/a.mp4");
    slot.cancel();
    slot.resolve(false, None, String::new(), String::new());
    slot.release();
    slot.start(Some("/tmp/b.mp4".to_string()));
    assert!(!slot.cancel_requested());
    let done = slot.resolve(true, Some(0), "/tmp/b.mp4".to_string(), String::new());
    assert_eq!(done.outcome, TerminalOutcome::Succeeded { output_path: "/tmp/b.mp4".to_string() });
}

#[test]
fn diagnostics_are_kept_line_by_line() {
    let mut buffer = DiagnosticBuffer::new();
    assert_eq!(buffer.trimmed(), "");
    buffer.append("WARNING: slow");
    buffer.append("ERROR: gone");
    assert_eq!(buffer.trimmed(), "WARNING: slow\nERROR: gone");
}

#[test]
fn diagnostics_stop_at_the_cap() {
    let mut buffer = DiagnosticBuffer::new();
    let line = "x".repeat(1023);
    for _ in 0..16 {
        buffer.append(&line);
    }
    assert_eq!(buffer.trimmed().len(), DIAGNOSTIC_CAP - 1);
    buffer.append("late");
    let held = buffer.trimmed();
    assert_eq!(held.len(), DIAGNOSTIC_CAP - 1);
    assert!(!held.contains("late"));
    assert!(held.starts_with("xxx"));
}

#[test]
fn last_line_before_the_cap_is_taken_whole() {
    let mut buffer = DiagnosticBuffer::new();
    buffer.append(&"a".repeat(DIAGNOSTIC_CAP - 2));
    buffer.append("bcdef");
    assert!(buffer.trimmed().ends_with("bcdef"));
    buffer.append("more");
    assert!(buffer.trimmed().ends_with("bcdef"));
}

#[test]
fn cancel_after_success_deletes_nothing() {
    let mut slot = running(9, "/tmp/a.mp4");
    let done = slot.resolve(true, Some(0), "/tmp/a.mp4".to_string(), String::new());
    assert_eq!(done.delete, None);
    let late = slot.cancel();
    assert_eq!(late, CancelAction { terminate: None, delete: None });
    assert!(!slot.cancel_requested());
    slot.release();
    let later = slot.cancel();
    assert_eq!(later, CancelAction { terminate: None, delete: None });
}

#[test]
fn a_job_started_before_the_release_is_not_cancelled() {
    let mut slot = running(9, "/tmp/a.mp4");
    slot.cancel();
    let done = slot.resolve(true, Some(0), "/tmp/a.mp4".to_string(), String::new());
    assert_eq!(done.outcome, TerminalOutcome::Cancelled);
    slot.start(Some("/tmp/b.mp4".to_string()));
    assert!(slot.is_active());
    assert!(!slot.cancel_requested());
}
