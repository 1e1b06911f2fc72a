use video_toolbox::diagnostics::{
    complaint, interpret_diagnostic, observe_diagnostic, path_in_diagnostic, status_in_diagnostic,
    DiagnosticReading,
};
use video_toolbox::download::{Decimal, DownloadProgress, DownloadStatus};
use video_toolbox::job::DiagnosticBuffer;

#[test]
fn complaint_is_kept_and_reported() {
    let mut kept = DiagnosticBuffer::new();
    let reading = observe_diagnostic(b"ERROR: [youtube] abc: Video unavailable\n", &mut kept);
    assert_eq!(
        reading,
        DiagnosticReading {
            event: None,
            complaint: Some("[youtube] abc: Video unavailable".to_string()),
            output_path: None,
        }
    );
    assert_eq!(kept.trimmed(), "ERROR: [youtube] abc: Video unavailable");
}

#[test]
fn complaint_ends_at_the_next_mark() {
    assert_eq!(complaint("x ERROR: first ERROR: second"), Some("first".to_string()));
    assert_eq!(complaint("ERROR:"), Some(String::new()));
    assert_eq!(complaint("WARNING: slow"), None);
    assert_eq!(complaint(""), None);
}

#[test]
fn blank_diagnostics_are_not_kept() {
    let mut kept = DiagnosticBuffer::new();
    let reading = observe_diagnostic(b"  \t", &mut kept);
    assert_eq!(reading, DiagnosticReading { event: None, complaint: None, output_path: None });
    assert_eq!(kept.trimmed(), "");
    observe_diagnostic(b"", &mut kept);
    assert_eq!(kept.trimmed(), "");
}

#[test]
fn diagnostics_pile_up_in_order() {
    let mut kept = DiagnosticBuffer::new();
    observe_diagnostic(b"  WARNING: one  ", &mut kept);
    observe_diagnostic(b"WARNING: two", &mut kept);
    assert_eq!(kept.trimmed(), "WARNING: one\nWARNING: two");
}

#[test]
fn share_on_the_diagnostic_stream() {
    let mut kept = DiagnosticBuffer::new();
    let reading = observe_diagnostic(b"[download]  12.0% of 5MiB", &mut kept);
    assert_eq!(reading.event, None);
    let reading = observe_diagnostic(b"[download]  12.0%of 5MiB", &mut kept);
    assert_eq!(
        reading.event,
        Some(DownloadProgress {
            percent: Some(12),
            size: None,
            speed: None,
            eta: None,
            status: Some(DownloadStatus::Downloading),
        })
    );
    assert_eq!(reading.complaint, None);
}

#[test]
fn merge_target_wins_over_destination() {
    assert_eq!(
        path_in_diagnostic("[Merger] Merging formats into \"a.mkv\""),
        Some("a.mkv".to_string())
    );
    assert_eq!(path_in_diagnostic("[download] Destination: b.webm"), Some("b.webm".to_string()));
    assert_eq!(path_in_diagnostic("nothing"), None);
}

#[test]
fn words_of_a_diagnostic_name_the_phase() {
    assert_eq!(
        status_in_diagnostic("Deleting original file a.f137.mp4", None, None),
        Some(DownloadStatus::CleaningUp)
    );
    assert_eq!(
        status_in_diagnostic("[FixupM3u8] Fixing video timestamp", None, None),
        Some(DownloadStatus::FinalizingTimestamps)
    );
    assert_eq!(
        status_in_diagnostic("Merging formats into", None, None),
        Some(DownloadStatus::Merging)
    );
    assert_eq!(
        status_in_diagnostic("Destination: x.mp4", None, None),
        Some(DownloadStatus::CreatingOutputFile)
    );
    let tag = "ExtractAudio".to_string();
    assert_eq!(
        status_in_diagnostic("[ExtractAudio] Deleting original file", Some(&tag), None),
        Some(DownloadStatus::ExtractingAudio)
    );
    assert_eq!(
        status_in_diagnostic("plain", None, Some(Decimal { whole: 99, tenth: 9 })),
        Some(DownloadStatus::Finalizing)
    );
    assert_eq!(status_in_diagnostic("plain", None, None), None);
}

#[test]
fn complaint_silences_the_event() {
    let fraction = Some(vec![Some("[download] 5%".to_string()), Some("5".to_string())]);
    let reading = interpret_diagnostic("[download] 5% ERROR: broken pipe", &fraction, &None);
    assert_eq!(reading.event, None);
    assert_eq!(reading.complaint, Some("broken pipe".to_string()));
}
