use video_toolbox::download::{
    interpret, observe, path_announced, percent_shown, read_decimal, status, Decimal,
    DownloadProgress, DownloadStatus, LineMatches,
};

#[test]
fn share_size_rate_and_eta_are_read() {
    let reading = observe(b"[download]  45.3% of ~12.50MiB at 1.20MiB/s ETA 00:07\r");
    assert_eq!(
        reading.event,
        Some(DownloadProgress {
            percent: Some(45),
            size: Some("12.50MiB".to_string()),
            speed: Some("1.20MiB/s".to_string()),
            eta: Some("00:07".to_string()),
            status: Some(DownloadStatus::Downloading),
        })
    );
    assert_eq!(reading.output_path, None);
}

#[test]
fn full_share_is_shown_as_ninety_nine() {
    let reading = observe(b"[download] 100% of 3.00MiB");
    let event = reading.event.unwrap();
    assert_eq!(event.percent, Some(99));
    assert_eq!(event.status, Some(DownloadStatus::Finalizing));
    let reading = observe(b"[download]  99.9% of 3.00MiB at 2.00MiB/s ETA 00:00");
    let event = reading.event.unwrap();
    assert_eq!(event.percent, Some(99));
    assert_eq!(event.status, Some(DownloadStatus::Finalizing));
    let reading = observe(b"[download]  99.8% of 3.00MiB");
    let event = reading.event.unwrap();
    assert_eq!(event.percent, Some(99));
    assert_eq!(event.status, Some(DownloadStatus::Downloading));
}

#[test]
fn destination_is_recorded() {
    let reading = observe(b"[download] Destination: /tmp/out/clip.f137.mp4\n");
    assert_eq!(reading.output_path, Some("/tmp/out/clip.f137.mp4".to_string()));
    let event = reading.event.unwrap();
    assert_eq!(event.percent, None);
    assert_eq!(event.status, Some(DownloadStatus::CreatingFile));
}

#[test]
fn extracted_audio_destination_is_recorded() {
    let reading = observe(b"[ExtractAudio] Destination: /tmp/out/song.mp3");
    assert_eq!(reading.output_path, Some("/tmp/out/song.mp3".to_string()));
    assert_eq!(reading.event.unwrap().status, Some(DownloadStatus::ExtractingAudio));
}

#[test]
fn merge_target_is_recorded_without_quotes() {
    let reading = observe(b"[Merger] Merging formats into \"/tmp/out/clip.mp4\"");
    assert_eq!(reading.output_path, Some("/tmp/out/clip.mp4".to_string()));
    assert_eq!(reading.event.unwrap().status, Some(DownloadStatus::Merging));
}

#[test]
fn file_already_there_is_recorded() {
    let reading = observe(b"[download] /tmp/out/clip.mp4 has already been downloaded");
    assert_eq!(reading.output_path, Some("/tmp/out/clip.mp4".to_string()));
    assert_eq!(reading.event, None);
}

#[test]
fn info_records_are_told_apart() {
    assert_eq!(
        observe(b"[info] abc: Downloading webpage").event.unwrap().status,
        Some(DownloadStatus::FetchingMetadata)
    );
    assert_eq!(
        observe(b"[info] abc: Downloading m3u8 information").event.unwrap().status,
        Some(DownloadStatus::PreparingStream)
    );
    assert_eq!(
        observe(b"[info] abc: Extracting URL").event.unwrap().status,
        Some(DownloadStatus::ExtractingMetadata)
    );
    assert_eq!(
        observe(b"[info] anything else").event.unwrap().status,
        Some(DownloadStatus::ExtractingMetadata)
    );
}

#[test]
fn start_of_a_download_is_reported() {
    let reading = observe(b"[download] Downloading item 1 of 3");
    assert_eq!(reading.event.unwrap().status, Some(DownloadStatus::StartingDownload));
}

#[test]
fn uninformative_records_give_nothing() {
    let reading = observe(b"[youtube] abc: Downloading webpage");
    assert_eq!(reading.event, None);
    assert_eq!(reading.output_path, None);
    let reading = observe(b"   \t ");
    assert_eq!(reading.event, None);
    assert_eq!(reading.output_path, None);
    let reading = observe(b"");
    assert_eq!(reading.event, None);
    assert_eq!(reading.output_path, None);
}

#[test]
fn white_space_around_a_record_is_dropped() {
    let reading = observe(b"   [Merger] Merging formats into 'a b.mkv'   ");
    assert_eq!(reading.output_path, Some("a b.mkv".to_string()));
}

#[test]
fn empty_destination_is_not_recorded() {
    let reading = observe(b"[download] Destination:   ");
    assert_eq!(reading.output_path, None);
    assert_eq!(reading.event.unwrap().status, Some(DownloadStatus::CreatingFile));
    assert_eq!(path_announced("Destination: \"\""), None);
}

#[test]
fn announced_path_prefers_the_destination_mark() {
    assert_eq!(path_announced("Destination: x.mp4"), Some("x.mp4".to_string()));
    assert_eq!(path_announced("Merging formats into \"y.mkv\""), Some("y.mkv".to_string()));
    assert_eq!(
        path_announced("Destination: Merging formats into z"),
        Some("Merging formats into z".to_string())
    );
    assert_eq!(path_announced("nothing here"), None);
    assert_eq!(path_announced(""), None);
}

#[test]
fn decimals_are_read_digit_by_digit() {
    assert_eq!(read_decimal("45.3"), Some(Decimal { whole: 45, tenth: 3 }));
    assert_eq!(read_decimal("100"), Some(Decimal { whole: 100, tenth: 0 }));
    assert_eq!(read_decimal("7."), Some(Decimal { whole: 7, tenth: 0 }));
    assert_eq!(read_decimal("0.96"), Some(Decimal { whole: 0, tenth: 9 }));
    assert_eq!(read_decimal("123456789012"), Some(Decimal { whole: 1000, tenth: 0 }));
    assert_eq!(read_decimal(""), None);
    assert_eq!(read_decimal(".5"), None);
    assert_eq!(read_decimal("1.2.3"), None);
    assert_eq!(read_decimal("1a"), None);
    assert_eq!(read_decimal("\u{0661}\u{0662}"), None);
}

#[test]
fn shown_percent_rounds_and_stops_at_ninety_nine() {
    assert_eq!(percent_shown(Decimal { whole: 0, tenth: 4 }), 0);
    assert_eq!(percent_shown(Decimal { whole: 0, tenth: 5 }), 1);
    assert_eq!(percent_shown(Decimal { whole: 45, tenth: 3 }), 45);
    assert_eq!(percent_shown(Decimal { whole: 98, tenth: 5 }), 99);
    assert_eq!(percent_shown(Decimal { whole: 99, tenth: 9 }), 99);
    assert_eq!(percent_shown(Decimal { whole: 1000, tenth: 0 }), 99);
}

#[test]
fn status_follows_tag_then_announcement_then_share() {
    let merger = "Merger".to_string();
    let download = "download".to_string();
    let other = "generic".to_string();
    assert_eq!(status("[Merger] x", Some(&merger), None), Some(DownloadStatus::Merging));
    assert_eq!(
        status("[download] 5%", Some(&download), Some(Decimal { whole: 5, tenth: 0 })),
        Some(DownloadStatus::Downloading)
    );
    assert_eq!(
        status("[generic] Destination: a.mp4", Some(&other), None),
        Some(DownloadStatus::CreatingOutputFile)
    );
    assert_eq!(
        status("Merging formats into a.mp4", None, None),
        Some(DownloadStatus::Merging)
    );
    assert_eq!(status("[generic] hello", Some(&other), None), None);
    assert_eq!(status("hello", None, None), None);
}

#[test]
fn interpret_works_on_given_matches() {
    let found = LineMatches {
        fraction: Some(vec![Some("[download] 12.5%".to_string()), Some("12.5".to_string())]),
        size: None,
        rate: Some(vec![Some("at 3.0KiB/s".to_string()), Some("3.0KiB/s".to_string())]),
        eta: None,
        tag: Some(vec![Some("[download]".to_string()), Some("download".to_string())]),
        already: None,
    };
    let reading = interpret("[download] 12.5% at 3.0KiB/s", &found);
    assert_eq!(
        reading.event,
        Some(DownloadProgress {
            percent: Some(13),
            size: None,
            speed: Some("3.0KiB/s".to_string()),
            eta: None,
            status: Some(DownloadStatus::Downloading),
        })
    );
    assert_eq!(reading.output_path, None);
}

#[test]
fn phrases_of_the_phases() {
    assert_eq!(DownloadStatus::CreatingOutputFile.phrase(), "Creating output file...");
    assert_eq!(DownloadStatus::Merging.phrase(), "Merging audio and video...");
    assert_eq!(DownloadStatus::ExtractingAudio.phrase(), "Extracting audio...");
    assert_eq!(DownloadStatus::FetchingMetadata.phrase(), "Fetching metadata...");
    assert_eq!(DownloadStatus::PreparingStream.phrase(), "Preparing stream...");
    assert_eq!(DownloadStatus::ExtractingMetadata.phrase(), "Extracting metadata...");
    assert_eq!(DownloadStatus::CreatingFile.phrase(), "Creating file...");
    assert_eq!(DownloadStatus::StartingDownload.phrase(), "Starting download...");
    assert_eq!(DownloadStatus::Finalizing.phrase(), "Finalizing download...");
    assert_eq!(DownloadStatus::Downloading.phrase(), "Downloading...");
}
