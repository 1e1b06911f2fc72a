use video_toolbox::extract::{
    audio_extension, extract_args, extract_file_name, extraction_encoder,
};
use video_toolbox::files::{page_pattern, pages_args, pages_folder};
use video_toolbox::gif::{
    animation_args, animation_place, clamp, default_frame_ms, frame_ms, frame_rate, frame_width,
    listing, listing_name, palette_filter, plan_animation, push_quoted, push_seconds, GifError,
};
use video_toolbox::media::{
    encoders_in, inquiry_args, names_audio_stream, picture_args, priority_class,
    priority_command, scratch_name, sound_filter, tag_args, thumbnail_plan, PriorityClass, Tags,
    ThumbnailPlan,
};
use video_toolbox::options::{
    EncodeOptions, EncoderInfo, ExtractAudioOptions, ImageToGifOptions, PdfToImagesOptions,
};
use video_toolbox::paths::{
    choose_folder, encode_output_path, encode_output_place, extract_output_path,
    extract_output_place, parts_of, path_in, OutputPlace, PathParts,
};
use video_toolbox::validate::{names_single_video, query_gives, single_video, watch_path};

fn strings(items: &[&str]) -> Vec<String> {
    items.iter().map(|s| s.to_string()).collect()
}

fn plain_extract(format: &str) -> ExtractAudioOptions {
    ExtractAudioOptions {
        input: "/in/talk.mp4".to_string(),
        format: format.to_string(),
        bitrate: None,
        sample_rate: None,
        mp3_mode: None,
        mp3_quality: None,
        flac_level: None,
        output_folder: None,
        work_priority: None,
    }
}

fn encode_to(folder: Option<&str>) -> EncodeOptions {
    EncodeOptions {
        input: "/in/clip.mov".to_string(),
        format: "mp4".to_string(),
        codec: None,
        preset: None,
        audio_codec: None,
        crf: None,
        audio_bitrate: None,
        output_suffix: None,
        fps: None,
        rate_mode: None,
        bitrate: None,
        two_pass: None,
        audio_tracks: None,
        subtitle_tracks: None,
        chapters_file: None,
        custom_args: None,
        output_folder: folder.map(|f| f.to_string()),
        resolution: None,
        work_priority: None,
        threads: None,
    }
}

#[test]
fn audio_formats_have_their_extension_and_encoder() {
    assert_eq!(audio_extension(&"aac".to_string()), "m4a");
    assert_eq!(audio_extension(&"flac".to_string()), "flac");
    assert_eq!(audio_extension(&"mp3".to_string()), "mp3");
    assert_eq!(audio_extension(&"strange".to_string()), "mp3");
    assert_eq!(extraction_encoder("wav"), Some("pcm_s16le"));
    assert_eq!(extraction_encoder("ogg"), Some("libvorbis"));
    assert_eq!(extraction_encoder("strange"), None);
}

#[test]
fn variable_mp3_takes_a_grade() {
    let mut o = plain_extract("mp3");
    o.mp3_mode = Some("vbr".to_string());
    o.mp3_quality = Some("2".to_string());
    o.bitrate = Some("192k".to_string());
    o.sample_rate = Some("48000".to_string());
    o.flac_level = Some("5".to_string());
    assert_eq!(
        extract_args(&o, "/out/talk_audio.mp3"),
        strings(&[
            "-y", "-i", "/in/talk.mp4", "-vn", "-c:a", "libmp3lame", "-ar", "48000", "-q:a", "2",
            "/out/talk_audio.mp3",
        ])
    );
}

#[test]
fn flac_takes_a_level_and_a_bit_rate() {
    let mut o = plain_extract("flac");
    o.flac_level = Some("8".to_string());
    o.bitrate = Some("320k".to_string());
    o.sample_rate = Some("22050".to_string());
    assert_eq!(
        extract_args(&o, "o.flac"),
        strings(&[
            "-y", "-i", "/in/talk.mp4", "-vn", "-c:a", "flac", "-compression_level", "8", "-b:a",
            "320k", "o.flac",
        ])
    );
    o.flac_level = Some("9".to_string());
    assert_eq!(
        extract_args(&o, "o.flac"),
        strings(&["-y", "-i", "/in/talk.mp4", "-vn", "-c:a", "flac", "-b:a", "320k", "o.flac"])
    );
}

#[test]
fn unknown_audio_format_gets_no_encoder() {
    let o = plain_extract("strange");
    assert_eq!(extract_args(&o, "o.mp3"), strings(&["-y", "-i", "/in/talk.mp4", "-vn", "o.mp3"]));
    assert_eq!(extract_file_name(&o, "talk"), "talk_audio.mp3");
    assert_eq!(extract_file_name(&plain_extract("aac"), "talk"), "talk_audio.m4a");
}

#[test]
fn folder_asked_for_wins_over_the_input_folder() {
    let beside = Some("/in".to_string());
    assert_eq!(choose_folder(&Some("/out".to_string()), &beside), Some("/out".to_string()));
    assert_eq!(choose_folder(&Some(String::new()), &beside), Some("/in".to_string()));
    assert_eq!(choose_folder(&None, &beside), Some("/in".to_string()));
    assert_eq!(choose_folder(&None, &None), None);
    assert_eq!(choose_folder(&Some(String::new()), &None), None);
}

#[test]
fn result_is_placed_in_the_folder() {
    assert_eq!(path_in(&OutputPlace { folder: None, name: "a.mp4".to_string() }), "a.mp4");
    let placed =
        path_in(&OutputPlace { folder: Some("out".to_string()), name: "a.mp4".to_string() });
    assert!(placed.starts_with("out"));
    assert!(placed.ends_with("a.mp4"));
    assert_eq!(placed.len(), "out".len() + 1 + "a.mp4".len());
}

#[test]
fn encode_output_is_named_after_the_input() {
    let bare = PathParts { parent: None, stem: Some("clip".to_string()) };
    assert_eq!(
        encode_output_place(&encode_to(None), &bare),
        OutputPlace { folder: None, name: "clip_encoded.mp4".to_string() }
    );
    let beside = PathParts { parent: Some("/in".to_string()), stem: Some("clip".to_string()) };
    let nameless = PathParts { parent: None, stem: None };
    assert_eq!(nameless.stem_or_empty(), "");
    assert_eq!(encode_output_place(&encode_to(None), &nameless).name, "_encoded.mp4");
    assert_eq!(
        encode_output_place(&encode_to(Some("/out")), &beside),
        OutputPlace { folder: Some("/out".to_string()), name: "clip_encoded.mp4".to_string() }
    );
    assert_eq!(
        extract_output_place(&plain_extract("aac"), &beside),
        OutputPlace { folder: Some("/in".to_string()), name: "clip_audio.m4a".to_string() }
    );
    assert!(extract_output_path(&plain_extract("aac")).ends_with("talk_audio.m4a"));
    let path = encode_output_path(&encode_to(Some("/out")));
    assert!(path.starts_with("/out"));
    assert!(path.ends_with("clip_encoded.mp4"));
    let beside = encode_output_path(&encode_to(None));
    assert!(beside.starts_with("/in"));
    assert!(beside.ends_with("clip_encoded.mp4"));
}

#[test]
fn parts_of_a_path() {
    let parts = parts_of("/in/clip.mov");
    assert_eq!(parts.stem, Some("clip".to_string()));
    assert_eq!(parts.parent, Some("/in".to_string()));
    let none = parts_of("");
    assert_eq!(none.stem, None);
    assert_eq!(none.parent, None);
}

#[test]
fn frame_rate_and_width_are_held_in_bounds() {
    assert_eq!(frame_rate(None), 12);
    assert_eq!(frame_rate(Some(0)), 1);
    assert_eq!(frame_rate(Some(61)), 60);
    assert_eq!(frame_rate(Some(25)), 25);
    assert_eq!(frame_width(None), 480);
    assert_eq!(frame_width(Some(10)), 64);
    assert_eq!(frame_width(Some(10_000)), 4096);
    assert_eq!(clamp(5, 1, 3), 3);
    assert_eq!(clamp(0, 1, 3), 1);
    assert_eq!(clamp(2, 1, 3), 2);
}

#[test]
fn frames_show_as_long_as_the_rate_gives() {
    assert_eq!(default_frame_ms(12), 83);
    assert_eq!(default_frame_ms(1), 1000);
    assert_eq!(default_frame_ms(60), 17);
    assert_eq!(default_frame_ms(3), 333);
    assert_eq!(default_frame_ms(16), 63);
    assert_eq!(default_frame_ms(1000), 10);
    assert_eq!(default_frame_ms(u32::MAX), 10);
    assert_eq!(default_frame_ms(0), u32::MAX);
    assert_eq!(frame_ms(&Some(vec![500, 250]), 1, 12), 250);
    assert_eq!(frame_ms(&Some(vec![500, 250]), 2, 12), 83);
    assert_eq!(frame_ms(&None, 0, 10), 100);
}

#[test]
fn seconds_have_three_decimals() {
    let mut out = String::new();
    push_seconds(&mut out, 83);
    assert_eq!(out, "0.083");
    let mut out = String::new();
    push_seconds(&mut out, 1500);
    assert_eq!(out, "1.500");
    let mut out = "d ".to_string();
    push_seconds(&mut out, 0);
    assert_eq!(out, "d 0.000");
    let mut out = String::new();
    push_seconds(&mut out, u32::MAX);
    assert_eq!(out, "4294967.295");
}

#[test]
fn paths_are_quoted_for_the_listing() {
    let mut out = String::new();
    push_quoted(&mut out, "C:\\pics\\it's.png");
    assert_eq!(out, "C:/pics/it'\\''s.png");
}

#[test]
fn listing_names_every_frame_and_the_last_again() {
    let paths = strings(&["/p/a.png", "/p/b.png"]);
    assert_eq!(
        listing(&paths, &Some(vec![200]), 10),
        "file '/p/a.png'\nduration 0.200\nfile '/p/b.png'\nduration 0.100\nfile '/p/b.png'\n"
    );
    assert_eq!(listing(&Vec::new(), &None, 10), "");
}

#[test]
fn animation_arguments_in_order() {
    assert_eq!(
        palette_filter(12, 480),
        "fps=12,scale=480:-1:flags=lanczos,split[s0][s1];[s0]palettegen[p];[s1][p]paletteuse"
    );
    assert_eq!(
        animation_args("/tmp/l.txt", "vf".to_string(), "/out/a.gif"),
        strings(&["-y", "-f", "concat", "-safe", "0", "-i", "/tmp/l.txt", "-vf", "vf", "/out/a.gif"])
    );
    assert_eq!(listing_name(42), "video_toolbox_gif_42.txt");
    assert_eq!(listing_name(u64::MAX), "video_toolbox_gif_18446744073709551615.txt");
}

#[test]
fn hardware_encoders_are_found_by_name() {
    assert_eq!(
        encoders_in(" V..... h264_nvenc  NVIDIA\n V..... hevc_qsv  Intel"),
        EncoderInfo { nvenc: true, amf: false, qsv: true }
    );
    assert_eq!(encoders_in("libx264"), EncoderInfo { nvenc: false, amf: false, qsv: false });
    assert_eq!(encoders_in("hevc_amf"), EncoderInfo { nvenc: false, amf: true, qsv: false });
}

#[test]
fn audio_stream_is_named_by_any_text() {
    assert!(names_audio_stream("0\n"));
    assert!(!names_audio_stream("  \n"));
    assert!(!names_audio_stream(""));
}

#[test]
fn thumbnails_shrink_with_the_file() {
    assert_eq!(
        thumbnail_plan(10 * 1048576, None),
        ThumbnailPlan { target_height: 240, quality: 2, count: 50, cols: 10, rows: 5 }
    );
    assert_eq!(
        thumbnail_plan(700 * 1048576, Some(200)),
        ThumbnailPlan { target_height: 160, quality: 6, count: 80, cols: 10, rows: 8 }
    );
    assert_eq!(
        thumbnail_plan(600 * 1048576, Some(95)),
        ThumbnailPlan { target_height: 180, quality: 5, count: 95, cols: 10, rows: 10 }
    );
    assert_eq!(
        thumbnail_plan(121 * 1048576, Some(1)),
        ThumbnailPlan { target_height: 200, quality: 4, count: 1, cols: 10, rows: 1 }
    );
    assert_eq!(
        thumbnail_plan(41 * 1048576, Some(0)),
        ThumbnailPlan { target_height: 220, quality: 3, count: 0, cols: 10, rows: 0 }
    );
    assert_eq!(thumbnail_plan(0, Some(u32::MAX)).count, 300);
}

#[test]
fn tags_are_set_in_a_fixed_order() {
    let tags = Tags {
        title: Some("T".to_string()),
        artist: None,
        album: Some("A".to_string()),
        year: Some("1999".to_string()),
        genre: None,
        track: None,
        comment: Some("c d".to_string()),
    };
    assert_eq!(
        tag_args("/in/a.mp4", &tags, "/in/a_temp.mp4"),
        strings(&[
            "-y", "-i", "/in/a.mp4", "-c", "copy", "-metadata", "title=T", "-metadata",
            "album=A", "-metadata", "date=1999", "-metadata", "comment=c d", "/in/a_temp.mp4",
        ])
    );
    assert_eq!(scratch_name("a", "mp4"), "a_temp.mp4");
}

#[test]
fn inquiry_arguments_in_order() {
    let args = inquiry_args("https://e.com/watch?v=1", true, true);
    assert_eq!(
        args,
        strings(&[
            "--dump-single-json", "--no-download", "--no-warnings", "--user-agent",
            "Mozilla/5.0 (Windows NT 10.0; Win64; x64) AppleWebKit/537.36",
            "https://e.com/watch?v=1", "--no-playlist", "--flat-playlist",
        ])
    );
    assert_eq!(inquiry_args("u", false, false).len(), 6);
}

#[test]
fn sound_pictures() {
    assert_eq!(
        sound_filter("spectrogram", "heatmap", "63f1af", 800, 120),
        "[0:a]showspectrumpic=s=800x120:legend=0:color=rainbow:scale=log"
    );
    assert_eq!(
        sound_filter("waveform", "accent", "#63f1af", 640, 100),
        "[0:a]aformat=channel_layouts=mono,showwavespic=s=640x100:colors=0x63f1af:scale=log"
    );
    assert_eq!(
        sound_filter("waveform", "plain", "x", 1, 2),
        "[0:a]aformat=channel_layouts=mono,showwavespic=s=1x2:colors=white:scale=log"
    );
    assert!(sound_filter("waveform", "heatmap", "x", 1, 2).ends_with("b='if(lte(val,128),255-2*val,0)'"));
    assert_eq!(
        picture_args("/in/a.mp3", "f"),
        strings(&["-y", "-i", "/in/a.mp3", "-filter_complex", "f", "-frames:v", "1", "-f", "image2", "pipe:1"])
    );
}

#[test]
fn watch_page_with_video_and_list_is_one_video() {
    assert!(names_single_video("https://www.youtube.com/watch?v=abc&list=PL1"));
    assert!(names_single_video("https://www.youtube.com/WATCH?list=PL1&v=abc"));
    assert!(!names_single_video("https://www.youtube.com/watch?v=abc"));
    assert!(!names_single_video("https://www.youtube.com/watch?v=&list=PL1"));
    assert!(!names_single_video("https://www.youtube.com/playlist?v=abc&list=PL1"));
    assert!(!names_single_video("not an address"));
}

#[test]
fn path_and_query_are_judged_as_given() {
    assert!(watch_path("/watch"));
    assert!(watch_path("/WaTcH"));
    assert!(!watch_path("/watch/"));
    assert!(!watch_path("watch"));
    assert!(!watch_path("/w\u{00e4}tch"));
    let query = vec![
        ("v".to_string(), String::new()),
        ("list".to_string(), "PL".to_string()),
        ("v".to_string(), "x".to_string()),
    ];
    assert!(query_gives(&query, "v"));
    assert!(query_gives(&query, "list"));
    assert!(!query_gives(&query, "t"));
    assert!(single_video("/watch", &query));
    assert!(!single_video("/embed", &query));
    assert!(!single_video("/watch", &Vec::new()));
}

#[test]
fn extensions_are_matched_in_any_case() {
    let wanted = video_toolbox::files::default_extensions();
    assert_eq!(wanted, strings(&["mp4", "mkv", "avi", "mov", "webm", "flv", "wmv"]));
    assert!(video_toolbox::files::is_listed("MP4", &wanted));
    assert!(video_toolbox::files::is_listed("webm", &wanted));
    assert!(!video_toolbox::files::is_listed("txt", &wanted));
    assert!(!video_toolbox::files::is_listed("", &wanted));
    assert!(video_toolbox::files::is_listed("jpg", &strings(&["JPG"])));
    assert!(!video_toolbox::files::is_listed("jpg", &Vec::new()));
}

#[test]
fn pages_are_written_as_png_unless_jpeg_is_asked_for() {
    assert_eq!(video_toolbox::files::page_extension(&None), "png");
    assert_eq!(video_toolbox::files::page_extension(&Some("JPG".to_string())), "jpg");
    assert_eq!(video_toolbox::files::page_extension(&Some("jpeg".to_string())), "jpg");
    assert_eq!(video_toolbox::files::page_extension(&Some("png".to_string())), "png");
    assert_eq!(video_toolbox::files::page_extension(&Some("tiff".to_string())), "png");
    assert_eq!(video_toolbox::files::extension_for("jpeg"), "jpg");
    assert_eq!(video_toolbox::files::extension_for("JPEG"), "png");
}

fn gif_of(paths: &[&str]) -> ImageToGifOptions {
    ImageToGifOptions {
        image_paths: strings(paths),
        fps: None,
        width: None,
        frame_durations_ms: None,
        output_folder: None,
        output_path: None,
        work_priority: None,
    }
}

#[test]
fn animation_without_images_is_refused() {
    assert_eq!(plan_animation(&gif_of(&[])), Err(GifError::NoImages));
    assert_eq!(GifError::NoImages.message(), "No images provided");
}

#[test]
fn animation_is_planned_from_the_request() {
    let mut o = gif_of(&["/tmp/a.png", "/tmp/b.png"]);
    o.fps = Some(100);
    o.width = Some(1);
    o.frame_durations_ms = Some(vec![40]);
    let plan = plan_animation(&o).unwrap();
    assert_eq!(plan.fps, 60);
    assert_eq!(plan.width, 64);
    assert_eq!(
        plan.listing,
        "file '/tmp/a.png'\nduration 0.040\nfile '/tmp/b.png'\nduration 0.017\nfile '/tmp/b.png'\n"
    );
    assert_eq!(
        plan.filter,
        "fps=60,scale=64:-1:flags=lanczos,split[s0][s1];[s0]palettegen[p];[s1][p]paletteuse"
    );
    assert_eq!(plan.listing_name, "video_toolbox_gif_2493929339685172658.txt");
}

#[test]
fn animation_goes_where_it_is_asked_to() {
    let parent = Some("/pics".to_string());
    let stem = Some("a".to_string());
    let mut o = gif_of(&["/pics/a.png"]);
    assert_eq!(
        animation_place(&o, &parent, &stem),
        OutputPlace { folder: Some("/pics".to_string()), name: "a_animated.gif".to_string() }
    );
    assert_eq!(
        animation_place(&o, &None, &None),
        OutputPlace { folder: Some(".".to_string()), name: "animated_animated.gif".to_string() }
    );
    o.output_folder = Some("/out".to_string());
    assert_eq!(
        animation_place(&o, &parent, &stem),
        OutputPlace { folder: Some("/out".to_string()), name: "a_animated.gif".to_string() }
    );
    o.output_path = Some(String::new());
    assert_eq!(animation_place(&o, &parent, &stem).folder, Some("/out".to_string()));
    o.output_path = Some("/x/y.gif".to_string());
    assert_eq!(
        animation_place(&o, &parent, &stem),
        OutputPlace { folder: None, name: "/x/y.gif".to_string() }
    );
}

#[test]
fn pages_of_a_document() {
    let o = PdfToImagesOptions {
        pdf_path: "/in/doc.pdf".to_string(),
        output_dir: "/out".to_string(),
        format: Some("JPEG".to_string()),
    };
    assert_eq!(pages_folder(&Some("doc".to_string())), "doc_pages");
    assert_eq!(pages_folder(&None), "pages_pages");
    assert_eq!(page_pattern(&o), "page_%04d.jpg");
    assert_eq!(
        pages_args(&o, "/out/doc_pages/page_%04d.jpg"),
        strings(&["-y", "-i", "/in/doc.pdf", "-vsync", "0", "/out/doc_pages/page_%04d.jpg"])
    );
}

#[test]
fn priority_words_and_commands() {
    assert_eq!(priority_class("low"), Some(PriorityClass::Idle));
    assert_eq!(priority_class("idle"), Some(PriorityClass::Idle));
    assert_eq!(priority_class("high"), Some(PriorityClass::High));
    assert_eq!(priority_class("normal"), None);
    assert_eq!(priority_class(""), None);
    assert_eq!(
        priority_command(4242, PriorityClass::Idle),
        "(Get-Process -Id 4242).PriorityClass = 'Idle'"
    );
    assert_eq!(
        priority_command(7, PriorityClass::High),
        "(Get-Process -Id 7).PriorityClass = 'High'"
    );
}

#[test]
fn empty_input_without_folder_gives_the_bare_name() {
    let mut encode = encode_to(None);
    encode.input = String::new();
    assert_eq!(encode_output_path(&encode), "_encoded.mp4");
    encode.output_folder = Some(String::new());
    assert_eq!(encode_output_path(&encode), "_encoded.mp4");
    encode.output_suffix = Some("-x".to_string());
    encode.format = "mkv".to_string();
    assert_eq!(encode_output_path(&encode), "-x.mkv");
    let mut extract = plain_extract("aac");
    extract.input = String::new();
    assert_eq!(extract_output_path(&extract), "_audio.m4a");
    extract.output_folder = Some("/out".to_string());
    let placed = extract_output_path(&extract);
    assert!(placed.starts_with("/out"));
    assert!(placed.ends_with("_audio.m4a"));
}
