//! What a caller asks for, one type for each kind of request.

use vstd::prelude::*;

verus! {

/// A named group of file extensions, offered when a file is picked.
#[derive(Debug, Clone)]
pub struct Filter {
    pub name: String,
    pub extensions: Vec<String>,
}

/// An audio track to put into the result of an encode.
#[derive(Debug, Clone)]
pub struct AudioTrack {
    pub path: Option<String>,
    pub is_source: Option<bool>,
}

/// A subtitle track to put into the result of an encode.
#[derive(Debug, Clone)]
pub struct SubtitleTrack {
    pub path: Option<String>,
}

/// A request to encode a video.
#[derive(Debug, Clone)]
pub struct EncodeOptions {
    pub input: String,
    pub format: String,
    pub codec: Option<String>,
    pub preset: Option<String>,
    pub audio_codec: Option<String>,
    pub crf: Option<u32>,
    pub audio_bitrate: Option<String>,
    pub output_suffix: Option<String>,
    pub fps: Option<String>,
    pub rate_mode: Option<String>,
    pub bitrate: Option<String>,
    pub two_pass: Option<bool>,
    pub audio_tracks: Option<Vec<AudioTrack>>,
    pub subtitle_tracks: Option<Vec<SubtitleTrack>>,
    pub chapters_file: Option<String>,
    pub custom_args: Option<String>,
    pub output_folder: Option<String>,
    pub resolution: Option<String>,
    pub work_priority: Option<String>,
    pub threads: Option<u32>,
}

/// A request to take the audio out of a file.
#[derive(Debug, Clone)]
pub struct ExtractAudioOptions {
    pub input: String,
    pub format: String,
    pub bitrate: Option<String>,
    pub sample_rate: Option<String>,
    pub mp3_mode: Option<String>,
    pub mp3_quality: Option<String>,
    pub flac_level: Option<String>,
    pub output_folder: Option<String>,
    pub work_priority: Option<String>,
}

/// A request to make an animation of still images.
#[derive(Debug, Clone)]
pub struct ImageToGifOptions {
    pub image_paths: Vec<String>,
    pub fps: Option<u32>,
    pub width: Option<u32>,
    pub frame_durations_ms: Option<Vec<u32>>,
    pub output_folder: Option<String>,
    pub output_path: Option<String>,
    pub work_priority: Option<String>,
}

/// A request to write the pages of a document as images.
#[derive(Debug, Clone)]
pub struct PdfToImagesOptions {
    pub pdf_path: String,
    pub output_dir: String,
    pub format: Option<String>,
}

/// A request to download a video.
#[derive(Debug, Clone)]
pub struct DownloadOptions {
    pub url: String,
    pub output_path: Option<String>,
    pub format: Option<String>,
    pub quality: Option<String>,
    pub mode: Option<String>,
    pub audio_format: Option<String>,
    pub audio_bitrate: Option<String>,
    pub fps: Option<String>,
    pub video_bitrate: Option<String>,
    pub video_codec: Option<String>,
    pub file_name: Option<String>,
    pub format_id: Option<String>,
}

/// What is known of an image file.
#[derive(Debug, Clone)]
pub struct ImageInfo {
    pub width: u32,
    pub height: u32,
    pub codec: String,
    pub pixel_format: String,
    pub color_space: String,
    pub bit_depth: String,
    pub format: String,
    pub size_bytes: u64,
    pub mtime_ms: u64,
}

/// Which hardware encoders the transcoder offers.
#[derive(Debug, Clone, Copy, PartialEq, Eq, Structural)]
pub struct EncoderInfo {
    pub nvenc: bool,
    pub amf: bool,
    pub qsv: bool,
}

} // verus!
