//! The argument list of an encode, from what the caller asked for.

use vstd::prelude::*;
use vstd::string::*;
use crate::args::{joined, put, put_owned, put_pair, put_words, texts, words_of};
use crate::digits::{decimal_digits, decimal_text};
use crate::options::{AudioTrack, EncodeOptions, SubtitleTrack};
use crate::text::same_text;

verus! {

/// The name of the transcoder's video encoder for a codec; an unknown codec
/// is encoded as `h264`.
pub open spec fn video_encoder_of(codec: Seq<char>) -> Seq<char> {
    if codec == "h265"@ {
        "libx265"@
    } else if codec == "vp9"@ {
        "libvpx-vp9"@
    } else if codec == "h264_nvenc"@ || codec == "hevc_nvenc"@ || codec == "h264_amf"@ || codec
        == "hevc_amf"@ || codec == "h264_qsv"@ || codec == "hevc_qsv"@ {
        codec
    } else {
        "libx264"@
    }
}

/// The name of the transcoder's audio encoder for a codec; an unknown codec
/// is encoded as `aac`.
pub open spec fn audio_encoder_of(codec: Seq<char>) -> Seq<char> {
    if codec == "opus"@ {
        "libopus"@
    } else if codec == "mp3"@ {
        "libmp3lame"@
    } else if codec == "ac3"@ || codec == "flac"@ || codec == "pcm_s16le"@ {
        codec
    } else {
        "aac"@
    }
}

/// The height in lines of a named resolution.
pub open spec fn height_of(resolution: Seq<char>) -> Option<Seq<char>> {
    if resolution == "4320p"@ {
        Some("4320"@)
    } else if resolution == "2160p"@ {
        Some("2160"@)
    } else if resolution == "1080p"@ {
        Some("1080"@)
    } else if resolution == "720p"@ {
        Some("720"@)
    } else if resolution == "480p"@ {
        Some("480"@)
    } else if resolution == "360p"@ {
        Some("360"@)
    } else {
        None
    }
}

/// An option with its value, where the value is given.
pub open spec fn optional_pair(name: Seq<char>, value: Option<String>) -> Seq<Seq<char>> {
    match value {
        Some(v) => seq![name, v@],
        None => Seq::empty(),
    }
}

/// One more input for every audio track that has a path.
pub open spec fn audio_inputs(tracks: Seq<AudioTrack>) -> Seq<Seq<char>>
    decreases tracks.len(),
{
    if tracks.len() == 0 {
        Seq::empty()
    } else {
        audio_inputs(tracks.drop_last()) + optional_pair("-i"@, tracks.last().path)
    }
}

/// One more input for every subtitle track that has a path.
pub open spec fn subtitle_inputs(tracks: Seq<SubtitleTrack>) -> Seq<Seq<char>>
    decreases tracks.len(),
{
    if tracks.len() == 0 {
        Seq::empty()
    } else {
        subtitle_inputs(tracks.drop_last()) + optional_pair("-i"@, tracks.last().path)
    }
}

/// The inputs: the file to encode, then the tracks to add.
pub open spec fn input_part(o: EncodeOptions) -> Seq<Seq<char>> {
    seq!["-i"@, o.input@] + (match o.audio_tracks {
        Some(t) => audio_inputs(t@),
        None => Seq::empty(),
    }) + (match o.subtitle_tracks {
        Some(t) => subtitle_inputs(t@),
        None => Seq::empty(),
    })
}

/// Which streams of the input go into the result: the first video stream,
/// the first audio stream unless audio is left out, and any subtitles.
pub open spec fn map_part(o: EncodeOptions) -> Seq<Seq<char>> {
    seq!["-y"@, "-map"@, "0:v:0"@] + (if o.audio_codec is Some && o.audio_codec->0@ == "none"@ {
        seq!["-an"@]
    } else {
        seq!["-map"@, "0:a:0"@]
    }) + seq!["-map"@, "0:s?"@]
}

/// The scaling filter for a resolution other than that of the source.
pub open spec fn scale_part(resolution: Option<String>) -> Seq<Seq<char>> {
    match resolution {
        Some(r) => match height_of(r@) {
            Some(h) => seq!["-vf"@, "scale=-2:"@ + h],
            None => Seq::empty(),
        },
        None => Seq::empty(),
    }
}

/// How the rate of the video is controlled: by a bit rate where that mode
/// is asked for, by a quality factor otherwise.
pub open spec fn rate_part(o: EncodeOptions) -> Seq<Seq<char>> {
    if o.rate_mode is Some && o.rate_mode->0@ == "bitrate"@ {
        match o.bitrate {
            Some(b) => seq!["-b:v"@, b@ + "k"@],
            None => Seq::empty(),
        }
    } else {
        match o.crf {
            Some(q) => seq!["-crf"@, decimal_digits(q as nat)],
            None => Seq::empty(),
        }
    }
}

/// The frame rate, where one other than that of the source is asked for.
pub open spec fn fps_part(fps: Option<String>) -> Seq<Seq<char>> {
    match fps {
        Some(f) => if f@ == "source"@ {
            Seq::empty()
        } else {
            seq!["-r"@, f@]
        },
        None => Seq::empty(),
    }
}

/// How the video is encoded. A copy takes no further option.
pub open spec fn video_part(o: EncodeOptions) -> Seq<Seq<char>> {
    match o.codec {
        None => Seq::empty(),
        Some(c) => if c@ == "copy"@ {
            seq!["-c:v"@, "copy"@]
        } else {
            seq!["-c:v"@, video_encoder_of(c@)] + scale_part(o.resolution) + optional_pair(
                "-preset"@,
                o.preset,
            ) + rate_part(o) + fps_part(o.fps)
        },
    }
}

/// How the audio is encoded.
pub open spec fn audio_part(o: EncodeOptions) -> Seq<Seq<char>> {
    match o.audio_codec {
        None => Seq::empty(),
        Some(c) => if c@ == "none"@ {
            Seq::empty()
        } else if c@ == "copy"@ {
            seq!["-c:a"@, "copy"@]
        } else {
            seq!["-c:a"@, audio_encoder_of(c@)] + optional_pair("-b:a"@, o.audio_bitrate)
        },
    }
}

/// How subtitles are written: as timed text into the containers that take
/// nothing else, unchanged into the others.
pub open spec fn subtitle_part(o: EncodeOptions) -> Seq<Seq<char>> {
    if o.format@ == "mp4"@ || o.format@ == "mov"@ {
        seq!["-c:s"@, "mov_text"@]
    } else {
        seq!["-c:s"@, "copy"@]
    }
}

/// The number of threads, where a positive one is asked for.
pub open spec fn threads_part(o: EncodeOptions) -> Seq<Seq<char>> {
    match o.threads {
        Some(t) => if t > 0 {
            seq!["-threads"@, decimal_digits(t as nat)]
        } else {
            Seq::empty()
        },
        None => Seq::empty(),
    }
}

/// The caller's own arguments, word by word.
pub open spec fn custom_part(o: EncodeOptions) -> Seq<Seq<char>> {
    match o.custom_args {
        Some(c) => words_of(c@),
        None => Seq::empty(),
    }
}

/// The whole argument list of an encode that writes to `output`.
pub open spec fn encode_arguments(o: EncodeOptions, output: Seq<char>) -> Seq<Seq<char>> {
    input_part(o) + map_part(o) + video_part(o) + audio_part(o) + subtitle_part(o) + threads_part(
        o,
    ) + custom_part(o) + seq![output]
}

/// The name of the file that an encode writes: the stem of the input, the
/// suffix asked for or `_encoded`, a point and the format.
pub open spec fn encoded_file_name(o: EncodeOptions, stem: Seq<char>) -> Seq<char> {
    stem + (match o.output_suffix {
        Some(s) => s@,
        None => "_encoded"@,
    }) + "."@ + o.format@
}

/// The name of the transcoder's video encoder for a codec.
pub fn video_encoder(codec: &String) -> (r: String)
    ensures
        r@ == video_encoder_of(codec@),
{
    let c = codec.as_str();
    if same_text(c, "h265") {
        "libx265".to_owned()
    } else if same_text(c, "vp9") {
        "libvpx-vp9".to_owned()
    } else if same_text(c, "h264_nvenc") || same_text(c, "hevc_nvenc") || same_text(c, "h264_amf")
        || same_text(c, "hevc_amf") || same_text(c, "h264_qsv") || same_text(c, "hevc_qsv") {
        codec.clone()
    } else {
        "libx264".to_owned()
    }
}

/// The name of the transcoder's audio encoder for a codec.
pub fn audio_encoder(codec: &String) -> (r: String)
    ensures
        r@ == audio_encoder_of(codec@),
{
    let c = codec.as_str();
    if same_text(c, "opus") {
        "libopus".to_owned()
    } else if same_text(c, "mp3") {
        "libmp3lame".to_owned()
    } else if same_text(c, "ac3") || same_text(c, "flac") || same_text(c, "pcm_s16le") {
        codec.clone()
    } else {
        "aac".to_owned()
    }
}

/// The height in lines of a named resolution.
pub fn height(resolution: &str) -> (r: Option<&'static str>)
    ensures
        match r {
            Some(h) => height_of(resolution@) == Some(h@),
            None => height_of(resolution@) is None,
        },
{
    if same_text(resolution, "4320p") {
        Some("4320")
    } else if same_text(resolution, "2160p") {
        Some("2160")
    } else if same_text(resolution, "1080p") {
        Some("1080")
    } else if same_text(resolution, "720p") {
        Some("720")
    } else if same_text(resolution, "480p") {
        Some("480")
    } else if same_text(resolution, "360p") {
        Some("360")
    } else {
        None
    }
}

/// Appends an option with its value, where the value is given.
pub fn put_optional(list: &mut Vec<String>, name: &str, value: &Option<String>)
    ensures
        texts(final(list)@) == texts(old(list)@) + optional_pair(name@, *value),
{
    match value {
        Some(v) => {
            put_pair(list, name, v.as_str());
        },
        None => {
            assert(texts(list@) =~= texts(old(list)@) + Seq::<Seq<char>>::empty());
        },
    }
}

fn put_audio_inputs(list: &mut Vec<String>, tracks: &Vec<AudioTrack>)
    ensures
        texts(final(list)@) == texts(old(list)@) + audio_inputs(tracks@),
{
    let mut i: usize = 0;
    assert(tracks@.take(0) =~= Seq::<AudioTrack>::empty());
    assert(texts(list@) =~= texts(old(list)@) + audio_inputs(tracks@.take(0)));
    while i < tracks.len()
        invariant
            i <= tracks.len(),
            texts(list@) == texts(old(list)@) + audio_inputs(tracks@.take(i as int)),
        decreases tracks.len() - i,
    {
        let ghost held = texts(list@);
        put_optional(list, "-i", &tracks[i].path);
        proof {
            let next = tracks@.take(i as int + 1);
            assert(next.drop_last() =~= tracks@.take(i as int));
            assert(next.last() == tracks@[i as int]);
            assert(texts(list@) =~= texts(old(list)@) + audio_inputs(next));
        }
        i = i + 1;
    }
    assert(tracks@.take(i as int) =~= tracks@);
}

fn put_subtitle_inputs(list: &mut Vec<String>, tracks: &Vec<SubtitleTrack>)
    ensures
        texts(final(list)@) == texts(old(list)@) + subtitle_inputs(tracks@),
{
    let mut i: usize = 0;
    assert(tracks@.take(0) =~= Seq::<SubtitleTrack>::empty());
    assert(texts(list@) =~= texts(old(list)@) + subtitle_inputs(tracks@.take(0)));
    while i < tracks.len()
        invariant
            i <= tracks.len(),
            texts(list@) == texts(old(list)@) + subtitle_inputs(tracks@.take(i as int)),
        decreases tracks.len() - i,
    {
        put_optional(list, "-i", &tracks[i].path);
        proof {
            let next = tracks@.take(i as int + 1);
            assert(next.drop_last() =~= tracks@.take(i as int));
            assert(next.last() == tracks@[i as int]);
            assert(texts(list@) =~= texts(old(list)@) + subtitle_inputs(next));
        }
        i = i + 1;
    }
    assert(tracks@.take(i as int) =~= tracks@);
}

fn put_inputs(list: &mut Vec<String>, o: &EncodeOptions)
    ensures
        texts(final(list)@) == texts(old(list)@) + input_part(*o),
{
    put_pair(list, "-i", o.input.as_str());
    match &o.audio_tracks {
        Some(t) => put_audio_inputs(list, t),
        None => {},
    }
    match &o.subtitle_tracks {
        Some(t) => put_subtitle_inputs(list, t),
        None => {},
    }
    assert(texts(list@) =~= texts(old(list)@) + input_part(*o));
}

/// Whether an optional text is given and is `word`.
pub fn is_given_as(value: &Option<String>, word: &str) -> (r: bool)
    ensures
        r == (value is Some && value->0@ == word@),
{
    match value {
        Some(v) => same_text(v.as_str(), word),
        None => false,
    }
}

fn put_maps(list: &mut Vec<String>, o: &EncodeOptions)
    ensures
        texts(final(list)@) == texts(old(list)@) + map_part(*o),
{
    put(list, "-y");
    put(list, "-map");
    put(list, "0:v:0");
    if is_given_as(&o.audio_codec, "none") {
        put(list, "-an");
    } else {
        put(list, "-map");
        put(list, "0:a:0");
    }
    put(list, "-map");
    put(list, "0:s?");
    assert(texts(list@) =~= texts(old(list)@) + map_part(*o));
}

fn put_scale(list: &mut Vec<String>, resolution: &Option<String>)
    ensures
        texts(final(list)@) == texts(old(list)@) + scale_part(*resolution),
{
    match resolution {
        Some(r) => match height(r.as_str()) {
            Some(h) => {
                put(list, "-vf");
                put_owned(list, joined("scale=-2:", h));
            },
            None => {},
        },
        None => {},
    }
    assert(texts(list@) =~= texts(old(list)@) + scale_part(*resolution));
}

fn put_rate(list: &mut Vec<String>, o: &EncodeOptions)
    ensures
        texts(final(list)@) == texts(old(list)@) + rate_part(*o),
{
    if is_given_as(&o.rate_mode, "bitrate") {
        match &o.bitrate {
            Some(b) => {
                put(list, "-b:v");
                put_owned(list, joined(b.as_str(), "k"));
            },
            None => {},
        }
    } else {
        match o.crf {
            Some(q) => {
                put(list, "-crf");
                put_owned(list, decimal_text(q as u64));
            },
            None => {},
        }
    }
    assert(texts(list@) =~= texts(old(list)@) + rate_part(*o));
}

fn put_fps(list: &mut Vec<String>, fps: &Option<String>)
    ensures
        texts(final(list)@) == texts(old(list)@) + fps_part(*fps),
{
    match fps {
        Some(f) => {
            if !same_text(f.as_str(), "source") {
                put_pair(list, "-r", f.as_str());
            }
        },
        None => {},
    }
    assert(texts(list@) =~= texts(old(list)@) + fps_part(*fps));
}

fn put_video(list: &mut Vec<String>, o: &EncodeOptions)
    ensures
        texts(final(list)@) == texts(old(list)@) + video_part(*o),
{
    match &o.codec {
        None => {},
        Some(c) => {
            if same_text(c.as_str(), "copy") {
                put_pair(list, "-c:v", "copy");
            } else {
                put(list, "-c:v");
                put_owned(list, video_encoder(c));
                put_scale(list, &o.resolution);
                put_optional(list, "-preset", &o.preset);
                put_rate(list, o);
                put_fps(list, &o.fps);
            }
        },
    }
    assert(texts(list@) =~= texts(old(list)@) + video_part(*o));
}

fn put_audio(list: &mut Vec<String>, o: &EncodeOptions)
    ensures
        texts(final(list)@) == texts(old(list)@) + audio_part(*o),
{
    match &o.audio_codec {
        None => {},
        Some(c) => {
            if same_text(c.as_str(), "none") {
            } else if same_text(c.as_str(), "copy") {
                put_pair(list, "-c:a", "copy");
            } else {
                put(list, "-c:a");
                put_owned(list, audio_encoder(c));
                put_optional(list, "-b:a", &o.audio_bitrate);
            }
        },
    }
    assert(texts(list@) =~= texts(old(list)@) + audio_part(*o));
}

fn put_tail(list: &mut Vec<String>, o: &EncodeOptions)
    ensures
        texts(final(list)@) == texts(old(list)@) + subtitle_part(*o) + threads_part(*o)
            + custom_part(*o),
{
    if same_text(o.format.as_str(), "mp4") || same_text(o.format.as_str(), "mov") {
        put_pair(list, "-c:s", "mov_text");
    } else {
        put_pair(list, "-c:s", "copy");
    }
    match o.threads {
        Some(t) => {
            if t > 0 {
                put(list, "-threads");
                put_owned(list, decimal_text(t as u64));
            }
        },
        None => {},
    }
    match &o.custom_args {
        Some(c) => put_words(list, c.as_str()),
        None => {},
    }
    assert(texts(list@) =~= texts(old(list)@) + subtitle_part(*o) + threads_part(*o)
        + custom_part(*o));
}

/// The argument list of an encode that writes to `output_path`.
pub fn encode_args(o: &EncodeOptions, output_path: &str) -> (list: Vec<String>)
    ensures
        texts(list@) == encode_arguments(*o, output_path@),
{
    let mut list: Vec<String> = Vec::new();
    assert(texts(list@) =~= Seq::<Seq<char>>::empty());
    put_inputs(&mut list, o);
    put_maps(&mut list, o);
    put_video(&mut list, o);
    put_audio(&mut list, o);
    put_tail(&mut list, o);
    put(&mut list, output_path);
    assert(texts(list@) =~= encode_arguments(*o, output_path@));
    list
}

/// The name of the file that an encode writes, given the stem of the
/// input's name.
pub fn encode_file_name(o: &EncodeOptions, stem: &str) -> (r: String)
    ensures
        r@ == encoded_file_name(*o, stem@),
{
    let mut r = stem.to_owned();
    match &o.output_suffix {
        Some(s) => r.append(s.as_str()),
        None => r.append("_encoded"),
    }
    r.append(".");
    r.append(o.format.as_str());
    r
}

} // verus!
