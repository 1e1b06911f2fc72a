//! The argument list of an audio extraction, from what the caller asked
//! for.

use vstd::prelude::*;
use vstd::string::*;
use crate::args::{put, put_pair, texts};
use crate::encode::{is_given_as, optional_pair, put_optional};
use crate::options::ExtractAudioOptions;
use crate::text::same_text;

verus! {

/// The extension of the file written for an audio format; an unknown
/// format is written as `mp3`.
pub open spec fn audio_extension_of(format: Seq<char>) -> Seq<char> {
    if format == "aac"@ {
        "m4a"@
    } else if format == "flac"@ || format == "wav"@ || format == "ogg"@ || format == "opus"@ {
        format
    } else {
        "mp3"@
    }
}

/// The transcoder's encoder for an audio format, where the format is a
/// known one.
pub open spec fn extraction_encoder_of(format: Seq<char>) -> Option<Seq<char>> {
    if format == "mp3"@ {
        Some("libmp3lame"@)
    } else if format == "aac"@ {
        Some("aac"@)
    } else if format == "flac"@ {
        Some("flac"@)
    } else if format == "wav"@ {
        Some("pcm_s16le"@)
    } else if format == "ogg"@ {
        Some("libvorbis"@)
    } else if format == "opus"@ {
        Some("libopus"@)
    } else {
        None
    }
}

/// Whether a sample rate is one of those offered.
pub open spec fn is_sample_rate(rate: Seq<char>) -> bool {
    rate == "44100"@ || rate == "48000"@ || rate == "96000"@
}

/// Whether a text is one of the compression levels `0` to `8`.
pub open spec fn is_flac_level(level: Seq<char>) -> bool {
    level == "0"@ || level == "1"@ || level == "2"@ || level == "3"@ || level == "4"@ || level
        == "5"@ || level == "6"@ || level == "7"@ || level == "8"@
}

/// The encoder, where the format is a known one.
pub open spec fn encoder_part(o: ExtractAudioOptions) -> Seq<Seq<char>> {
    match extraction_encoder_of(o.format@) {
        Some(e) => seq!["-c:a"@, e],
        None => Seq::empty(),
    }
}

/// The sample rate, where one of those offered is asked for.
pub open spec fn sample_rate_part(o: ExtractAudioOptions) -> Seq<Seq<char>> {
    match o.sample_rate {
        Some(r) => if is_sample_rate(r@) {
            seq!["-ar"@, r@]
        } else {
            Seq::empty()
        },
        None => Seq::empty(),
    }
}

/// The compression level, for the one format that has one.
pub open spec fn level_part(o: ExtractAudioOptions) -> Seq<Seq<char>> {
    if o.format@ == "flac"@ {
        match o.flac_level {
            Some(l) => if is_flac_level(l@) {
                seq!["-compression_level"@, l@]
            } else {
                Seq::empty()
            },
            None => Seq::empty(),
        }
    } else {
        Seq::empty()
    }
}

/// Whether the quality of the result varies with its content.
pub open spec fn is_variable_mp3(o: ExtractAudioOptions) -> bool {
    o.format@ == "mp3"@ && o.mp3_mode is Some && o.mp3_mode->0@ == "vbr"@
}

/// The quality: a grade for a variable rate, a bit rate otherwise.
pub open spec fn quality_part(o: ExtractAudioOptions) -> Seq<Seq<char>> {
    if is_variable_mp3(o) {
        optional_pair("-q:a"@, o.mp3_quality)
    } else {
        optional_pair("-b:a"@, o.bitrate)
    }
}

/// The whole argument list of an extraction that writes to `output`.
pub open spec fn extract_arguments(o: ExtractAudioOptions, output: Seq<char>) -> Seq<Seq<char>> {
    seq!["-y"@, "-i"@, o.input@, "-vn"@] + encoder_part(o) + sample_rate_part(o) + level_part(o)
        + quality_part(o) + seq![output]
}

/// The name of the file that an extraction writes.
pub open spec fn extracted_file_name(o: ExtractAudioOptions, stem: Seq<char>) -> Seq<char> {
    stem + "_audio."@ + audio_extension_of(o.format@)
}

/// The extension of the file written for an audio format.
pub fn audio_extension(format: &String) -> (r: String)
    ensures
        r@ == audio_extension_of(format@),
{
    let f = format.as_str();
    if same_text(f, "aac") {
        "m4a".to_owned()
    } else if same_text(f, "flac") || same_text(f, "wav") || same_text(f, "ogg") || same_text(
        f,
        "opus",
    ) {
        format.clone()
    } else {
        "mp3".to_owned()
    }
}

/// The transcoder's encoder for an audio format.
pub fn extraction_encoder(format: &str) -> (r: Option<&'static str>)
    ensures
        match r {
            Some(e) => extraction_encoder_of(format@) == Some(e@),
            None => extraction_encoder_of(format@) is None,
        },
{
    if same_text(format, "mp3") {
        Some("libmp3lame")
    } else if same_text(format, "aac") {
        Some("aac")
    } else if same_text(format, "flac") {
        Some("flac")
    } else if same_text(format, "wav") {
        Some("pcm_s16le")
    } else if same_text(format, "ogg") {
        Some("libvorbis")
    } else if same_text(format, "opus") {
        Some("libopus")
    } else {
        None
    }
}

fn sample_rate_offered(rate: &str) -> (r: bool)
    ensures
        r == is_sample_rate(rate@),
{
    same_text(rate, "44100") || same_text(rate, "48000") || same_text(rate, "96000")
}

fn flac_level_offered(level: &str) -> (r: bool)
    ensures
        r == is_flac_level(level@),
{
    same_text(level, "0") || same_text(level, "1") || same_text(level, "2") || same_text(
        level,
        "3",
    ) || same_text(level, "4") || same_text(level, "5") || same_text(level, "6") || same_text(
        level,
        "7",
    ) || same_text(level, "8")
}

/// The argument list of an extraction that writes to `output_path`.
pub fn extract_args(o: &ExtractAudioOptions, output_path: &str) -> (list: Vec<String>)
    ensures
        texts(list@) == extract_arguments(*o, output_path@),
{
    let mut list: Vec<String> = Vec::new();
    assert(texts(list@) =~= Seq::<Seq<char>>::empty());
    put(&mut list, "-y");
    put(&mut list, "-i");
    put(&mut list, o.input.as_str());
    put(&mut list, "-vn");
    match extraction_encoder(o.format.as_str()) {
        Some(e) => put_pair(&mut list, "-c:a", e),
        None => {},
    }
    assert(texts(list@) =~= seq!["-y"@, "-i"@, o.input@, "-vn"@] + encoder_part(*o));
    match &o.sample_rate {
        Some(r) => {
            if sample_rate_offered(r.as_str()) {
                put_pair(&mut list, "-ar", r.as_str());
            }
        },
        None => {},
    }
    assert(texts(list@) =~= seq!["-y"@, "-i"@, o.input@, "-vn"@] + encoder_part(*o)
        + sample_rate_part(*o));
    if same_text(o.format.as_str(), "flac") {
        match &o.flac_level {
            Some(l) => {
                if flac_level_offered(l.as_str()) {
                    put_pair(&mut list, "-compression_level", l.as_str());
                }
            },
            None => {},
        }
    }
    assert(texts(list@) =~= seq!["-y"@, "-i"@, o.input@, "-vn"@] + encoder_part(*o)
        + sample_rate_part(*o) + level_part(*o));
    if same_text(o.format.as_str(), "mp3") && is_given_as(&o.mp3_mode, "vbr") {
        put_optional(&mut list, "-q:a", &o.mp3_quality);
    } else {
        put_optional(&mut list, "-b:a", &o.bitrate);
    }
    put(&mut list, output_path);
    assert(texts(list@) =~= extract_arguments(*o, output_path@));
    list
}

/// The name of the file that an extraction writes, given the stem of the
/// input's name.
pub fn extract_file_name(o: &ExtractAudioOptions, stem: &str) -> (r: String)
    ensures
        r@ == extracted_file_name(*o, stem@),
{
    let mut r = stem.to_owned();
    r.append("_audio.");
    let ext = audio_extension(&o.format);
    r.append(ext.as_str());
    r
}

} // verus!
