//! The argument list of a download, the name of the file it is expected
//! to write, and where its result is looked for once it has ended.

use vstd::prelude::*;
use vstd::string::*;
use crate::args::{joined, put, put_owned, put_pair, texts};
use crate::encode::{is_given_as, optional_pair, put_optional};
use crate::options::DownloadOptions;
use crate::pattern::{captures, regex_captures};
use crate::text::{chars_of, contains, holds, same_text};

verus! {

/// A bit rate: digits and a unit of a thousand or a million.
pub const BITRATE_PATTERN: &'static str = "^\\d+[kKmM]$";

/// How the downloader presents itself to a server.
pub const USER_AGENT: &'static str =
    "Mozilla/5.0 (Windows NT 10.0; Win64; x64) AppleWebKit/537.36";

/// The base of a file name for a download whose name was not asked for.
pub const DEFAULT_BASE: &'static str = "downloaded_file";

/// A text with every point replaced by an underscore.
pub open spec fn without_points(s: Seq<char>) -> Seq<char> {
    Seq::new(
        s.len(),
        |i: int|
            if s[i] == '.' {
                '_'
            } else {
                s[i]
            },
    )
}

/// A text, or a default where none is given.
pub open spec fn text_or(value: Option<String>, default: Seq<char>) -> Seq<char> {
    match value {
        Some(v) => v@,
        None => default,
    }
}

/// Whether the caller asked for the audio alone.
pub open spec fn wants_audio(o: DownloadOptions) -> bool {
    o.mode is Some && o.mode->0@ == "audio"@
}

/// The template by which the downloader names its result in `folder`.
pub open spec fn output_template_of(o: DownloadOptions, folder: Seq<char>) -> Seq<char> {
    match o.file_name {
        Some(n) => folder + "/"@ + without_points(n@) + ".%(ext)s"@,
        None => folder + "/%(title)s.%(ext)s"@,
    }
}

/// The extension that the result is expected to have.
pub open spec fn expected_extension_of(o: DownloadOptions) -> Seq<char> {
    if wants_audio(o) {
        text_or(o.audio_format, "mp3"@)
    } else {
        text_or(o.format, "mp4"@)
    }
}

/// The base of the name that the result is expected to have.
pub open spec fn expected_base_of(o: DownloadOptions) -> Seq<char> {
    match o.file_name {
        Some(n) => without_points(n@),
        None => DEFAULT_BASE@,
    }
}

/// The path at which the result is expected in `folder`.
pub open spec fn expected_path_of(o: DownloadOptions, folder: Seq<char>) -> Seq<char> {
    folder + "/"@ + expected_base_of(o) + "."@ + expected_extension_of(o)
}

/// The selection of streams of at most a given height, preferring a
/// container.
pub open spec fn height_selector(height: Seq<char>, container: Seq<char>) -> Seq<char> {
    "bv*[height<="@ + height + "][ext="@ + container + "]+ba/b[height<="@ + height + "][ext="@
        + container + "]/bv*[height<="@ + height + "]+ba/b[height<="@ + height + "]/best"@
}

/// The options for what is downloaded when the audio alone is wanted.
pub open spec fn audio_mode_part(o: DownloadOptions) -> Seq<Seq<char>> {
    seq!["-x"@, "--audio-format"@, text_or(o.audio_format, "mp3"@)] + optional_pair(
        "--audio-quality"@,
        o.audio_bitrate,
    )
}

/// Whether a container is one that streams can be merged into.
pub open spec fn is_merge_container(format: Seq<char>) -> bool {
    format == "mp4"@ || format == "mkv"@ || format == "mov"@ || format == "webm"@
}

/// The container to merge into, where a known one is asked for.
pub open spec fn merge_part(o: DownloadOptions) -> Seq<Seq<char>> {
    match o.format {
        Some(f) => if is_merge_container(f@) {
            seq!["--merge-output-format"@, f@]
        } else {
            Seq::empty()
        },
        None => Seq::empty(),
    }
}

/// Which streams are downloaded: the one named, with the best audio beside
/// a video stream that has none named; or the best; or the best of at most
/// the height asked for.
pub open spec fn selection_part(o: DownloadOptions) -> Seq<Seq<char>> {
    match o.format_id {
        Some(id) => if o.mode is Some && o.mode->0@ == "video"@ && !contains(id@, "+"@) {
            seq!["-f"@, id@ + "+bestaudio/best"@]
        } else {
            seq!["-f"@, id@]
        },
        None => match o.quality {
            Some(q) => if q@ == "best"@ {
                seq!["-f"@, "bestvideo+bestaudio/best"@]
            } else {
                seq!["-f"@, height_selector(q@, text_or(o.format, "mp4"@))]
            },
            None => Seq::empty(),
        },
    }
}

/// Whether an option is given and is not `word`.
pub open spec fn differs_from(value: Option<String>, word: Seq<char>) -> bool {
    value is Some && value->0@ != word
}

/// Whether the result has to be encoded again after the download.
pub open spec fn needs_reencode(o: DownloadOptions) -> bool {
    differs_from(o.fps, "none"@) || differs_from(o.video_bitrate, "none"@) || differs_from(
        o.video_codec,
        "copy"@,
    )
}

/// The encoder for the codec asked for, where it is a known one.
pub open spec fn reencode_codec_part(o: DownloadOptions) -> Seq<Seq<char>> {
    match o.video_codec {
        Some(c) => if c@ == "h264"@ {
            seq!["-c:v"@, "libx264"@]
        } else if c@ == "h265"@ {
            seq!["-c:v"@, "libx265"@]
        } else if c@ == "vp9"@ {
            seq!["-c:v"@, "libvpx-vp9"@]
        } else if c@ == "av1"@ {
            seq!["-c:v"@, "libaom-av1"@]
        } else if c@ == "copy"@ {
            seq!["-c:v"@, "copy"@]
        } else {
            Seq::empty()
        },
        None => Seq::empty(),
    }
}

/// The bit rate asked for, where it is well formed.
pub open spec fn reencode_bitrate_part(o: DownloadOptions, well_formed: bool) -> Seq<Seq<char>> {
    if differs_from(o.video_bitrate, "none"@) && well_formed {
        seq!["-b:v"@, o.video_bitrate->0@]
    } else {
        Seq::empty()
    }
}

/// The frame rate asked for.
pub open spec fn reencode_fps_part(o: DownloadOptions) -> Seq<Seq<char>> {
    if differs_from(o.fps, "none"@) {
        seq!["-r"@, o.fps->0@]
    } else {
        Seq::empty()
    }
}

/// The arguments for the transcoder that encodes the result again.
pub open spec fn reencode_arguments(o: DownloadOptions, well_formed: bool) -> Seq<Seq<char>> {
    reencode_codec_part(o) + reencode_bitrate_part(o, well_formed) + reencode_fps_part(o) + seq![
        "-c:a"@,
        "copy"@,
    ]
}

/// Texts joined by single spaces.
pub open spec fn spaced(parts: Seq<Seq<char>>) -> Seq<char>
    decreases parts.len(),
{
    if parts.len() == 0 {
        Seq::empty()
    } else if parts.len() == 1 {
        parts[0]
    } else {
        spaced(parts.drop_last()) + " "@ + parts.last()
    }
}

/// The option that hands the transcoder its arguments, where the result
/// has to be encoded again.
pub open spec fn postprocess_part(o: DownloadOptions, well_formed: bool) -> Seq<Seq<char>> {
    if needs_reencode(o) {
        seq!["--postprocessor-args"@, "ffmpeg:"@ + spaced(reencode_arguments(o, well_formed))]
    } else {
        Seq::empty()
    }
}

/// The options for what is downloaded.
pub open spec fn mode_part(o: DownloadOptions, well_formed: bool) -> Seq<Seq<char>> {
    if wants_audio(o) {
        audio_mode_part(o)
    } else {
        merge_part(o) + selection_part(o) + postprocess_part(o, well_formed)
    }
}

/// The options that every download gets.
pub open spec fn fixed_part() -> Seq<Seq<char>> {
    seq![
        "--progress"@,
        "--no-cache-dir"@,
        "--no-check-certificates"@,
        "--force-ipv4"@,
        "--force-overwrites"@,
        "--user-agent"@,
        USER_AGENT@,
    ]
}

/// The whole argument list of a download of `url` into `folder`, with the
/// transcoder at `transcoder` if one is known to be there, given whether
/// the bit rate asked for is well formed.
pub open spec fn download_arguments(
    o: DownloadOptions,
    url: Seq<char>,
    folder: Seq<char>,
    transcoder: Option<String>,
    well_formed: bool,
) -> Seq<Seq<char>> {
    seq!["-o"@, output_template_of(o, folder)] + optional_pair("--ffmpeg-location"@, transcoder)
        + mode_part(o, well_formed) + fixed_part() + seq![url]
}

/// Whether a text is a well-formed bit rate.
pub open spec fn is_bitrate(t: Seq<char>) -> bool {
    regex_captures(BITRATE_PATTERN@, t) is Some
}

/// Whether the bit rate asked for is well formed; false where none is
/// asked for.
pub open spec fn bitrate_well_formed(o: DownloadOptions) -> bool {
    match o.video_bitrate {
        Some(b) => is_bitrate(b@),
        None => false,
    }
}

/// A copy of a text with every point replaced by an underscore.
pub fn replace_points(s: &str) -> (r: String)
    ensures
        r@ == without_points(s@),
{
    let chars = chars_of(s);
    let n = chars.len();
    let mut r = String::new();
    let mut i: usize = 0;
    while i < n
        invariant
            i <= n,
            n == chars.len(),
            chars@ == s@,
            r@ == without_points(s@).take(i as int),
        decreases n - i,
    {
        if chars[i] == '.' {
            r.append("_");
            proof {
                reveal_strlit("_");
                assert("_"@ =~= seq!['_']);
            }
        } else {
            r.append(s.substring_char(i, i + 1));
            assert(s@.subrange(i as int, i + 1) =~= seq![chars@[i as int]]);
        }
        assert(r@ =~= without_points(s@).take(i as int + 1));
        i = i + 1;
    }
    assert(without_points(s@).take(n as int) =~= without_points(s@));
    r
}

/// A copy of a text, or of a default where none is given.
pub fn or_default(value: &Option<String>, default: &str) -> (r: String)
    ensures
        r@ == text_or(*value, default@),
{
    match value {
        Some(v) => v.clone(),
        None => default.to_owned(),
    }
}

/// The template by which the downloader names its result in `folder`.
pub fn output_template(o: &DownloadOptions, folder: &str) -> (r: String)
    ensures
        r@ == output_template_of(*o, folder@),
{
    let mut r = folder.to_owned();
    match &o.file_name {
        Some(n) => {
            r.append("/");
            let base = replace_points(n.as_str());
            r.append(base.as_str());
            r.append(".%(ext)s");
        },
        None => {
            r.append("/%(title)s.%(ext)s");
        },
    }
    r
}

/// The extension that the result is expected to have.
pub fn expected_extension(o: &DownloadOptions) -> (r: String)
    ensures
        r@ == expected_extension_of(*o),
{
    if is_given_as(&o.mode, "audio") {
        or_default(&o.audio_format, "mp3")
    } else {
        or_default(&o.format, "mp4")
    }
}

/// The base of the name that the result is expected to have.
pub fn expected_base(o: &DownloadOptions) -> (r: String)
    ensures
        r@ == expected_base_of(*o),
{
    match &o.file_name {
        Some(n) => replace_points(n.as_str()),
        None => DEFAULT_BASE.to_owned(),
    }
}

/// The path at which the result is expected in `folder`.
pub fn expected_path(o: &DownloadOptions, folder: &str) -> (r: String)
    ensures
        r@ == expected_path_of(*o, folder@),
{
    let mut r = folder.to_owned();
    r.append("/");
    let base = expected_base(o);
    r.append(base.as_str());
    r.append(".");
    let ext = expected_extension(o);
    r.append(ext.as_str());
    r
}

/// The selection of streams of at most a given height, preferring a
/// container.
pub fn selector(height: &str, container: &str) -> (r: String)
    ensures
        r@ == height_selector(height@, container@),
{
    let mut r = "bv*[height<=".to_owned();
    r.append(height);
    r.append("][ext=");
    r.append(container);
    r.append("]+ba/b[height<=");
    r.append(height);
    r.append("][ext=");
    r.append(container);
    r.append("]/bv*[height<=");
    r.append(height);
    r.append("]+ba/b[height<=");
    r.append(height);
    r.append("]/best");
    r
}

/// Whether an option is given and is not `word`.
pub fn is_other_than(value: &Option<String>, word: &str) -> (r: bool)
    ensures
        r == differs_from(*value, word@),
{
    match value {
        Some(v) => !same_text(v.as_str(), word),
        None => false,
    }
}

fn put_selection(list: &mut Vec<String>, o: &DownloadOptions)
    ensures
        texts(final(list)@) == texts(old(list)@) + selection_part(*o),
{
    match &o.format_id {
        Some(id) => {
            put(list, "-f");
            let plus = chars_of("+");
            let id_chars = chars_of(id.as_str());
            if is_given_as(&o.mode, "video") && !holds(&id_chars, &plus) {
                put_owned(list, joined(id.as_str(), "+bestaudio/best"));
            } else {
                put(list, id.as_str());
            }
        },
        None => match &o.quality {
            Some(q) => {
                put(list, "-f");
                if same_text(q.as_str(), "best") {
                    put(list, "bestvideo+bestaudio/best");
                } else {
                    let container = or_default(&o.format, "mp4");
                    put_owned(list, selector(q.as_str(), container.as_str()));
                }
            },
            None => {},
        },
    }
    assert(texts(list@) =~= texts(old(list)@) + selection_part(*o));
}

fn put_merge(list: &mut Vec<String>, o: &DownloadOptions)
    ensures
        texts(final(list)@) == texts(old(list)@) + merge_part(*o),
{
    match &o.format {
        Some(f) => {
            let t = f.as_str();
            if same_text(t, "mp4") || same_text(t, "mkv") || same_text(t, "mov") || same_text(
                t,
                "webm",
            ) {
                put_pair(list, "--merge-output-format", t);
            }
        },
        None => {},
    }
    assert(texts(list@) =~= texts(old(list)@) + merge_part(*o));
}

/// The arguments for the transcoder that encodes the result again.
pub fn reencode_args(o: &DownloadOptions, well_formed: bool) -> (list: Vec<String>)
    ensures
        texts(list@) == reencode_arguments(*o, well_formed),
{
    let mut list: Vec<String> = Vec::new();
    assert(texts(list@) =~= Seq::<Seq<char>>::empty());
    match &o.video_codec {
        Some(c) => {
            let t = c.as_str();
            if same_text(t, "h264") {
                put_pair(&mut list, "-c:v", "libx264");
            } else if same_text(t, "h265") {
                put_pair(&mut list, "-c:v", "libx265");
            } else if same_text(t, "vp9") {
                put_pair(&mut list, "-c:v", "libvpx-vp9");
            } else if same_text(t, "av1") {
                put_pair(&mut list, "-c:v", "libaom-av1");
            } else if same_text(t, "copy") {
                put_pair(&mut list, "-c:v", "copy");
            }
        },
        None => {},
    }
    assert(texts(list@) =~= reencode_codec_part(*o));
    if is_other_than(&o.video_bitrate, "none") && well_formed {
        match &o.video_bitrate {
            Some(b) => put_pair(&mut list, "-b:v", b.as_str()),
            None => {},
        }
    }
    assert(texts(list@) =~= reencode_codec_part(*o) + reencode_bitrate_part(*o, well_formed));
    if is_other_than(&o.fps, "none") {
        match &o.fps {
            Some(f) => put_pair(&mut list, "-r", f.as_str()),
            None => {},
        }
    }
    put_pair(&mut list, "-c:a", "copy");
    assert(texts(list@) =~= reencode_arguments(*o, well_formed));
    list
}

/// Texts joined by single spaces.
pub fn join_spaced(parts: &Vec<String>) -> (r: String)
    ensures
        r@ == spaced(texts(parts@)),
{
    let mut r = String::new();
    let mut i: usize = 0;
    assert(texts(parts@).take(0) =~= Seq::<Seq<char>>::empty());
    while i < parts.len()
        invariant
            i <= parts.len(),
            r@ == spaced(texts(parts@).take(i as int)),
        decreases parts.len() - i,
    {
        let ghost next = texts(parts@).take(i as int + 1);
        proof {
            assert(next.drop_last() =~= texts(parts@).take(i as int));
            assert(next.last() == parts@[i as int]@);
        }
        if i > 0 {
            r.append(" ");
            r.append(parts[i].as_str());
        } else {
            r.append(parts[i].as_str());
            assert(r@ =~= next[0]);
        }
        i = i + 1;
    }
    assert(texts(parts@).take(i as int) =~= texts(parts@));
    r
}

fn put_postprocess(list: &mut Vec<String>, o: &DownloadOptions, well_formed: bool)
    ensures
        texts(final(list)@) == texts(old(list)@) + postprocess_part(*o, well_formed),
{
    if is_other_than(&o.fps, "none") || is_other_than(&o.video_bitrate, "none") || is_other_than(
        &o.video_codec,
        "copy",
    ) {
        let inner = reencode_args(o, well_formed);
        let line = join_spaced(&inner);
        put(list, "--postprocessor-args");
        put_owned(list, joined("ffmpeg:", line.as_str()));
    }
    assert(texts(list@) =~= texts(old(list)@) + postprocess_part(*o, well_formed));
}

fn put_mode(list: &mut Vec<String>, o: &DownloadOptions, well_formed: bool)
    ensures
        texts(final(list)@) == texts(old(list)@) + mode_part(*o, well_formed),
{
    if is_given_as(&o.mode, "audio") {
        put(list, "-x");
        put(list, "--audio-format");
        put_owned(list, or_default(&o.audio_format, "mp3"));
        put_optional(list, "--audio-quality", &o.audio_bitrate);
        assert(texts(list@) =~= texts(old(list)@) + audio_mode_part(*o));
    } else {
        put_merge(list, o);
        put_selection(list, o);
        put_postprocess(list, o, well_formed);
        assert(texts(list@) =~= texts(old(list)@) + (merge_part(*o) + selection_part(*o)
            + postprocess_part(*o, well_formed)));
    }
}

/// The argument list of a download, given whether the bit rate asked for
/// is well formed.
pub fn download_args_given(
    o: &DownloadOptions,
    url: &str,
    folder: &str,
    transcoder: &Option<String>,
    well_formed: bool,
) -> (list: Vec<String>)
    ensures
        texts(list@) == download_arguments(*o, url@, folder@, *transcoder, well_formed),
{
    let mut list: Vec<String> = Vec::new();
    assert(texts(list@) =~= Seq::<Seq<char>>::empty());
    put(&mut list, "-o");
    put_owned(&mut list, output_template(o, folder));
    put_optional(&mut list, "--ffmpeg-location", transcoder);
    put_mode(&mut list, o, well_formed);
    put(&mut list, "--progress");
    put(&mut list, "--no-cache-dir");
    put(&mut list, "--no-check-certificates");
    put(&mut list, "--force-ipv4");
    put(&mut list, "--force-overwrites");
    put(&mut list, "--user-agent");
    put(&mut list, USER_AGENT);
    put(&mut list, url);
    assert(texts(list@) =~= download_arguments(*o, url@, folder@, *transcoder, well_formed));
    list
}

/// The argument list of a download of `url` into `folder`, with the
/// transcoder at `transcoder` if one is known to be there.
pub fn download_args(
    o: &DownloadOptions,
    url: &str,
    folder: &str,
    transcoder: &Option<String>,
) -> (list: Vec<String>)
    ensures
        texts(list@) == download_arguments(
            *o,
            url@,
            folder@,
            *transcoder,
            bitrate_well_formed(*o),
        ),
{
    let well_formed = match &o.video_bitrate {
        Some(b) => captures(BITRATE_PATTERN, b.as_str()).is_some(),
        None => false,
    };
    download_args_given(o, url, folder, transcoder, well_formed)
}

/// What is known of one entry of a folder.
#[derive(Clone, Debug)]
pub struct FolderEntry {
    /// The path of the entry.
    pub path: String,
    /// Whether the entry is a regular file.
    pub is_file: bool,
    /// The name of the entry without its extension, where it has a name.
    pub stem: Option<String>,
}

/// Whether an entry is a file named `base`, whatever its extension.
pub open spec fn is_result(e: FolderEntry, base: Seq<char>) -> bool {
    e.is_file && e.stem is Some && e.stem->0@ == base
}

/// The index of the first entry, at or after `from`, that is a file named
/// `base`.
pub open spec fn first_result(entries: Seq<FolderEntry>, base: Seq<char>, from: int) -> Option<int>
    decreases entries.len() - from,
{
    if from < 0 || from >= entries.len() {
        None
    } else if is_result(entries[from], base) {
        Some(from)
    } else {
        first_result(entries, base, from + 1)
    }
}

/// Where the result of a download that succeeded is: at the path last
/// recorded, if a regular file is there; else at the expected path, if
/// something is there; else at the first entry of the folder that is a file
/// with the expected base; else, for want of anything better, at the path
/// last recorded.
pub open spec fn resolved_output_of(
    recorded: Seq<char>,
    recorded_is_file: bool,
    expected: Seq<char>,
    expected_exists: bool,
    entries: Seq<FolderEntry>,
    base: Seq<char>,
) -> Seq<char> {
    if recorded_is_file {
        recorded
    } else if expected_exists {
        expected
    } else {
        match first_result(entries, base, 0) {
            Some(i) => entries[i].path@,
            None => recorded,
        }
    }
}

/// Where the result of a download that succeeded is.
pub fn resolve_output(
    recorded: &str,
    recorded_is_file: bool,
    expected: &str,
    expected_exists: bool,
    entries: &Vec<FolderEntry>,
    base: &str,
) -> (r: String)
    ensures
        r@ == resolved_output_of(
            recorded@,
            recorded_is_file,
            expected@,
            expected_exists,
            entries@,
            base@,
        ),
{
    if recorded_is_file {
        return recorded.to_owned();
    }
    if expected_exists {
        return expected.to_owned();
    }
    let mut i: usize = 0;
    while i < entries.len()
        invariant
            i <= entries.len(),
            !recorded_is_file,
            !expected_exists,
            first_result(entries@, base@, 0) == first_result(entries@, base@, i as int),
        decreases entries.len() - i,
    {
        let e = &entries[i];
        let named = match &e.stem {
            Some(s) => same_text(s.as_str(), base),
            None => false,
        };
        if e.is_file && named {
            return e.path.clone();
        }
        i = i + 1;
    }
    recorded.to_owned()
}

} // verus!
