//! What is asked of the tools besides encoding: which encoders there are,
//! pictures of a sound track, a sheet of thumbnails, tags, and what a web
//! address holds.

use vstd::prelude::*;
use vstd::string::*;
use crate::args::{joined, put, put_owned, texts};
use crate::digits::{decimal_digits, push_decimal};
use crate::fetch::USER_AGENT;
use crate::options::EncoderInfo;
use crate::text::{chars_of, contains, holds, same_text, strip_bounds, stripped, Strip};

verus! {

/// Which hardware encoders a listing of encoders names.
pub open spec fn encoders_named(listing: Seq<char>) -> EncoderInfo {
    EncoderInfo {
        nvenc: contains(listing, "h264_nvenc"@) || contains(listing, "hevc_nvenc"@),
        amf: contains(listing, "h264_amf"@) || contains(listing, "hevc_amf"@),
        qsv: contains(listing, "h264_qsv"@) || contains(listing, "hevc_qsv"@),
    }
}

/// Which hardware encoders a listing of encoders names.
pub fn encoders_in(listing: &str) -> (r: EncoderInfo)
    ensures
        r == encoders_named(listing@),
{
    let chars = chars_of(listing);
    let nvenc = holds(&chars, &chars_of("h264_nvenc")) || holds(&chars, &chars_of("hevc_nvenc"));
    let amf = holds(&chars, &chars_of("h264_amf")) || holds(&chars, &chars_of("hevc_amf"));
    let qsv = holds(&chars, &chars_of("h264_qsv")) || holds(&chars, &chars_of("hevc_qsv"));
    EncoderInfo { nvenc, amf, qsv }
}

/// Whether the answer to a query for the first audio stream names one: it
/// holds more than white space.
pub fn names_audio_stream(answer: &str) -> (r: bool)
    ensures
        r == (stripped(answer@, Strip::WhiteSpace).len() > 0),
{
    let chars = chars_of(answer);
    let (lo, hi) = strip_bounds(&chars, 0, chars.len(), Strip::WhiteSpace);
    assert(chars@.subrange(0, chars.len() as int) =~= chars@);
    lo < hi
}

/// How a sheet of thumbnails is laid out.
#[derive(Clone, Copy, Debug, PartialEq, Eq, Structural)]
pub struct ThumbnailPlan {
    /// The height of each thumbnail in pixels.
    pub target_height: u32,
    /// The quality grade handed to the transcoder; lower is better.
    pub quality: u32,
    /// The number of thumbnails asked of the caller's count.
    pub count: u32,
    /// The number of thumbnails in a row.
    pub cols: u32,
    /// The number of rows.
    pub rows: u32,
}

/// One mebibyte.
pub const MIB: u64 = 1048576;

/// The number of thumbnails in a row.
pub const THUMBNAIL_COLS: u32 = 10;

/// The height, the quality grade and the largest count for a file of a
/// size: the larger the file, the smaller and fewer the thumbnails.
pub open spec fn thumbnail_limits(size_bytes: u64) -> (u32, u32, u32) {
    if size_bytes > 600 * MIB {
        (160, 6, 80)
    } else if size_bytes > 300 * MIB {
        (180, 5, 100)
    } else if size_bytes > 120 * MIB {
        (200, 4, 140)
    } else if size_bytes > 40 * MIB {
        (220, 3, 180)
    } else {
        (240, 2, 300)
    }
}

/// The layout of the sheet for a file of a size and a count asked for:
/// fifty where none is, at most what the size allows, in rows of ten, the
/// last of which may be partly empty.
pub open spec fn thumbnail_plan_of(size_bytes: u64, asked: Option<u32>) -> ThumbnailPlan {
    let limits = thumbnail_limits(size_bytes);
    let wanted = match asked {
        Some(c) => c,
        None => 50,
    };
    let count = if wanted > limits.2 {
        limits.2
    } else {
        wanted
    };
    ThumbnailPlan {
        target_height: limits.0,
        quality: limits.1,
        count,
        cols: THUMBNAIL_COLS,
        rows: ((count + 9) / 10) as u32,
    }
}

/// The layout of the sheet for a file of a size and a count asked for.
pub fn thumbnail_plan(size_bytes: u64, asked: Option<u32>) -> (r: ThumbnailPlan)
    ensures
        r == thumbnail_plan_of(size_bytes, asked),
        r.count <= 300,
        r.rows * r.cols >= r.count,
        r.rows * r.cols < r.count + r.cols,
{
    let (target_height, quality, most): (u32, u32, u32) = if size_bytes > 600 * MIB {
        (160, 6, 80)
    } else if size_bytes > 300 * MIB {
        (180, 5, 100)
    } else if size_bytes > 120 * MIB {
        (200, 4, 140)
    } else if size_bytes > 40 * MIB {
        (220, 3, 180)
    } else {
        (240, 2, 300)
    };
    let wanted: u32 = match asked {
        Some(c) => c,
        None => 50,
    };
    let count: u32 = if wanted > most {
        most
    } else {
        wanted
    };
    ThumbnailPlan { target_height, quality, count, cols: THUMBNAIL_COLS, rows: (count + 9) / 10 }
}

/// The tags that can be written into a file.
#[derive(Clone, Debug)]
pub struct Tags {
    pub title: Option<String>,
    pub artist: Option<String>,
    pub album: Option<String>,
    pub year: Option<String>,
    pub genre: Option<String>,
    pub track: Option<String>,
    pub comment: Option<String>,
}

/// The option that sets one tag, where a value is given.
pub open spec fn tag_part(key: Seq<char>, value: Option<String>) -> Seq<Seq<char>> {
    match value {
        Some(v) => seq!["-metadata"@, key + v@],
        None => Seq::empty(),
    }
}

/// The argument list that copies `input` to `scratch` with the tags set.
pub open spec fn tag_arguments(input: Seq<char>, tags: Tags, scratch: Seq<char>) -> Seq<
    Seq<char>,
> {
    seq!["-y"@, "-i"@, input, "-c"@, "copy"@] + tag_part("title="@, tags.title) + tag_part(
        "artist="@,
        tags.artist,
    ) + tag_part("album="@, tags.album) + tag_part("date="@, tags.year) + tag_part(
        "genre="@,
        tags.genre,
    ) + tag_part("track="@, tags.track) + tag_part("comment="@, tags.comment) + seq![scratch]
}

fn put_tag(list: &mut Vec<String>, key: &str, value: &Option<String>)
    ensures
        texts(final(list)@) == texts(old(list)@) + tag_part(key@, *value),
{
    match value {
        Some(v) => {
            put(list, "-metadata");
            put_owned(list, joined(key, v.as_str()));
        },
        None => {},
    }
    assert(texts(list@) =~= texts(old(list)@) + tag_part(key@, *value));
}

/// The argument list that copies `input` to `scratch` with the tags set.
pub fn tag_args(input: &str, tags: &Tags, scratch: &str) -> (list: Vec<String>)
    ensures
        texts(list@) == tag_arguments(input@, *tags, scratch@),
{
    let mut list: Vec<String> = Vec::new();
    assert(texts(list@) =~= Seq::<Seq<char>>::empty());
    put(&mut list, "-y");
    put(&mut list, "-i");
    put(&mut list, input);
    put(&mut list, "-c");
    put(&mut list, "copy");
    put_tag(&mut list, "title=", &tags.title);
    put_tag(&mut list, "artist=", &tags.artist);
    put_tag(&mut list, "album=", &tags.album);
    put_tag(&mut list, "date=", &tags.year);
    put_tag(&mut list, "genre=", &tags.genre);
    put_tag(&mut list, "track=", &tags.track);
    put_tag(&mut list, "comment=", &tags.comment);
    put(&mut list, scratch);
    assert(texts(list@) =~= tag_arguments(input@, *tags, scratch@));
    list
}

/// The name of the scratch file beside a file with a stem and an
/// extension.
pub fn scratch_name(stem: &str, extension: &str) -> (r: String)
    ensures
        r@ == stem@ + "_temp."@ + extension@,
{
    let mut r = stem.to_owned();
    r.append("_temp.");
    r.append(extension);
    r
}

/// The argument list that asks the downloader what an address holds.
pub open spec fn inquiry_arguments(url: Seq<char>, single: bool, flat: bool) -> Seq<Seq<char>> {
    seq![
        "--dump-single-json"@,
        "--no-download"@,
        "--no-warnings"@,
        "--user-agent"@,
        USER_AGENT@,
        url,
    ] + (if single {
        seq!["--no-playlist"@]
    } else {
        Seq::empty()
    }) + (if flat {
        seq!["--flat-playlist"@]
    } else {
        Seq::empty()
    })
}

/// The argument list that asks the downloader what an address holds:
/// `single` to read the address as one video, `flat` to leave the entries
/// of a list unresolved.
pub fn inquiry_args(url: &str, single: bool, flat: bool) -> (list: Vec<String>)
    ensures
        texts(list@) == inquiry_arguments(url@, single, flat),
{
    let mut list: Vec<String> = Vec::new();
    assert(texts(list@) =~= Seq::<Seq<char>>::empty());
    put(&mut list, "--dump-single-json");
    put(&mut list, "--no-download");
    put(&mut list, "--no-warnings");
    put(&mut list, "--user-agent");
    put(&mut list, USER_AGENT);
    put(&mut list, url);
    if single {
        put(&mut list, "--no-playlist");
    }
    if flat {
        put(&mut list, "--flat-playlist");
    }
    assert(texts(list@) =~= inquiry_arguments(url@, single, flat));
    list
}

/// The size of a picture as the transcoder's filters take it.
pub open spec fn size_text(width: u32, height: u32) -> Seq<char> {
    decimal_digits(width as nat) + "x"@ + decimal_digits(height as nat)
}

/// A colour without the number signs in it.
pub open spec fn bare_colour(colour: Seq<char>) -> Seq<char>
    decreases colour.len(),
{
    if colour.len() == 0 {
        Seq::empty()
    } else if colour.last() == '#' {
        bare_colour(colour.drop_last())
    } else {
        bare_colour(colour.drop_last()).push(colour.last())
    }
}

/// The filter that draws a sound track: its spectrum, or its wave form in
/// the colours of a palette.
pub open spec fn sound_filter_of(
    mode: Seq<char>,
    palette: Seq<char>,
    colour: Seq<char>,
    width: u32,
    height: u32,
) -> Seq<char> {
    if mode == "spectrogram"@ {
        "[0:a]showspectrumpic=s="@ + size_text(width, height)
            + ":legend=0:color=rainbow:scale=log"@
    } else if palette == "heatmap"@ {
        "[0:a]aformat=channel_layouts=mono,showwavespic=s="@ + size_text(width, height)
            + ":colors=white:scale=log,format=gray,r='if(lte(val,128),0,2*(val-128))':g='if(lte(val,128),2*val,255-2*(val-128))':b='if(lte(val,128),255-2*val,0)'"@
    } else if palette == "accent"@ {
        "[0:a]aformat=channel_layouts=mono,showwavespic=s="@ + size_text(width, height)
            + ":colors=0x"@ + bare_colour(colour) + ":scale=log"@
    } else {
        "[0:a]aformat=channel_layouts=mono,showwavespic=s="@ + size_text(width, height)
            + ":colors=white:scale=log"@
    }
}

/// Appends a colour without the number signs in it.
pub fn push_bare_colour(out: &mut String, colour: &str)
    ensures
        final(out)@ == old(out)@ + bare_colour(colour@),
{
    let chars = chars_of(colour);
    let n = chars.len();
    let mut i: usize = 0;
    assert(chars@.take(0) =~= Seq::<char>::empty());
    assert(out@ =~= old(out)@ + bare_colour(chars@.take(0)));
    while i < n
        invariant
            i <= n,
            n == chars.len(),
            chars@ == colour@,
            out@ == old(out)@ + bare_colour(chars@.take(i as int)),
        decreases n - i,
    {
        let c = chars[i];
        if c != '#' {
            out.append(colour.substring_char(i, i + 1));
            assert(colour@.subrange(i as int, i + 1) =~= seq![c]);
        }
        proof {
            let next = chars@.take(i as int + 1);
            assert(next.drop_last() =~= chars@.take(i as int));
            assert(next.last() == c);
            assert(out@ =~= old(out)@ + bare_colour(next));
        }
        i = i + 1;
    }
    assert(chars@.take(n as int) =~= chars@);
}

fn push_size(out: &mut String, width: u32, height: u32)
    ensures
        final(out)@ == old(out)@ + size_text(width, height),
{
    push_decimal(out, width as u64);
    out.append("x");
    push_decimal(out, height as u64);
    assert(out@ =~= old(out)@ + size_text(width, height));
}

/// The filter that draws a sound track.
pub fn sound_filter(mode: &str, palette: &str, colour: &str, width: u32, height: u32) -> (r:
    String)
    ensures
        r@ == sound_filter_of(mode@, palette@, colour@, width, height),
{
    if same_text(mode, "spectrogram") {
        let mut r = "[0:a]showspectrumpic=s=".to_owned();
        push_size(&mut r, width, height);
        r.append(":legend=0:color=rainbow:scale=log");
        r
    } else {
        let mut r = "[0:a]aformat=channel_layouts=mono,showwavespic=s=".to_owned();
        push_size(&mut r, width, height);
        if same_text(palette, "heatmap") {
            r.append(
                ":colors=white:scale=log,format=gray,r='if(lte(val,128),0,2*(val-128))':g='if(lte(val,128),2*val,255-2*(val-128))':b='if(lte(val,128),255-2*val,0)'",
            );
        } else if same_text(palette, "accent") {
            r.append(":colors=0x");
            push_bare_colour(&mut r, colour);
            r.append(":scale=log");
            assert(r@ =~= sound_filter_of(mode@, palette@, colour@, width, height));
        } else {
            r.append(":colors=white:scale=log");
        }
        r
    }
}

/// The argument list that writes one picture of `input`, made by
/// `filter`, to the standard output.
pub open spec fn picture_arguments(input: Seq<char>, filter: Seq<char>) -> Seq<Seq<char>> {
    seq![
        "-y"@,
        "-i"@,
        input,
        "-filter_complex"@,
        filter,
        "-frames:v"@,
        "1"@,
        "-f"@,
        "image2"@,
        "pipe:1"@,
    ]
}

/// The argument list that writes one picture of `input`, made by
/// `filter`, to the standard output.
pub fn picture_args(input: &str, filter: &str) -> (list: Vec<String>)
    ensures
        texts(list@) == picture_arguments(input@, filter@),
{
    let mut list: Vec<String> = Vec::new();
    assert(texts(list@) =~= Seq::<Seq<char>>::empty());
    put(&mut list, "-y");
    put(&mut list, "-i");
    put(&mut list, input);
    put(&mut list, "-filter_complex");
    put(&mut list, filter);
    put(&mut list, "-frames:v");
    put(&mut list, "1");
    put(&mut list, "-f");
    put(&mut list, "image2");
    put(&mut list, "pipe:1");
    assert(texts(list@) =~= picture_arguments(input@, filter@));
    list
}

/// How much of the machine a run may take, where the caller asks for
/// other than the usual.
#[derive(Clone, Copy, Debug, PartialEq, Eq, Structural)]
pub enum PriorityClass {
    Idle,
    High,
}

/// The class that a word of the caller stands for: `low` and `idle` for
/// the lowest, `high` for a high one, any other word for the usual.
pub open spec fn priority_class_of(word: Seq<char>) -> Option<PriorityClass> {
    if word == "low"@ || word == "idle"@ {
        Some(PriorityClass::Idle)
    } else if word == "high"@ {
        Some(PriorityClass::High)
    } else {
        None
    }
}

/// The class that a word of the caller stands for.
pub fn priority_class(word: &str) -> (r: Option<PriorityClass>)
    ensures
        r == priority_class_of(word@),
{
    if same_text(word, "low") || same_text(word, "idle") {
        Some(PriorityClass::Idle)
    } else if same_text(word, "high") {
        Some(PriorityClass::High)
    } else {
        None
    }
}

/// The command that puts a process into a class.
pub open spec fn priority_command_of(process_id: u32, class: PriorityClass) -> Seq<char> {
    "(Get-Process -Id "@ + decimal_digits(process_id as nat) + (match class {
        PriorityClass::Idle => ").PriorityClass = 'Idle'"@,
        PriorityClass::High => ").PriorityClass = 'High'"@,
    })
}

/// The command that puts a process into a class.
pub fn priority_command(process_id: u32, class: PriorityClass) -> (r: String)
    ensures
        r@ == priority_command_of(process_id, class),
{
    let mut r = "(Get-Process -Id ".to_owned();
    push_decimal(&mut r, process_id as u64);
    match class {
        PriorityClass::Idle => r.append(").PriorityClass = 'Idle'"),
        PriorityClass::High => r.append(").PriorityClass = 'High'"),
    }
    r
}

} // verus!
