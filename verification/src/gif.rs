//! An animation made of still images: how long each frame shows, the
//! listing that names the frames to the transcoder, and its argument list.

use vstd::prelude::*;
use vstd::string::*;
use crate::args::{put, put_owned, texts};
use crate::digits::{decimal_digits, digit_char, digit_text, push_decimal};
use crate::options::ImageToGifOptions;
use crate::paths::{folder_text, OutputPlace};
use crate::seed::{mix_paths, uuid_like_seed, SEED_OFFSET};
use crate::text::chars_of;

verus! {

/// The frame rate used where none is asked for.
pub const DEFAULT_FPS: u32 = 12;

/// The width in pixels used where none is asked for.
pub const DEFAULT_WIDTH: u32 = 480;

/// A number held between two bounds.
pub open spec fn clamped(n: u32, low: u32, high: u32) -> u32 {
    if n < low {
        low
    } else if n > high {
        high
    } else {
        n
    }
}

/// The frame rate of the animation: the one asked for, held between 1 and
/// 60.
pub open spec fn frame_rate_of(asked: Option<u32>) -> u32 {
    clamped(
        match asked {
            Some(f) => f,
            None => DEFAULT_FPS,
        },
        1,
        60,
    )
}

/// The width of the animation: the one asked for, held between 64 and
/// 4096.
pub open spec fn frame_width_of(asked: Option<u32>) -> u32 {
    clamped(
        match asked {
            Some(w) => w,
            None => DEFAULT_WIDTH,
        },
        64,
        4096,
    )
}

/// How long a frame shows at a frame rate, in milliseconds: a thousand
/// divided by the rate, rounded to the nearest whole number, and at least
/// ten. At a rate of zero a frame shows as long as the type can say.
pub open spec fn default_frame_ms_of(fps: u32) -> u32 {
    if fps == 0 {
        u32::MAX
    } else {
        let rounded = (2000 + fps) / (2 * fps);
        if rounded < 10 {
            10
        } else {
            rounded as u32
        }
    }
}

/// How long frame `index` shows: as long as asked for that frame, or else
/// as long as the frame rate gives.
pub open spec fn frame_ms_of(durations: Option<Vec<u32>>, index: int, fps: u32) -> u32 {
    match durations {
        Some(d) => if 0 <= index < d@.len() {
            d@[index]
        } else {
            default_frame_ms_of(fps)
        },
        None => default_frame_ms_of(fps),
    }
}

/// Milliseconds written as seconds with three decimals.
pub open spec fn seconds_text(ms: u32) -> Seq<char> {
    decimal_digits((ms / 1000) as nat) + seq![
        '.',
        digit_char(((ms % 1000) / 100) as nat),
        digit_char(((ms % 100) / 10) as nat),
        digit_char((ms % 10) as nat),
    ]
}

/// What one character of a path becomes inside the single quotes of the
/// listing: a backslash becomes a slash, and a single quote closes the
/// quotes, stands escaped, and opens them again.
pub open spec fn quoted_char(c: char) -> Seq<char> {
    if c == '\\' {
        seq!['/']
    } else if c == '\'' {
        seq!['\'', '\\', '\'', '\'']
    } else {
        seq![c]
    }
}

/// A path as it stands inside the single quotes of the listing.
pub open spec fn quoted_path(path: Seq<char>) -> Seq<char>
    decreases path.len(),
{
    if path.len() == 0 {
        Seq::empty()
    } else {
        quoted_path(path.drop_last()) + quoted_char(path.last())
    }
}

/// The line of the listing that names a file.
pub open spec fn file_line(path: Seq<char>) -> Seq<char> {
    "file '"@ + quoted_path(path) + "'\n"@
}

/// The line of the listing that says how long the file before it shows.
pub open spec fn duration_line(ms: u32) -> Seq<char> {
    "duration "@ + seconds_text(ms) + "\n"@
}

/// The lines for the first `count` frames.
pub open spec fn frame_lines(paths: Seq<String>, durations: Option<Vec<u32>>, fps: u32, count: int) -> Seq<
    char,
>
    decreases count,
{
    if count <= 0 {
        Seq::empty()
    } else {
        frame_lines(paths, durations, fps, count - 1) + file_line(paths[count - 1]@)
            + duration_line(frame_ms_of(durations, count - 1, fps))
    }
}

/// The listing: every frame with its duration, then the last frame once
/// more, as the transcoder wants it.
pub open spec fn listing_of(paths: Seq<String>, durations: Option<Vec<u32>>, fps: u32) -> Seq<
    char,
> {
    frame_lines(paths, durations, fps, paths.len() as int) + (if paths.len() > 0 {
        file_line(paths.last()@)
    } else {
        Seq::empty()
    })
}

/// The filter that makes the animation: the frame rate, the width, and a
/// palette made of the frames themselves.
pub open spec fn palette_filter_of(fps: u32, width: u32) -> Seq<char> {
    "fps="@ + decimal_digits(fps as nat) + ",scale="@ + decimal_digits(width as nat)
        + ":-1:flags=lanczos,split[s0][s1];[s0]palettegen[p];[s1][p]paletteuse"@
}

/// The argument list that makes the animation of a listing.
pub open spec fn animation_arguments(listing_path: Seq<char>, filter: Seq<char>, output: Seq<char>) -> Seq<
    Seq<char>,
> {
    seq!["-y"@, "-f"@, "concat"@, "-safe"@, "0"@, "-i"@, listing_path, "-vf"@, filter, output]
}

/// The name of the scratch file that holds the listing.
pub open spec fn listing_name_of(seed: u64) -> Seq<char> {
    "video_toolbox_gif_"@ + decimal_digits(seed as nat) + ".txt"@
}

/// A number held between two bounds.
pub fn clamp(n: u32, low: u32, high: u32) -> (r: u32)
    ensures
        r == clamped(n, low, high),
{
    if n < low {
        low
    } else if n > high {
        high
    } else {
        n
    }
}

/// The frame rate of the animation.
pub fn frame_rate(asked: Option<u32>) -> (r: u32)
    ensures
        r == frame_rate_of(asked),
        1 <= r <= 60,
{
    clamp(
        match asked {
            Some(f) => f,
            None => DEFAULT_FPS,
        },
        1,
        60,
    )
}

/// The width of the animation.
pub fn frame_width(asked: Option<u32>) -> (r: u32)
    ensures
        r == frame_width_of(asked),
        64 <= r <= 4096,
{
    clamp(
        match asked {
            Some(w) => w,
            None => DEFAULT_WIDTH,
        },
        64,
        4096,
    )
}

/// How long a frame shows at a frame rate, in milliseconds.
pub fn default_frame_ms(fps: u32) -> (r: u32)
    ensures
        r == default_frame_ms_of(fps),
        r >= 10,
{
    if fps == 0 {
        return u32::MAX;
    }
    let rounded: u64 = (2000 + fps as u64) / (2 * fps as u64);
    assert((2000 + fps as int) / (2 * fps as int) <= 1001) by (nonlinear_arith)
        requires
            fps >= 1,
    ;
    if rounded < 10 {
        10
    } else {
        rounded as u32
    }
}

/// How long frame `index` shows.
pub fn frame_ms(durations: &Option<Vec<u32>>, index: usize, fps: u32) -> (r: u32)
    ensures
        r == frame_ms_of(*durations, index as int, fps),
{
    match durations {
        Some(d) => if index < d.len() {
            d[index]
        } else {
            default_frame_ms(fps)
        },
        None => default_frame_ms(fps),
    }
}

/// Appends milliseconds written as seconds with three decimals.
pub fn push_seconds(out: &mut String, ms: u32)
    ensures
        final(out)@ == old(out)@ + seconds_text(ms),
{
    push_decimal(out, (ms / 1000) as u64);
    out.append(".");
    out.append(digit_text(((ms % 1000) / 100) as u64));
    out.append(digit_text(((ms % 100) / 10) as u64));
    out.append(digit_text((ms % 10) as u64));
    proof {
        reveal_strlit(".");
        assert("."@ =~= seq!['.']);
        assert(out@ =~= old(out)@ + seconds_text(ms));
    }
}

/// Appends a path as it stands inside the single quotes of the listing.
pub fn push_quoted(out: &mut String, path: &str)
    ensures
        final(out)@ == old(out)@ + quoted_path(path@),
{
    let chars = chars_of(path);
    let n = chars.len();
    let mut i: usize = 0;
    assert(chars@.take(0) =~= Seq::<char>::empty());
    assert(out@ =~= old(out)@ + quoted_path(chars@.take(0)));
    while i < n
        invariant
            i <= n,
            n == chars.len(),
            chars@ == path@,
            out@ == old(out)@ + quoted_path(chars@.take(i as int)),
        decreases n - i,
    {
        let c = chars[i];
        let ghost held = out@;
        if c == '\\' {
            out.append("/");
            proof {
                reveal_strlit("/");
                assert("/"@ =~= quoted_char(c));
            }
        } else if c == '\'' {
            out.append("'\\''");
            proof {
                reveal_strlit("'\\''");
                assert("'\\''"@ =~= quoted_char(c));
            }
        } else {
            out.append(path.substring_char(i, i + 1));
            assert(path@.subrange(i as int, i + 1) =~= quoted_char(c));
        }
        proof {
            let next = chars@.take(i as int + 1);
            assert(next.drop_last() =~= chars@.take(i as int));
            assert(next.last() == c);
            assert(out@ =~= old(out)@ + quoted_path(next));
        }
        i = i + 1;
    }
    assert(chars@.take(n as int) =~= chars@);
}

/// Appends the line of the listing that names a file.
pub fn push_file_line(out: &mut String, path: &str)
    ensures
        final(out)@ == old(out)@ + file_line(path@),
{
    out.append("file '");
    push_quoted(out, path);
    out.append("'\n");
    assert(out@ =~= old(out)@ + file_line(path@));
}

/// The listing of the frames.
pub fn listing(paths: &Vec<String>, durations: &Option<Vec<u32>>, fps: u32) -> (r: String)
    ensures
        r@ == listing_of(paths@, *durations, fps),
{
    let mut r = String::new();
    let mut i: usize = 0;
    assert(r@ =~= frame_lines(paths@, *durations, fps, 0));
    while i < paths.len()
        invariant
            i <= paths.len(),
            r@ == frame_lines(paths@, *durations, fps, i as int),
        decreases paths.len() - i,
    {
        let ghost held = r@;
        push_file_line(&mut r, paths[i].as_str());
        r.append("duration ");
        push_seconds(&mut r, frame_ms(durations, i, fps));
        r.append("\n");
        assert(r@ =~= held + file_line(paths@[i as int]@) + duration_line(
            frame_ms_of(*durations, i as int, fps),
        ));
        i = i + 1;
    }
    if paths.len() > 0 {
        push_file_line(&mut r, paths[paths.len() - 1].as_str());
    } else {
        assert(r@ =~= r@ + Seq::<char>::empty());
    }
    r
}

/// The filter that makes the animation.
pub fn palette_filter(fps: u32, width: u32) -> (r: String)
    ensures
        r@ == palette_filter_of(fps, width),
{
    let mut r = "fps=".to_owned();
    push_decimal(&mut r, fps as u64);
    r.append(",scale=");
    push_decimal(&mut r, width as u64);
    r.append(":-1:flags=lanczos,split[s0][s1];[s0]palettegen[p];[s1][p]paletteuse");
    r
}

/// The argument list that makes the animation of a listing.
pub fn animation_args(listing_path: &str, filter: String, output_path: &str) -> (list: Vec<String>)
    ensures
        texts(list@) == animation_arguments(listing_path@, filter@, output_path@),
{
    let mut list: Vec<String> = Vec::new();
    assert(texts(list@) =~= Seq::<Seq<char>>::empty());
    put(&mut list, "-y");
    put(&mut list, "-f");
    put(&mut list, "concat");
    put(&mut list, "-safe");
    put(&mut list, "0");
    put(&mut list, "-i");
    put(&mut list, listing_path);
    put(&mut list, "-vf");
    put_owned(&mut list, filter);
    put(&mut list, output_path);
    assert(texts(list@) =~= animation_arguments(listing_path@, filter@, output_path@));
    list
}

/// The name of the scratch file that holds the listing.
pub fn listing_name(seed: u64) -> (r: String)
    ensures
        r@ == listing_name_of(seed),
{
    let mut r = "video_toolbox_gif_".to_owned();
    push_decimal(&mut r, seed);
    r.append(".txt");
    r
}

/// Why no animation can be made.
#[derive(Clone, Copy, Debug, PartialEq, Eq, Structural)]
pub enum GifError {
    /// The request names no image.
    NoImages,
}

impl GifError {
    /// The message shown for the error.
    pub fn message(self) -> (r: &'static str)
        ensures
            r@ == "No images provided"@,
    {
        "No images provided"
    }
}

/// What is handed to the transcoder to make an animation, but for the
/// places of the listing and of the result.
#[derive(Clone, Debug, PartialEq, Eq)]
pub struct AnimationPlan {
    /// The frame rate, from 1 to 60.
    pub fps: u32,
    /// The width in pixels, from 64 to 4096.
    pub width: u32,
    /// The text of the listing.
    pub listing: String,
    /// The filter.
    pub filter: String,
    /// The name of the scratch file for the listing.
    pub listing_name: String,
}

/// What a request for an animation asks of the transcoder. A request
/// without images is refused.
pub fn plan_animation(o: &ImageToGifOptions) -> (r: Result<AnimationPlan, GifError>)
    ensures
        r is Err <==> o.image_paths@.len() == 0,
        r is Ok ==> {
            let plan = r->Ok_0;
            &&& plan.fps == frame_rate_of(o.fps)
            &&& plan.width == frame_width_of(o.width)
            &&& plan.listing@ == listing_of(
                o.image_paths@,
                o.frame_durations_ms,
                frame_rate_of(o.fps),
            )
            &&& plan.filter@ == palette_filter_of(frame_rate_of(o.fps), frame_width_of(o.width))
            &&& plan.listing_name@ == listing_name_of(mix_paths(SEED_OFFSET, o.image_paths@))
        },
{
    if o.image_paths.len() == 0 {
        return Err(GifError::NoImages);
    }
    let fps = frame_rate(o.fps);
    let width = frame_width(o.width);
    Ok(
        AnimationPlan {
            fps,
            width,
            listing: listing(&o.image_paths, &o.frame_durations_ms, fps),
            filter: palette_filter(fps, width),
            listing_name: listing_name(uuid_like_seed(o.image_paths.as_slice())),
        },
    )
}

/// The name of the animation made of images of which the first has this
/// stem; `animated` stands for a missing stem.
pub open spec fn animation_name_of(stem: Option<String>) -> Seq<char> {
    (match stem {
        Some(s) => s@,
        None => "animated"@,
    }) + "_animated.gif"@
}

/// Where the animation goes: to the path asked for, if one is; else under
/// its name into the folder asked for, or the folder of the first image, or
/// the folder the tool runs in.
pub open spec fn animation_place_of(
    o: ImageToGifOptions,
    parent: Option<String>,
    stem: Option<String>,
) -> (Option<Seq<char>>, Seq<char>) {
    if o.output_path is Some && o.output_path->0@.len() > 0 {
        (None, o.output_path->0@)
    } else if o.output_folder is Some && o.output_folder->0@.len() > 0 {
        (Some(o.output_folder->0@), animation_name_of(stem))
    } else {
        match parent {
            Some(p) => (Some(p@), animation_name_of(stem)),
            None => (Some("."@), animation_name_of(stem)),
        }
    }
}

/// Where the animation goes, given the folder and the stem of the first
/// image as the platform reads them.
pub fn animation_place(o: &ImageToGifOptions, parent: &Option<String>, stem: &Option<String>) -> (place:
    OutputPlace)
    ensures
        (folder_text(place.folder), place.name@) == animation_place_of(*o, *parent, *stem),
{
    match &o.output_path {
        Some(p) => {
            if !p.as_str().is_empty() {
                return OutputPlace { folder: None, name: p.clone() };
            }
        },
        None => {},
    }
    let mut name = match stem {
        Some(s) => s.clone(),
        None => "animated".to_owned(),
    };
    name.append("_animated.gif");
    match &o.output_folder {
        Some(f) => {
            if !f.as_str().is_empty() {
                return OutputPlace { folder: Some(f.clone()), name };
            }
        },
        None => {},
    }
    match parent {
        Some(p) => OutputPlace { folder: Some(p.clone()), name },
        None => OutputPlace { folder: Some(".".to_owned()), name },
    }
}

} // verus!
