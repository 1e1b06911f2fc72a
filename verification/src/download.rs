//! Progress of a download: what each record of the downloader's output
//! tells of the transfer, of the phase the tool is in, and of the file it
//! writes.

use vstd::prelude::*;
use vstd::string::*;
use crate::pattern::{
    captures, decode_lossy, group, group_of, groups_view, lossy_text, match_view, regex_captures,
};
use crate::digits::{digit_value, is_digit};
use crate::text::{
    chars_of, contains, find, find_after, holds, same_text, strip_bounds, stripped, Strip,
};

verus! {

/// The share of the transfer that is done, in percent.
pub const FRACTION_PATTERN: &'static str = "\\[download\\]\\s+(\\d+\\.?\\d*)%";

/// The size of the whole transfer.
pub const SIZE_PATTERN: &'static str = "of\\s+~?(\\d+\\.?\\d*[KMG]iB)";

/// The rate of the transfer.
pub const RATE_PATTERN: &'static str = "at\\s+(\\d+\\.?\\d*[KMG]iB/s)";

/// The time that the transfer is expected to take still.
pub const ETA_PATTERN: &'static str = "ETA\\s+(\\d{2}:\\d{2})";

/// The tag in square brackets at the start of a record, which names the
/// part of the tool that wrote it.
pub const TAG_PATTERN: &'static str = "^\\[([^\\]]+)\\]";

/// The notice that the file is there already.
pub const ALREADY_PATTERN: &'static str =
    "\\[download\\]\\s+(.+?)\\s+has already been downloaded";

/// What comes before the path of the file that the tool writes.
pub const DESTINATION_MARK: &'static str = "Destination:";

/// What comes before the path of the file that the tool merges into.
pub const MERGE_MARK: &'static str = "Merging formats into";

/// The largest whole part that a decimal is read to; larger ones count as
/// this.
pub const WHOLE_CAP: u32 = 1000;

/// The phase that a download is in.
#[derive(Clone, Copy, Debug, PartialEq, Eq, Structural)]
pub enum DownloadStatus {
    CreatingOutputFile,
    Merging,
    ExtractingAudio,
    FetchingMetadata,
    PreparingStream,
    ExtractingMetadata,
    CreatingFile,
    StartingDownload,
    Finalizing,
    Downloading,
    CleaningUp,
    FinalizingTimestamps,
}

impl DownloadStatus {
    /// The phrase shown for the phase.
    pub open spec fn spec_phrase(self) -> Seq<char> {
        match self {
            DownloadStatus::CreatingOutputFile => "Creating output file..."@,
            DownloadStatus::Merging => "Merging audio and video..."@,
            DownloadStatus::ExtractingAudio => "Extracting audio..."@,
            DownloadStatus::FetchingMetadata => "Fetching metadata..."@,
            DownloadStatus::PreparingStream => "Preparing stream..."@,
            DownloadStatus::ExtractingMetadata => "Extracting metadata..."@,
            DownloadStatus::CreatingFile => "Creating file..."@,
            DownloadStatus::StartingDownload => "Starting download..."@,
            DownloadStatus::Finalizing => "Finalizing download..."@,
            DownloadStatus::Downloading => "Downloading..."@,
            DownloadStatus::CleaningUp => "Cleaning up temporary files..."@,
            DownloadStatus::FinalizingTimestamps => "Finalizing media timestamps..."@,
        }
    }

    /// The phrase shown for the phase.
    pub fn phrase(self) -> (r: &'static str)
        ensures
            r@ == self.spec_phrase(),
    {
        match self {
            DownloadStatus::CreatingOutputFile => "Creating output file...",
            DownloadStatus::Merging => "Merging audio and video...",
            DownloadStatus::ExtractingAudio => "Extracting audio...",
            DownloadStatus::FetchingMetadata => "Fetching metadata...",
            DownloadStatus::PreparingStream => "Preparing stream...",
            DownloadStatus::ExtractingMetadata => "Extracting metadata...",
            DownloadStatus::CreatingFile => "Creating file...",
            DownloadStatus::StartingDownload => "Starting download...",
            DownloadStatus::Finalizing => "Finalizing download...",
            DownloadStatus::Downloading => "Downloading...",
            DownloadStatus::CleaningUp => "Cleaning up temporary files...",
            DownloadStatus::FinalizingTimestamps => "Finalizing media timestamps...",
        }
    }
}

/// A decimal number as far as it is read: its whole part, counted up to
/// `WHOLE_CAP`, and its first digit after the point.
#[derive(Clone, Copy, Debug, PartialEq, Eq, Structural)]
pub struct Decimal {
    pub whole: u32,
    pub tenth: u8,
}

/// Whether every character is a digit.
pub open spec fn all_digits(t: Seq<char>) -> bool {
    forall|i: int| 0 <= i < t.len() ==> is_digit(#[trigger] t[i])
}

/// The number that a text of digits writes.
pub open spec fn digits_value(t: Seq<char>) -> nat
    decreases t.len(),
{
    if t.len() == 0 {
        0
    } else {
        10 * digits_value(t.drop_last()) + digit_value(t.last())
    }
}

/// The number that a text of digits writes, counted up to `WHOLE_CAP`.
pub open spec fn capped_value(t: Seq<char>) -> u32 {
    if digits_value(t) > WHOLE_CAP {
        WHOLE_CAP
    } else {
        digits_value(t) as u32
    }
}

/// The decimal that a text writes: digits, at least one, then possibly a
/// point and further digits. Any other text writes none.
pub open spec fn decimal_of(t: Seq<char>) -> Option<Decimal> {
    match find(t, seq!['.']) {
        None => if t.len() > 0 && all_digits(t) {
            Some(Decimal { whole: capped_value(t), tenth: 0 })
        } else {
            None
        },
        Some(k) => if k > 0 && all_digits(t.subrange(0, k)) && all_digits(
            t.subrange(k + 1, t.len() as int),
        ) {
            Some(
                Decimal {
                    whole: capped_value(t.subrange(0, k)),
                    tenth: if k + 1 < t.len() {
                        digit_value(t[k + 1]) as u8
                    } else {
                        0
                    },
                },
            )
        } else {
            None
        },
    }
}

/// The percentage shown for a share: the share rounded to the nearest whole
/// number, at most 99.
pub open spec fn shown_percent(d: Decimal) -> u32 {
    let rounded = if d.tenth >= 5 {
        d.whole + 1
    } else {
        d.whole as int
    };
    if rounded > 99 {
        99
    } else {
        rounded as u32
    }
}

/// Whether a share is 99.9 percent or more.
pub open spec fn nearly_done(d: Decimal) -> bool {
    d.whole >= 100 || (d.whole == 99 && d.tenth == 9)
}

/// Group one of an optional match.
pub open spec fn first_group(m: Option<Seq<Option<Seq<char>>>>) -> Option<Seq<char>> {
    match m {
        Some(g) => group(g, 1),
        None => None,
    }
}

/// A text without the white space around it and, inside that, without the
/// double and then the single quotes around it.
pub open spec fn unquoted(s: Seq<char>) -> Seq<char> {
    stripped(stripped(stripped(s, Strip::WhiteSpace), Strip::Exactly('"')), Strip::Exactly('\''))
}

/// The path that a record names after the first occurrence of `mark`, if
/// the mark occurs and something is left of what follows it.
pub open spec fn named_after(line: Seq<char>, mark: Seq<char>) -> Option<Seq<char>> {
    match find(line, mark) {
        Some(i) => {
            let rest = unquoted(line.subrange(i + mark.len(), line.len() as int));
            if rest.len() > 0 {
                Some(rest)
            } else {
                None
            }
        },
        None => None,
    }
}

/// The path that a record announces as the file being written: what
/// follows the destination mark, or, in a record without that mark, what
/// follows the merge mark.
pub open spec fn announced_path(line: Seq<char>) -> Option<Seq<char>> {
    if contains(line, DESTINATION_MARK@) {
        named_after(line, DESTINATION_MARK@)
    } else {
        named_after(line, MERGE_MARK@)
    }
}

/// The phase that an announcement of a path stands for.
pub open spec fn announced_status(line: Seq<char>) -> Option<DownloadStatus> {
    if announced_path(line) is None {
        None
    } else if contains(line, DESTINATION_MARK@) {
        Some(DownloadStatus::CreatingOutputFile)
    } else {
        Some(DownloadStatus::Merging)
    }
}

/// The phase that the tag of a record stands for; `before` where the tag
/// stands for none.
pub open spec fn tagged_status(
    line: Seq<char>,
    tag: Option<Seq<char>>,
    has_share: bool,
    before: Option<DownloadStatus>,
) -> Option<DownloadStatus> {
    match tag {
        None => before,
        Some(t) => if t == "Merger"@ {
            Some(DownloadStatus::Merging)
        } else if t == "ExtractAudio"@ {
            Some(DownloadStatus::ExtractingAudio)
        } else if t == "info"@ {
            if contains(line, "Downloading webpage"@) {
                Some(DownloadStatus::FetchingMetadata)
            } else if contains(line, "Downloading m3u8"@) {
                Some(DownloadStatus::PreparingStream)
            } else {
                Some(DownloadStatus::ExtractingMetadata)
            }
        } else if t == "download"@ && !has_share {
            if contains(line, DESTINATION_MARK@) {
                Some(DownloadStatus::CreatingFile)
            } else if contains(line, "Downloading"@) {
                Some(DownloadStatus::StartingDownload)
            } else {
                before
            }
        } else {
            before
        },
    }
}

/// The phase that stands for a share alone, where nothing else names one:
/// about to end from 99.9 percent on, going on before.
pub open spec fn or_share_status(found: Option<DownloadStatus>, share: Option<Decimal>) -> Option<
    DownloadStatus,
> {
    match found {
        Some(s) => Some(s),
        None => match share {
            Some(d) => if nearly_done(d) {
                Some(DownloadStatus::Finalizing)
            } else {
                Some(DownloadStatus::Downloading)
            },
            None => None,
        },
    }
}

/// The phase reported with a record: what the tag or an announcement says;
/// failing that, for a record with a share, whether the transfer is about
/// to end or going on.
pub open spec fn status_of(
    line: Seq<char>,
    tag: Option<Seq<char>>,
    share: Option<Decimal>,
) -> Option<DownloadStatus> {
    or_share_status(tagged_status(line, tag, share is Some, announced_status(line)), share)
}

/// What the six patterns found in one record.
pub struct LineMatches {
    pub fraction: Option<Vec<Option<String>>>,
    pub size: Option<Vec<Option<String>>>,
    pub rate: Option<Vec<Option<String>>>,
    pub eta: Option<Vec<Option<String>>>,
    pub tag: Option<Vec<Option<String>>>,
    pub already: Option<Vec<Option<String>>>,
}

/// What the six patterns found in one record, as text.
pub struct LineFacts {
    pub fraction: Option<Seq<Option<Seq<char>>>>,
    pub size: Option<Seq<Option<Seq<char>>>>,
    pub rate: Option<Seq<Option<Seq<char>>>>,
    pub eta: Option<Seq<Option<Seq<char>>>>,
    pub tag: Option<Seq<Option<Seq<char>>>>,
    pub already: Option<Seq<Option<Seq<char>>>>,
}

impl View for LineMatches {
    type V = LineFacts;

    open spec fn view(&self) -> LineFacts {
        LineFacts {
            fraction: match_view(self.fraction),
            size: match_view(self.size),
            rate: match_view(self.rate),
            eta: match_view(self.eta),
            tag: match_view(self.tag),
            already: match_view(self.already),
        }
    }
}

/// What the six patterns find in a text.
pub open spec fn facts_of(line: Seq<char>) -> LineFacts {
    LineFacts {
        fraction: regex_captures(FRACTION_PATTERN@, line),
        size: regex_captures(SIZE_PATTERN@, line),
        rate: regex_captures(RATE_PATTERN@, line),
        eta: regex_captures(ETA_PATTERN@, line),
        tag: regex_captures(TAG_PATTERN@, line),
        already: regex_captures(ALREADY_PATTERN@, line),
    }
}

/// The share that a record reports, if it reports one that can be read.
pub open spec fn share_of(facts: LineFacts) -> Option<Decimal> {
    match first_group(facts.fraction) {
        Some(t) => decimal_of(t),
        None => None,
    }
}

/// The path that a record gives for the file being written: the file that
/// is there already, or else the path announced.
pub open spec fn path_of(line: Seq<char>, facts: LineFacts) -> Option<Seq<char>> {
    match first_group(facts.already) {
        Some(p) => Some(p),
        None => announced_path(line),
    }
}

/// What the caller is told of a download that is still going on.
#[derive(Clone, Debug, PartialEq, Eq)]
pub struct DownloadProgress {
    /// The share of the transfer done, from 0 to 99.
    pub percent: Option<u32>,
    pub size: Option<String>,
    pub speed: Option<String>,
    pub eta: Option<String>,
    pub status: Option<DownloadStatus>,
}

/// The text of an optional string.
pub open spec fn text_view(s: Option<String>) -> Option<Seq<char>> {
    match s {
        Some(t) => Some(t@),
        None => None,
    }
}

impl DownloadProgress {
    /// Whether the event reports what `line` and `facts` tell.
    pub open spec fn reports(&self, line: Seq<char>, facts: LineFacts) -> bool {
        &&& self.percent == match share_of(facts) {
            Some(d) => Some(shown_percent(d)),
            None => None,
        }
        &&& text_view(self.size) == first_group(facts.size)
        &&& text_view(self.speed) == first_group(facts.rate)
        &&& text_view(self.eta) == first_group(facts.eta)
        &&& self.status == status_of(line, first_group(facts.tag), share_of(facts))
    }
}

/// Whether a record is worth an event: it reports a share or a phase.
pub open spec fn is_informative(line: Seq<char>, facts: LineFacts) -> bool {
    share_of(facts) is Some || status_of(line, first_group(facts.tag), share_of(facts)) is Some
}

/// What one record tells.
#[derive(Clone, Debug, PartialEq, Eq)]
pub struct DownloadReading {
    /// The event for the caller, if the record is worth one.
    pub event: Option<DownloadProgress>,
    /// The path to record as the job's output, if the record gives one.
    pub output_path: Option<String>,
}

impl DownloadReading {
    /// Whether the reading is what `line` and `facts` tell.
    pub open spec fn reads(&self, line: Seq<char>, facts: LineFacts) -> bool {
        &&& self.event is Some <==> is_informative(line, facts)
        &&& self.event is Some ==> self.event->0.reports(line, facts)
        &&& text_view(self.output_path) == path_of(line, facts)
    }
}

/// The number that a digit stands for.
fn digit_of(c: char) -> (d: u8)
    requires
        is_digit(c),
    ensures
        d == digit_value(c),
        d < 10,
{
    (c as u32 - '0' as u32) as u8
}

/// Whether the characters from `lo` to `hi` are all digits, and the number
/// they write, counted up to `WHOLE_CAP`.
fn read_digits(chars: &Vec<char>, lo: usize, hi: usize) -> (r: Option<u32>)
    requires
        lo <= hi <= chars.len(),
    ensures
        r is Some <==> all_digits(chars@.subrange(lo as int, hi as int)),
        r is Some ==> r->0 == capped_value(chars@.subrange(lo as int, hi as int)),
{
    let ghost part = chars@.subrange(lo as int, hi as int);
    let mut acc: u32 = 0;
    let mut i: usize = lo;
    assert(part.take(0) =~= Seq::<char>::empty());
    while i < hi
        invariant
            lo <= i <= hi <= chars.len(),
            part == chars@.subrange(lo as int, hi as int),
            all_digits(part.take(i - lo)),
            acc == capped_value(part.take(i - lo)),
            acc <= WHOLE_CAP,
        decreases hi - i,
    {
        let c = chars[i];
        assert(part[i - lo] == c);
        if !(c >= '0' && c <= '9') {
            return None;
        }
        let d = digit_of(c);
        proof {
            let next = part.take(i - lo + 1);
            assert(next.drop_last() =~= part.take(i - lo));
            assert(next.last() == c);
            assert forall|j: int| 0 <= j < next.len() implies is_digit(#[trigger] next[j]) by {
                if j < i - lo {
                    assert(part.take(i - lo)[j] == next[j]);
                }
            }
        }
        let wide: u32 = 10 * acc + d as u32;
        acc = if wide > WHOLE_CAP {
            WHOLE_CAP
        } else {
            wide
        };
        i = i + 1;
    }
    assert(part.take(hi - lo) =~= part);
    Some(acc)
}

/// The decimal that a text writes.
pub fn read_decimal(t: &str) -> (r: Option<Decimal>)
    ensures
        r == decimal_of(t@),
{
    let chars = chars_of(t);
    let mut point: Vec<char> = Vec::new();
    point.push('.');
    assert(point@ =~= seq!['.']);
    let n = chars.len();
    match find_after(&chars, &point, 0) {
        None => {
            assert(chars@.subrange(0, n as int) =~= chars@);
            if n == 0 {
                return None;
            }
            match read_digits(&chars, 0, n) {
                Some(whole) => Some(Decimal { whole, tenth: 0 }),
                None => None,
            }
        },
        Some(k) => {
            proof {
                crate::text::lemma_find_is_first(chars@, point@, 0);
            }
            if k == 0 {
                return None;
            }
            let whole = read_digits(&chars, 0, k);
            let rest = read_digits(&chars, k + 1, n);
            match (whole, rest) {
                (Some(w), Some(_)) => {
                    let tenth = if k + 1 < n {
                        assert(chars@.subrange(k + 1, n as int)[0] == chars@[k + 1]);
                        digit_of(chars[k + 1])
                    } else {
                        0
                    };
                    Some(Decimal { whole: w, tenth })
                },
                _ => None,
            }
        },
    }
}

/// The percentage shown for a share.
pub fn percent_shown(d: Decimal) -> (r: u32)
    ensures
        r == shown_percent(d),
        r <= 99,
{
    if d.whole >= 99 {
        99
    } else if d.tenth >= 5 {
        d.whole + 1
    } else {
        d.whole
    }
}

/// Group one of an optional match.
pub(crate) fn first_group_of(m: &Option<Vec<Option<String>>>) -> (r: Option<&String>)
    ensures
        match r {
            Some(s) => first_group(match_view(*m)) == Some(s@),
            None => first_group(match_view(*m)) is None,
        },
{
    match m {
        Some(g) => group_of(g, 1),
        None => None,
    }
}

/// A copy of group one of an optional match.
fn first_group_text(m: &Option<Vec<Option<String>>>) -> (r: Option<String>)
    ensures
        text_view(r) == first_group(match_view(*m)),
{
    match first_group_of(m) {
        Some(s) => Some(s.clone()),
        None => None,
    }
}

/// The path that a record names after the first occurrence of `mark`.
pub(crate) fn path_after(line: &str, chars: &Vec<char>, mark: &str) -> (r: Option<String>)
    requires
        chars@ == line@,
    ensures
        text_view(r) == named_after(line@, mark@),
{
    let needle = chars_of(mark);
    match find_after(chars, &needle, 0) {
        None => None,
        Some(i) => {
            proof {
                crate::text::lemma_find_is_first(chars@, needle@, 0);
            }
            let n = chars.len();
            let (a, b) = strip_bounds(chars, i + needle.len(), n, Strip::WhiteSpace);
            let (c, d) = strip_bounds(chars, a, b, Strip::Exactly('"'));
            let (e, f) = strip_bounds(chars, c, d, Strip::Exactly('\''));
            if e < f {
                Some(line.substring_char(e, f).to_owned())
            } else {
                None
            }
        },
    }
}

/// Whether `mark` stands anywhere in a record.
pub(crate) fn mentions(chars: &Vec<char>, mark: &str) -> (r: bool)
    ensures
        r == contains(chars@, mark@),
{
    let needle = chars_of(mark);
    holds(chars, &needle)
}

/// The path that a record announces as the file being written.
pub fn path_announced(line: &str) -> (r: Option<String>)
    ensures
        text_view(r) == announced_path(line@),
{
    let chars = chars_of(line);
    if mentions(&chars, DESTINATION_MARK) {
        path_after(line, &chars, DESTINATION_MARK)
    } else {
        path_after(line, &chars, MERGE_MARK)
    }
}

/// The phase reported with a record.
pub fn status(line: &str, tag: Option<&String>, share: Option<Decimal>) -> (r: Option<
    DownloadStatus,
>)
    ensures
        r == status_of(
            line@,
            match tag {
                Some(t) => Some(t@),
                None => None,
            },
            share,
        ),
{
    let chars = chars_of(line);
    let has_mark = mentions(&chars, DESTINATION_MARK);
    let announced = if path_announced(line).is_none() {
        None
    } else if has_mark {
        Some(DownloadStatus::CreatingOutputFile)
    } else {
        Some(DownloadStatus::Merging)
    };
    let tagged = match tag {
        None => announced,
        Some(t) => {
            if same_text(t.as_str(), "Merger") {
                Some(DownloadStatus::Merging)
            } else if same_text(t.as_str(), "ExtractAudio") {
                Some(DownloadStatus::ExtractingAudio)
            } else if same_text(t.as_str(), "info") {
                if mentions(&chars, "Downloading webpage") {
                    Some(DownloadStatus::FetchingMetadata)
                } else if mentions(&chars, "Downloading m3u8") {
                    Some(DownloadStatus::PreparingStream)
                } else {
                    Some(DownloadStatus::ExtractingMetadata)
                }
            } else if same_text(t.as_str(), "download") && share.is_none() {
                if has_mark {
                    Some(DownloadStatus::CreatingFile)
                } else if mentions(&chars, "Downloading") {
                    Some(DownloadStatus::StartingDownload)
                } else {
                    announced
                }
            } else {
                announced
            }
        },
    };
    share_status_or(tagged, share)
}

/// The phase that stands for a share alone, where nothing else names one.
pub fn share_status_or(found: Option<DownloadStatus>, share: Option<Decimal>) -> (r: Option<
    DownloadStatus,
>)
    ensures
        r == or_share_status(found, share),
{
    match found {
        Some(s) => Some(s),
        None => match share {
            Some(d) => if d.whole >= 100 || (d.whole == 99 && d.tenth == 9) {
                Some(DownloadStatus::Finalizing)
            } else {
                Some(DownloadStatus::Downloading)
            },
            None => None,
        },
    }
}

/// What one record tells, given the record without the white space around
/// it and what the six patterns found in it.
pub fn interpret(line: &str, found: &LineMatches) -> (reading: DownloadReading)
    ensures
        reading.reads(line@, found@),
        reading.event is Some && reading.event->0.percent is Some
            ==> reading.event->0.percent->0 <= 99,
{
    let share = match first_group_of(&found.fraction) {
        Some(t) => read_decimal(t.as_str()),
        None => None,
    };
    let phase = status(line, first_group_of(&found.tag), share);
    let output_path = match first_group_text(&found.already) {
        Some(p) => Some(p),
        None => path_announced(line),
    };
    let event = if share.is_some() || phase.is_some() {
        Some(
            DownloadProgress {
                percent: match share {
                    Some(d) => Some(percent_shown(d)),
                    None => None,
                },
                size: first_group_text(&found.size),
                speed: first_group_text(&found.rate),
                eta: first_group_text(&found.eta),
                status: phase,
            },
        )
    } else {
        None
    };
    DownloadReading { event, output_path }
}

/// The text of a record: its bytes decoded, without the white space around
/// them.
pub open spec fn line_of(record: Seq<u8>) -> Seq<char> {
    stripped(lossy_text(record), Strip::WhiteSpace)
}

/// Reads one record of the downloader's output. An empty record, or one of
/// white space only, tells nothing; any other is matched against the six
/// patterns and interpreted.
pub fn observe(record: &[u8]) -> (reading: DownloadReading)
    ensures
        line_of(record@).len() == 0 ==> reading.event is None && reading.output_path is None,
        line_of(record@).len() > 0 ==> reading.reads(line_of(record@), facts_of(line_of(record@))),
        reading.event is Some && reading.event->0.percent is Some
            ==> reading.event->0.percent->0 <= 99,
{
    let raw = decode_lossy(record);
    let chars = chars_of(raw.as_str());
    let (lo, hi) = strip_bounds(&chars, 0, chars.len(), Strip::WhiteSpace);
    assert(chars@.subrange(0, chars.len() as int) =~= chars@);
    if lo == hi {
        return DownloadReading { event: None, output_path: None };
    }
    let line = raw.as_str().substring_char(lo, hi);
    let found = LineMatches {
        fraction: captures(FRACTION_PATTERN, line),
        size: captures(SIZE_PATTERN, line),
        rate: captures(RATE_PATTERN, line),
        eta: captures(ETA_PATTERN, line),
        tag: captures(TAG_PATTERN, line),
        already: captures(ALREADY_PATTERN, line),
    };
    interpret(line, &found)
}

} // verus!
