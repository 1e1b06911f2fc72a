//! The downloader's diagnostic stream: besides progress it carries the
//! tool's complaints, which are kept for the report of a failure.

use vstd::prelude::*;
use vstd::string::*;
use crate::download::{
    decimal_of, first_group, first_group_of, mentions, named_after, or_share_status, path_after,
    percent_shown, read_decimal, share_status_or, shown_percent, text_view, Decimal,
    DownloadProgress, DownloadStatus, DESTINATION_MARK, MERGE_MARK,
};
use crate::job::{appended, DiagnosticBuffer};
use crate::pattern::{captures, decode_lossy, lossy_text, match_view, regex_captures};
use crate::text::{
    chars_of, contains, find, find_after, lemma_find_is_first, lemma_find_shifts, occurs_at,
    same_text, strip_bounds, stripped, Strip,
};

verus! {

/// The share of the transfer that is done, as the diagnostic stream
/// writes it.
pub const SHARE_PATTERN: &'static str = "\\[download\\]\\s+(\\d+\\.?\\d*)%\\b";

/// The tag in square brackets at the start of a record.
pub const LEADING_TAG_PATTERN: &'static str = "^\\[([^\\]]+)\\]";

/// What comes before a complaint of the tool.
pub const ERROR_MARK: &'static str = "ERROR:";

/// What the tool writes when it removes what it merged from.
pub const DELETING_MARK: &'static str = "Deleting original file";

/// What the tool writes when it repairs time stamps.
pub const FIXING_MARK: &'static str = "Fixing video timestamp";

/// The complaint in a record: what stands between the first error mark and
/// the next, or the end of the record, without the white space around it.
pub open spec fn complaint_of(line: Seq<char>) -> Option<Seq<char>> {
    match find(line, ERROR_MARK@) {
        None => None,
        Some(i) => {
            let rest = line.subrange(i + ERROR_MARK@.len(), line.len() as int);
            match find(rest, ERROR_MARK@) {
                Some(j) => Some(stripped(rest.subrange(0, j), Strip::WhiteSpace)),
                None => Some(stripped(rest, Strip::WhiteSpace)),
            }
        },
    }
}

/// The path that a diagnostic record gives for the file being written:
/// what follows the merge mark, or else what follows the destination mark.
pub open spec fn diagnostic_path(line: Seq<char>) -> Option<Seq<char>> {
    match named_after(line, MERGE_MARK@) {
        Some(p) => Some(p),
        None => named_after(line, DESTINATION_MARK@),
    }
}

/// The phase that the words of a diagnostic record stand for.
pub open spec fn worded_status(line: Seq<char>) -> Option<DownloadStatus> {
    if contains(line, MERGE_MARK@) {
        Some(DownloadStatus::Merging)
    } else if contains(line, DELETING_MARK@) {
        Some(DownloadStatus::CleaningUp)
    } else if contains(line, FIXING_MARK@) {
        Some(DownloadStatus::FinalizingTimestamps)
    } else if named_after(line, DESTINATION_MARK@) is Some {
        Some(DownloadStatus::CreatingOutputFile)
    } else {
        None
    }
}

/// The phase reported with a diagnostic record: what its tag says, or else
/// its words, or else its share.
pub open spec fn diagnostic_status(
    line: Seq<char>,
    tag: Option<Seq<char>>,
    share: Option<Decimal>,
) -> Option<DownloadStatus> {
    let worded = worded_status(line);
    let tagged = match tag {
        None => worded,
        Some(t) => if t == "Merger"@ {
            Some(DownloadStatus::Merging)
        } else if t == "ExtractAudio"@ {
            Some(DownloadStatus::ExtractingAudio)
        } else if t == "download"@ && share is None && contains(line, DESTINATION_MARK@) {
            Some(DownloadStatus::CreatingOutputFile)
        } else {
            worded
        },
    };
    or_share_status(tagged, share)
}

/// What one record of the diagnostic stream tells.
#[derive(Clone, Debug, PartialEq, Eq)]
pub struct DiagnosticReading {
    /// The event for the caller, if the record is worth one and holds no
    /// complaint.
    pub event: Option<DownloadProgress>,
    /// The complaint that the record holds.
    pub complaint: Option<String>,
    /// The path to record as the job's output, if the record gives one.
    pub output_path: Option<String>,
}

/// The share in group one of an optional match.
pub open spec fn share_in(fraction: Option<Seq<Option<Seq<char>>>>) -> Option<Decimal> {
    match first_group(fraction) {
        Some(t) => decimal_of(t),
        None => None,
    }
}

impl DiagnosticReading {
    /// Whether the reading is what `line` tells, given what the two
    /// patterns found in it.
    pub open spec fn reads(
        &self,
        line: Seq<char>,
        fraction: Option<Seq<Option<Seq<char>>>>,
        tag: Option<Seq<Option<Seq<char>>>>,
    ) -> bool {
        let share = share_in(fraction);
        let phase = diagnostic_status(line, first_group(tag), share);
        &&& text_view(self.complaint) == complaint_of(line)
        &&& text_view(self.output_path) == diagnostic_path(line)
        &&& self.event is Some <==> complaint_of(line) is None && (share is Some || phase is Some)
        &&& self.event is Some ==> {
            &&& self.event->0.percent == match share {
                Some(d) => Some(shown_percent(d)),
                None => None,
            }
            &&& self.event->0.size is None
            &&& self.event->0.speed is None
            &&& self.event->0.eta is None
            &&& self.event->0.status == phase
        }
    }
}

/// The complaint in a record.
pub fn complaint(line: &str) -> (r: Option<String>)
    ensures
        text_view(r) == complaint_of(line@),
{
    let chars = chars_of(line);
    let mark = chars_of(ERROR_MARK);
    match find_after(&chars, &mark, 0) {
        None => None,
        Some(i) => {
            proof {
                lemma_find_is_first(chars@, mark@, 0);
                assert(occurs_at(chars@, mark@, i as int));
                assert(i + mark@.len() <= chars@.len());
            }
            let n = chars.len();
            let start = i + mark.len();
            let ghost rest = chars@.subrange(start as int, n as int);
            let end = match find_after(&chars, &mark, start) {
                Some(j) => j,
                None => n,
            };
            proof {
                lemma_find_shifts(chars@, mark@, start as int, start as int);
                lemma_find_is_first(chars@, mark@, start as int);
                assert(rest.subrange(0, end - start) =~= chars@.subrange(start as int, end as int));
                assert(rest =~= chars@.subrange(start as int, n as int));
            }
            let (a, b) = strip_bounds(&chars, start, end, Strip::WhiteSpace);
            Some(line.substring_char(a, b).to_owned())
        },
    }
}

/// The path that a diagnostic record gives for the file being written.
pub fn path_in_diagnostic(line: &str) -> (r: Option<String>)
    ensures
        text_view(r) == diagnostic_path(line@),
{
    let chars = chars_of(line);
    match path_after(line, &chars, MERGE_MARK) {
        Some(p) => Some(p),
        None => path_after(line, &chars, DESTINATION_MARK),
    }
}

/// The phase reported with a diagnostic record.
pub fn status_in_diagnostic(line: &str, tag: Option<&String>, share: Option<Decimal>) -> (r:
    Option<DownloadStatus>)
    ensures
        r == diagnostic_status(
            line@,
            match tag {
                Some(t) => Some(t@),
                None => None,
            },
            share,
        ),
{
    let chars = chars_of(line);
    let worded = if mentions(&chars, MERGE_MARK) {
        Some(DownloadStatus::Merging)
    } else if mentions(&chars, DELETING_MARK) {
        Some(DownloadStatus::CleaningUp)
    } else if mentions(&chars, FIXING_MARK) {
        Some(DownloadStatus::FinalizingTimestamps)
    } else if path_after(line, &chars, DESTINATION_MARK).is_some() {
        Some(DownloadStatus::CreatingOutputFile)
    } else {
        None
    };
    let tagged = match tag {
        None => worded,
        Some(t) => {
            if same_text(t.as_str(), "Merger") {
                Some(DownloadStatus::Merging)
            } else if same_text(t.as_str(), "ExtractAudio") {
                Some(DownloadStatus::ExtractingAudio)
            } else if same_text(t.as_str(), "download") && share.is_none() && mentions(
                &chars,
                DESTINATION_MARK,
            ) {
                Some(DownloadStatus::CreatingOutputFile)
            } else {
                worded
            }
        },
    };
    share_status_or(tagged, share)
}

/// What one diagnostic record tells, given the record without the white
/// space around it and what the two patterns found in it.
pub fn interpret_diagnostic(
    line: &str,
    fraction: &Option<Vec<Option<String>>>,
    tag: &Option<Vec<Option<String>>>,
) -> (reading: DiagnosticReading)
    ensures
        reading.reads(line@, match_view(*fraction), match_view(*tag)),
        reading.event is Some && reading.event->0.percent is Some
            ==> reading.event->0.percent->0 <= 99,
{
    let share = match first_group_of(fraction) {
        Some(t) => read_decimal(t.as_str()),
        None => None,
    };
    let phase = status_in_diagnostic(line, first_group_of(tag), share);
    let said = complaint(line);
    let event = if said.is_none() && (share.is_some() || phase.is_some()) {
        Some(
            DownloadProgress {
                percent: match share {
                    Some(d) => Some(percent_shown(d)),
                    None => None,
                },
                size: None,
                speed: None,
                eta: None,
                status: phase,
            },
        )
    } else {
        None
    };
    DiagnosticReading { event, complaint: said, output_path: path_in_diagnostic(line) }
}

/// Reads one record of the diagnostic stream. An empty record, or one of
/// white space only, tells nothing and is not kept. Any other is offered to
/// the buffer, without the white space around it, and interpreted.
pub fn observe_diagnostic(record: &[u8], kept: &mut DiagnosticBuffer) -> (reading:
    DiagnosticReading)
    ensures
        stripped(lossy_text(record@), Strip::WhiteSpace).len() == 0 ==> {
            &&& final(kept)@ == old(kept)@
            &&& reading.event is None
            &&& reading.complaint is None
            &&& reading.output_path is None
        },
        stripped(lossy_text(record@), Strip::WhiteSpace).len() > 0 ==> {
            let line = stripped(lossy_text(record@), Strip::WhiteSpace);
            &&& final(kept)@ == appended(old(kept)@, line)
            &&& reading.reads(
                line,
                regex_captures(SHARE_PATTERN@, line),
                regex_captures(LEADING_TAG_PATTERN@, line),
            )
        },
        reading.event is Some && reading.event->0.percent is Some
            ==> reading.event->0.percent->0 <= 99,
{
    let raw = decode_lossy(record);
    let chars = chars_of(raw.as_str());
    let (lo, hi) = strip_bounds(&chars, 0, chars.len(), Strip::WhiteSpace);
    assert(chars@.subrange(0, chars.len() as int) =~= chars@);
    if lo == hi {
        return DiagnosticReading { event: None, complaint: None, output_path: None };
    }
    let line = raw.as_str().substring_char(lo, hi);
    kept.append(line);
    let fraction = captures(SHARE_PATTERN, line);
    let tag = captures(LEADING_TAG_PATTERN, line);
    interpret_diagnostic(line, &fraction, &tag)
}

} // verus!
