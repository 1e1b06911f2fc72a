//! Progress of a transcoding run: how far the tool has come, read from the
//! records of its diagnostic stream.

use vstd::prelude::*;
use vstd::string::*;
use crate::digits::{
    decimal_digits, digit_char, digit_text, digit_value, is_digit, push_decimal,
};
use crate::pattern::{
    captures, decode_lossy, group, group_of, groups_view, lossy_text, match_view, regex_captures,
};

verus! {

/// The announcement of the total duration of the input.
pub const DURATION_PATTERN: &'static str = "Duration:\\s*(\\d{2}):(\\d{2}):(\\d{2})\\.(\\d{2})";

/// The position that the tool has reached.
pub const POSITION_PATTERN: &'static str = "time=(\\d{2}):(\\d{2}):(\\d{2})\\.(\\d{2})";

/// The rate at which the tool works, as a multiple of real time.
pub const SPEED_PATTERN: &'static str = "speed=\\s*(\\d+\\.?\\d*)x";

/// The largest percentage reported while a run is still going on.
pub const MAX_RUNNING_PERCENT: u32 = 99;

/// The number written by a text of exactly two digits; zero for any other
/// text.
pub open spec fn two_digit_value(t: Seq<char>) -> nat {
    if t.len() == 2 && is_digit(t[0]) && is_digit(t[1]) {
        10 * digit_value(t[0]) + digit_value(t[1])
    } else {
        0
    }
}

/// The number in group `i` of a match; zero where the group is missing.
pub open spec fn field_value(groups: Seq<Option<Seq<char>>>, i: int) -> nat {
    match group(groups, i) {
        Some(t) => two_digit_value(t),
        None => 0,
    }
}

/// A time as the tool writes it: hours, minutes, seconds and hundredths of
/// a second.
#[derive(Clone, Copy, Debug, PartialEq, Eq, Structural)]
pub struct Timestamp {
    pub hours: u8,
    pub minutes: u8,
    pub seconds: u8,
    pub hundredths: u8,
}

impl Timestamp {
    /// Every field is below one hundred.
    pub open spec fn wf(&self) -> bool {
        self.hours < 100 && self.minutes < 100 && self.seconds < 100 && self.hundredths < 100
    }

    /// The time in hundredths of a second.
    pub open spec fn spec_centiseconds(&self) -> nat {
        (((self.hours as nat * 60 + self.minutes as nat) * 60 + self.seconds as nat) * 100
            + self.hundredths as nat) as nat
    }

    /// The time as `HH:MM:SS`, each number with at least two digits.
    pub open spec fn spec_clock(&self) -> Seq<char> {
        padded_text(self.hours as nat) + seq![':'] + padded_text(self.minutes as nat) + seq![':']
            + padded_text(self.seconds as nat)
    }

    /// The time in hundredths of a second.
    pub fn centiseconds(&self) -> (r: u64)
        ensures
            r == self.spec_centiseconds(),
    {
        ((self.hours as u64 * 60 + self.minutes as u64) * 60 + self.seconds as u64) * 100
            + self.hundredths as u64
    }

    /// The time as `HH:MM:SS`, each number with at least two digits.
    pub fn clock(&self) -> (r: String)
        ensures
            r@ == self.spec_clock(),
    {
        let mut out = String::new();
        push_padded(&mut out, self.hours);
        out.append(":");
        push_padded(&mut out, self.minutes);
        out.append(":");
        push_padded(&mut out, self.seconds);
        proof {
            reveal_strlit(":");
            assert(":"@ =~= seq![':']);
            assert(out@ =~= self.spec_clock());
        }
        out
    }
}

/// A number written with at least two digits: with a zero before a single
/// digit.
pub open spec fn padded_text(n: nat) -> Seq<char> {
    if n < 10 {
        seq!['0', digit_char(n)]
    } else {
        decimal_digits(n)
    }
}

/// The time written in groups one to four of a match.
pub open spec fn timestamp_of(groups: Seq<Option<Seq<char>>>) -> Timestamp {
    Timestamp {
        hours: field_value(groups, 1) as u8,
        minutes: field_value(groups, 2) as u8,
        seconds: field_value(groups, 3) as u8,
        hundredths: field_value(groups, 4) as u8,
    }
}

/// The quotient of `n` by `d`, rounded to the nearest whole number, a half
/// rounded up.
pub open spec fn rounded_quotient(n: nat, d: nat) -> nat
    recommends
        d > 0,
{
    (2 * n + d) / (2 * d)
}

/// The percentage reported for a position in a run of a total length, both
/// in the same unit: the rounded share, at most 99; zero while the total is
/// unknown or zero.
pub open spec fn percent_of(position: nat, total: Option<nat>) -> nat {
    match total {
        Some(t) => if t > 0 {
            let share = rounded_quotient(100 * position, t);
            if share > 99 {
                99
            } else {
                share
            }
        } else {
            0
        },
        None => 0,
    }
}

/// The total of a stream after one more record: the first duration that
/// was announced stays for the rest of the stream.
pub open spec fn total_after(total: Option<nat>, duration: Option<Seq<Option<Seq<char>>>>) -> Option<
    nat,
> {
    match total {
        Some(t) => Some(t),
        None => match duration {
            Some(g) => Some(timestamp_of(g).spec_centiseconds()),
            None => None,
        },
    }
}

/// The rate reported with a position: the number that was matched and an
/// `x`, or `N/A` where none was.
pub open spec fn speed_text(speed: Option<Seq<Option<Seq<char>>>>) -> Seq<char> {
    match speed {
        Some(g) => match group(g, 1) {
            Some(t) => t + "x"@,
            None => "N/A"@,
        },
        None => "N/A"@,
    }
}

/// What the caller is told of a run that is still going on.
#[derive(Clone, Debug, PartialEq, Eq)]
pub struct ProgressEvent {
    /// The share of the work done, from 0 to 99.
    pub percent: u32,
    /// The position reached, as `HH:MM:SS`.
    pub time: String,
    /// The rate, or `N/A`.
    pub speed: String,
}

impl ProgressEvent {
    /// Whether the event reports the position in `position` against `total`
    /// with the rate in `speed`.
    pub open spec fn reports(
        &self,
        total: Option<nat>,
        position: Seq<Option<Seq<char>>>,
        speed: Option<Seq<Option<Seq<char>>>>,
    ) -> bool {
        &&& self.percent == percent_of(timestamp_of(position).spec_centiseconds(), total)
        &&& self.time@ == timestamp_of(position).spec_clock()
        &&& self.speed@ == speed_text(speed)
    }
}

/// Appends a number written with at least two digits.
fn push_padded(out: &mut String, n: u8)
    ensures
        final(out)@ == old(out)@ + padded_text(n as nat),
{
    if n < 10 {
        out.append(digit_text(0));
        out.append(digit_text(n as u64));
        assert(out@ =~= old(out)@ + padded_text(n as nat));
    } else {
        push_decimal(out, n as u64);
    }
}

/// The number written by a text of exactly two digits; zero for any other
/// text.
pub fn two_digits(t: &str) -> (r: u8)
    ensures
        r == two_digit_value(t@),
        r < 100,
{
    if t.unicode_len() != 2 {
        return 0;
    }
    let a = t.get_char(0);
    let b = t.get_char(1);
    if a >= '0' && a <= '9' && b >= '0' && b <= '9' {
        let hi: u32 = a as u32 - '0' as u32;
        let lo: u32 = b as u32 - '0' as u32;
        (10 * hi + lo) as u8
    } else {
        0
    }
}

/// The number in group `i` of a match; zero where the group is missing.
pub fn field(groups: &Vec<Option<String>>, i: usize) -> (r: u8)
    ensures
        r == field_value(groups_view(groups@), i as int),
        r < 100,
{
    match group_of(groups, i) {
        Some(t) => two_digits(t.as_str()),
        None => 0,
    }
}

/// The time written in groups one to four of a match.
pub fn timestamp(groups: &Vec<Option<String>>) -> (r: Timestamp)
    ensures
        r == timestamp_of(groups_view(groups@)),
        r.wf(),
{
    Timestamp {
        hours: field(groups, 1),
        minutes: field(groups, 2),
        seconds: field(groups, 3),
        hundredths: field(groups, 4),
    }
}

/// The percentage reported for a position in a run of a total length.
pub fn percent(position: u64, total: Option<u64>) -> (r: u32)
    ensures
        r == percent_of(
            position as nat,
            match total {
                Some(t) => Some(t as nat),
                None => None,
            },
        ),
        r <= MAX_RUNNING_PERCENT,
        total is None ==> r == 0,
{
    match total {
        Some(t) => {
            if t == 0 {
                0
            } else {
                let n: u128 = 200 * (position as u128) + t as u128;
                let d: u128 = 2 * (t as u128);
                let share: u128 = n / d;
                if share > 99 {
                    99
                } else {
                    share as u32
                }
            }
        },
        None => 0,
    }
}

/// The total as a natural number.
pub open spec fn total_view(total: Option<u64>) -> Option<nat> {
    match total {
        Some(t) => Some(t as nat),
        None => None,
    }
}

/// Reads the records of one transcoding run, in arrival order, and
/// remembers the total duration once it has been announced.
pub struct TranscodeParser {
    /// The total duration in hundredths of a second, once known.
    pub total: Option<u64>,
}

impl TranscodeParser {
    /// A parser that knows no total yet.
    pub fn new() -> (r: Self)
        ensures
            r.total is None,
    {
        TranscodeParser { total: None }
    }

    /// A parser for a run whose total, in hundredths of a second, is known
    /// beforehand.
    pub fn with_total(centiseconds: u64) -> (r: Self)
        ensures
            r.total == Some(centiseconds),
    {
        TranscodeParser { total: Some(centiseconds) }
    }

    /// Takes what the three patterns found in one record. The first
    /// duration announced becomes the total and stays. A record with a
    /// position gives an event, measured against the total as it stands
    /// after this record; a record without one gives none.
    pub fn interpret(
        &mut self,
        duration: &Option<Vec<Option<String>>>,
        position: &Option<Vec<Option<String>>>,
        speed: &Option<Vec<Option<String>>>,
    ) -> (event: Option<ProgressEvent>)
        ensures
            total_view(final(self).total) == total_after(
                total_view(old(self).total),
                match_view(*duration),
            ),
            old(self).total is Some ==> final(self).total == old(self).total,
            event is Some <==> position is Some,
            event is Some ==> event->0.reports(
                total_view(final(self).total),
                groups_view(position->0@),
                match_view(*speed),
            ),
            event is Some ==> event->0.percent <= MAX_RUNNING_PERCENT,
            event is Some && final(self).total is None ==> event->0.percent == 0,
    {
        if self.total.is_none() {
            match duration {
                Some(g) => {
                    self.total = Some(timestamp(g).centiseconds());
                },
                None => {},
            }
        }
        match position {
            Some(g) => {
                let at = timestamp(g);
                let share = percent(at.centiseconds(), self.total);
                let rate = match speed {
                    Some(s) => match group_of(s, 1) {
                        Some(t) => {
                            let mut r = t.clone();
                            r.append("x");
                            r
                        },
                        None => "N/A".to_owned(),
                    },
                    None => "N/A".to_owned(),
                };
                Some(ProgressEvent { percent: share, time: at.clock(), speed: rate })
            },
            None => None,
        }
    }

    /// Reads one record: decodes it, matches the three patterns against it
    /// and interprets what they found.
    pub fn observe(&mut self, record: &[u8]) -> (event: Option<ProgressEvent>)
        ensures
            total_view(final(self).total) == total_after(
                total_view(old(self).total),
                regex_captures(DURATION_PATTERN@, lossy_text(record@)),
            ),
            old(self).total is Some ==> final(self).total == old(self).total,
            event is Some <==> regex_captures(POSITION_PATTERN@, lossy_text(record@)) is Some,
            event is Some ==> event->0.reports(
                total_view(final(self).total),
                regex_captures(POSITION_PATTERN@, lossy_text(record@))->0,
                regex_captures(SPEED_PATTERN@, lossy_text(record@)),
            ),
            event is Some ==> event->0.percent <= MAX_RUNNING_PERCENT,
    {
        let line = decode_lossy(record);
        let duration = captures(DURATION_PATTERN, line.as_str());
        let position = captures(POSITION_PATTERN, line.as_str());
        let speed = captures(SPEED_PATTERN, line.as_str());
        self.interpret(&duration, &position, &speed)
    }
}

/// Once a total is known, no later announcement changes it.
pub proof fn lemma_total_stays(
    total: Option<nat>,
    first: Option<Seq<Option<Seq<char>>>>,
    later: Option<Seq<Option<Seq<char>>>>,
)
    ensures
        total is Some ==> total_after(total, later) == total,
        first is Some ==> total_after(total_after(None, first), later) == total_after(None, first),
{
}

/// While a run is going on the percentage never passes 99, whatever the
/// position and the total; without a total, or with a total of zero, it is
/// zero.
pub proof fn lemma_percent_bounds(position: nat, total: Option<nat>)
    ensures
        percent_of(position, total) <= 99,
        total is None || total == Some(0nat) ==> percent_of(position, total) == 0,
{
}

} // verus!
