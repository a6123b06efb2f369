//! Conversion between Unix timestamps and local calendar time.
//!
//! A line of text is read either as a Unix timestamp (whole seconds in its first
//! ten characters, sub-second digits after them) or as a local date and time in the
//! form `YYYY-MM-DD HH:MM:SS.mmm`. A timestamp is shown as local date and time, a
//! date and time as the integer timestamp in the chosen unit.
//!
//! The calendar and the machine's time zone are `chrono`'s. Which offset from UTC
//! the zone has at an instant is not known to the proofs: the contracts speak of
//! some offset of less than a day, and name what `chrono` writes and reads at that
//! offset. `TimestampEngine::convert` is verified for every answer of the zone,
//! and `stamp_result` and `calendar_result` say what becomes of each.

use vstd::prelude::*;
use chrono::{Local, LocalResult, NaiveDateTime, TimeZone};
use crate::{copied_words, ToolItem};
use crate::text::{
    all_digits, chars_of, decimal_chars, digits_value, int_decimal, is_digit,
    lemma_decimal_of_digits, lemma_digits_value_bound, lemma_digits_value_split, lemma_pow10_add,
    lemma_pow10_monotone, lemma_trimmed_identity, parse_i64, parse_u32, pow10, read_i64, read_u32,
    string_of, trim_chars, trimmed,
};

verus! {

/// `chrono::NaiveDateTime`: a calendar date and time of day without a time zone.
#[verifier::external_type_specification]
#[verifier::external_body]
pub struct ExNaiveDateTime(chrono::NaiveDateTime);

/// The unit of an integer timestamp, and the precision at which a time is shown.
#[derive(Clone, Copy, Debug, PartialEq, Eq, Structural)]
pub enum TimeUnit {
    Sec,
    Milli,
    Micro,
    Nano,
}

/// What a line of input was taken for.
#[derive(Clone, Copy, Debug, PartialEq, Eq, Structural)]
pub enum InputType {
    Invalid,
    Timestamp,
    DateTimeStr,
}

/// The note shown beside the input after a conversion.
#[derive(Clone, Copy, Debug, PartialEq, Eq, Structural)]
pub enum Advisory {
    /// Nothing to report.
    Clear,
    /// The input is a timestamp, but not 10, 13, 16 or 19 characters long.
    NonStandardLength,
    /// The input is neither a timestamp nor a date and time.
    InvalidInput,
    /// The instant lies outside the calendar, or outside the range of nanosecond timestamps.
    ResolutionFailed,
    /// The date and time does not exist in the local time zone.
    ZoneConversionFailed,
}

/// The instants that the local time zone gives for one request: none, exactly one,
/// or two, the earlier one first.
#[derive(Debug, PartialEq, Eq)]
pub enum LocalTimes<T> {
    Absent,
    Single(T),
    Ambiguous(T, T),
}

impl<T> LocalTimes<(i32, T)> {
    /// The local times without the offsets from UTC at which they were found.
    pub open spec fn spec_values(self) -> LocalTimes<T> {
        match self {
            LocalTimes::Absent => LocalTimes::Absent,
            LocalTimes::Single(a) => LocalTimes::Single(a.1),
            LocalTimes::Ambiguous(a, b) => LocalTimes::Ambiguous(a.1, b.1),
        }
    }

    /// Whether every offset is one that a time zone can have: less than a day,
    /// either way.
    pub open spec fn offsets_valid(self) -> bool {
        match self {
            LocalTimes::Absent => true,
            LocalTimes::Single(a) => valid_offset(a.0),
            LocalTimes::Ambiguous(a, b) => valid_offset(a.0) && valid_offset(b.0),
        }
    }

    /// Drops the offsets.
    pub fn values(self) -> (r: LocalTimes<T>)
        ensures
            r == self.spec_values(),
    {
        match self {
            LocalTimes::Absent => LocalTimes::Absent,
            LocalTimes::Single(a) => LocalTimes::Single(a.1),
            LocalTimes::Ambiguous(a, b) => LocalTimes::Ambiguous(a.1, b.1),
        }
    }
}

/// Whether a time zone can be `offset` seconds east of UTC.
pub open spec fn valid_offset(offset: i32) -> bool {
    -86_400 < offset < 86_400
}

/// What the text of a line of input says, before the calendar is asked.
#[derive(Clone, Copy, Debug, PartialEq, Eq)]
pub enum Reading {
    /// Nothing but white space.
    Empty,
    /// Ten characters or fewer that are no integer.
    Invalid,
    /// A Unix timestamp.
    Stamp { secs: i64, nanos: u32 },
    /// More than ten characters that are no timestamp: perhaps a date and time.
    Candidate,
}

/// The result of one conversion.
#[derive(Debug, PartialEq, Eq)]
pub struct TimestampOutcome {
    /// What the input was taken for.
    pub kind: InputType,
    /// The new text to show; `None` where the text shown before is to stay.
    pub output: Option<String>,
    /// The note to show.
    pub advisory: Advisory,
}

/// `TimestampOutcome` with its text as a sequence of characters.
pub struct OutcomeView {
    pub kind: InputType,
    pub output: Option<Seq<char>>,
    pub advisory: Advisory,
}

impl View for TimestampOutcome {
    type V = OutcomeView;

    open spec fn view(&self) -> OutcomeView {
        OutcomeView {
            kind: self.kind,
            output: match self.output {
                Some(s) => Some(s@),
                None => None,
            },
            advisory: self.advisory,
        }
    }
}

/// The pattern of a date and time shown to the second.
pub open spec fn pattern_s() -> Seq<char> {
    "%F %T"@
}

/// The pattern of a date and time shown to the millisecond.
pub open spec fn pattern_ms() -> Seq<char> {
    "%F %T%.3f"@
}

/// The pattern of a date and time shown to the microsecond.
pub open spec fn pattern_us() -> Seq<char> {
    "%F %T%.6f"@
}

/// The pattern of a date and time shown to the nanosecond.
pub open spec fn pattern_ns() -> Seq<char> {
    "%F %T%.9f"@
}

/// Whether `p` is one of the four patterns in which a time is shown.
pub open spec fn is_display_pattern(p: Seq<char>) -> bool {
    p == pattern_s() || p == pattern_ms() || p == pattern_us() || p == pattern_ns()
}

/// The number of characters of a date and time shown under `pattern`, for a year
/// of four digits: ten of the date, a space, eight of the time of day, and where
/// the pattern asks for a fraction a point and its three, six or nine digits.
pub open spec fn shown_length(pattern: Seq<char>) -> nat {
    if pattern == pattern_ms() {
        23
    } else if pattern == pattern_us() {
        26
    } else if pattern == pattern_ns() {
        29
    } else {
        19
    }
}

/// Whether `text` has the shape of a date and time shown under `pattern`, for a
/// year of four digits: `YYYY-MM-DD HH:MM:SS`, then a point and the digits of the
/// fraction where the pattern asks for one.
pub open spec fn has_shape(text: Seq<char>, pattern: Seq<char>) -> bool {
    &&& text.len() == shown_length(pattern)
    &&& text[4] == '-' && text[7] == '-'
    &&& text[10] == ' '
    &&& text[13] == ':' && text[16] == ':'
    &&& text.len() > 19 ==> text[19] == '.'
    &&& forall|i: int|
        0 <= i < text.len() && i != 4 && i != 7 && i != 10 && i != 13 && i != 16 && i != 19
            ==> is_digit(#[trigger] text[i])
}

/// The four patterns differ, and a date and time shown to the second, the
/// millisecond, the microsecond and the nanosecond has 19, 23, 26 and 29
/// characters.
pub proof fn lemma_shown_lengths()
    ensures
        shown_length(pattern_s()) == 19,
        shown_length(pattern_ms()) == 23,
        shown_length(pattern_us()) == 26,
        shown_length(pattern_ns()) == 29,
{
    reveal_strlit("%F %T");
    reveal_strlit("%F %T%.3f");
    reveal_strlit("%F %T%.6f");
    reveal_strlit("%F %T%.9f");
    assert(pattern_s().len() == 5);
    assert(pattern_ms().len() == 9 && pattern_ms()[7] == '3');
    assert(pattern_us().len() == 9 && pattern_us()[7] == '6');
    assert(pattern_ns().len() == 9 && pattern_ns()[7] == '9');
}

/// The pattern in which a timestamp of `len` characters is shown with `unit`
/// chosen: at the unit's precision where it has more than ten characters, to the
/// second otherwise.
pub open spec fn stamp_pattern(len: nat, unit: TimeUnit) -> Seq<char> {
    if len > 10 {
        unit.spec_pattern()
    } else {
        pattern_s()
    }
}

impl TimeUnit {
    /// The pattern in which a time is shown at this unit's precision.
    pub open spec fn spec_pattern(self) -> Seq<char> {
        match self {
            TimeUnit::Sec => pattern_s(),
            TimeUnit::Milli => pattern_ms(),
            TimeUnit::Micro => pattern_us(),
            TimeUnit::Nano => pattern_ns(),
        }
    }

    /// The pattern in which a time is shown at this unit's precision.
    pub fn pattern(&self) -> (r: &'static str)
        ensures
            r@ == self.spec_pattern(),
    {
        match self {
            TimeUnit::Sec => "%F %T",
            TimeUnit::Milli => "%F %T%.3f",
            TimeUnit::Micro => "%F %T%.6f",
            TimeUnit::Nano => "%F %T%.9f",
        }
    }

    /// The number of nanoseconds in one unit.
    pub open spec fn spec_scale(self) -> int {
        match self {
            TimeUnit::Sec => 1_000_000_000,
            TimeUnit::Milli => 1_000_000,
            TimeUnit::Micro => 1_000,
            TimeUnit::Nano => 1,
        }
    }

    /// The number of nanoseconds in one unit.
    pub fn scale(&self) -> (r: i64)
        ensures
            r == self.spec_scale(),
    {
        match self {
            TimeUnit::Sec => 1_000_000_000,
            TimeUnit::Milli => 1_000_000,
            TimeUnit::Micro => 1_000,
            TimeUnit::Nano => 1,
        }
    }

    /// The number of digits of a present-day timestamp in this unit.
    pub open spec fn spec_digits(self) -> nat {
        match self {
            TimeUnit::Sec => 10,
            TimeUnit::Milli => 13,
            TimeUnit::Micro => 16,
            TimeUnit::Nano => 19,
        }
    }

    /// The number of digits of a present-day timestamp in this unit.
    pub fn digits(&self) -> (r: usize)
        ensures
            r == self.spec_digits(),
    {
        match self {
            TimeUnit::Sec => 10,
            TimeUnit::Milli => 13,
            TimeUnit::Micro => 16,
            TimeUnit::Nano => 19,
        }
    }
}

impl Advisory {
    /// The words in which the note is shown; empty where there is nothing to report.
    pub open spec fn spec_message(self) -> Seq<char> {
        match self {
            Advisory::Clear => ""@,
            Advisory::NonStandardLength => "⚠ 非标准时间戳格式（秒/毫秒/微秒/纳秒）"@,
            Advisory::InvalidInput => "⚠ 无效输入"@,
            Advisory::ResolutionFailed => "时间解析失败"@,
            Advisory::ZoneConversionFailed => "无法转换时间戳到本地时区"@,
        }
    }

    /// The words in which the note is shown; empty where there is nothing to report.
    pub fn message(&self) -> (r: &'static str)
        ensures
            r@ == self.spec_message(),
    {
        match self {
            Advisory::Clear => "",
            Advisory::NonStandardLength => "⚠ 非标准时间戳格式（秒/毫秒/微秒/纳秒）",
            Advisory::InvalidInput => "⚠ 无效输入",
            Advisory::ResolutionFailed => "时间解析失败",
            Advisory::ZoneConversionFailed => "无法转换时间戳到本地时区",
        }
    }
}

/// Whether a timestamp of `len` characters has the length of one in seconds,
/// milliseconds, microseconds or nanoseconds.
pub open spec fn standard_length(len: nat) -> bool {
    len == 10 || len == 13 || len == 16 || len == 19
}

/// What the trimmed text `t` says.
///
/// Text of more than ten characters is a timestamp where its first ten characters
/// are an `i64` numeral, the whole seconds, and the rest is a `u32` numeral of at
/// most nine characters, the digits after the decimal point: `k` characters count
/// in units of ten to the minus `k` seconds. Text of ten characters or fewer is a
/// timestamp in whole seconds where it is an `i64` numeral.
pub open spec fn reading(t: Seq<char>) -> Reading {
    if t.len() == 0 {
        Reading::Empty
    } else if t.len() > 10 {
        match (parse_i64(t.take(10)), parse_u32(t.skip(10))) {
            (Some(secs), Some(frac)) => if t.len() <= 19 {
                Reading::Stamp { secs, nanos: (frac * pow10((19 - t.len()) as nat)) as u32 }
            } else {
                Reading::Candidate
            },
            _ => Reading::Candidate,
        }
    } else {
        match parse_i64(t) {
            Some(secs) => Reading::Stamp { secs, nanos: 0 },
            None => Reading::Invalid,
        }
    }
}

/// The signed quotient of `a` by the positive `b`, rounded toward zero.
pub open spec fn quotient_toward_zero(a: int, b: int) -> int
    recommends
        b > 0,
{
    if a >= 0 {
        a / b
    } else {
        -((-a) / b)
    }
}

/// The outcome for input that is nothing but white space: the output is emptied and
/// nothing is reported.
pub open spec fn empty_result() -> OutcomeView {
    OutcomeView { kind: InputType::Invalid, output: Some(Seq::empty()), advisory: Advisory::Clear }
}

/// The outcome for input that cannot be read: the output is emptied and the input
/// reported as invalid.
pub open spec fn invalid_result() -> OutcomeView {
    OutcomeView {
        kind: InputType::Invalid,
        output: Some(Seq::empty()),
        advisory: Advisory::InvalidInput,
    }
}

/// The outcome for a timestamp of `len` characters, given the local times that the
/// time zone found for it, each already shown as text.
///
/// The earlier of two local times is shown. With no local time the output stays as
/// it was and the failure is reported. A length that is not standard is reported
/// beside the output.
pub open spec fn stamp_result(found: LocalTimes<Seq<char>>, len: nat) -> OutcomeView {
    match found {
        LocalTimes::Absent => OutcomeView {
            kind: InputType::Timestamp,
            output: None,
            advisory: Advisory::ResolutionFailed,
        },
        LocalTimes::Single(shown) | LocalTimes::Ambiguous(shown, _) => OutcomeView {
            kind: InputType::Timestamp,
            output: Some(shown),
            advisory: if standard_length(len) {
                Advisory::Clear
            } else {
                Advisory::NonStandardLength
            },
        },
    }
}

/// The outcome for a timestamp of `len` characters whose one local time is shown
/// as `text`.
pub open spec fn stamp_shown(text: Seq<char>, len: nat) -> OutcomeView {
    stamp_result(LocalTimes::Single(text), len)
}

/// The outcome for a date and time, given the instants that the time zone found
/// for it, each as nanoseconds since the epoch, or `None` where that number does
/// not fit in an `i64`.
///
/// The earlier of two instants is taken. Its nanoseconds are divided by the unit's
/// scale, rounding toward zero, and shown in decimal.
pub open spec fn calendar_result(found: LocalTimes<Option<i64>>, unit: TimeUnit) -> OutcomeView {
    match found {
        LocalTimes::Absent => OutcomeView {
            kind: InputType::DateTimeStr,
            output: None,
            advisory: Advisory::ZoneConversionFailed,
        },
        LocalTimes::Single(nanos) | LocalTimes::Ambiguous(nanos, _) => match nanos {
            Some(ns) => OutcomeView {
                kind: InputType::DateTimeStr,
                output: Some(int_decimal(quotient_toward_zero(ns as int, unit.spec_scale()))),
                advisory: Advisory::Clear,
            },
            None => OutcomeView {
                kind: InputType::DateTimeStr,
                output: None,
                advisory: Advisory::ResolutionFailed,
            },
        },
    }
}

/// The date and time that `chrono::NaiveDateTime::parse_from_str` reads from `text`
/// under `pattern`, or `None` where it reports an error.
pub uninterp spec fn parsed_datetime(text: Seq<char>, pattern: Seq<char>) -> Option<
    NaiveDateTime,
>;

/// What `chrono::DateTime::format` writes under `pattern` for the instant `secs`
/// seconds and `nsecs` nanoseconds after the epoch, taken as local time in a zone
/// that is `offset` seconds east of UTC at that instant.
pub uninterp spec fn rendered(secs: i64, nsecs: u32, offset: i32, pattern: Seq<char>) -> Seq<
    char,
>;

/// What `chrono::DateTime::timestamp_nanos_opt` gives for the instant at which a
/// zone `offset` seconds east of UTC shows the local date and time `at`: its
/// nanoseconds since the epoch, or `None` where they do not fit an `i64`.
pub uninterp spec fn instant_nanos(at: NaiveDateTime, offset: i32) -> Option<i64>;

/// Whether `found` can be what the time zone answers for the local date and time
/// `at`: every instant found lies at a valid offset and is the instant of `at` at
/// that offset.
pub open spec fn resolves(found: LocalTimes<(i32, Option<i64>)>, at: NaiveDateTime) -> bool {
    &&& found.offsets_valid()
    &&& match found {
        LocalTimes::Absent => true,
        LocalTimes::Single(a) => a.1 == instant_nanos(at, a.0),
        LocalTimes::Ambiguous(a, b) => a.1 == instant_nanos(at, a.0) && b.1 == instant_nanos(
            at,
            b.0,
        ),
    }
}

/// The outcome for the timestamp read from the trimmed text `t` in a zone that is
/// `offset` seconds east of UTC at its instant: the instant rendered at that
/// offset under the pattern for `t` and `unit`.
pub open spec fn stamp_at_offset(t: Seq<char>, unit: TimeUnit, offset: i32) -> OutcomeView {
    stamp_shown(
        rendered(
            reading(t)->secs,
            reading(t)->nanos,
            offset,
            stamp_pattern(t.len(), unit),
        ),
        t.len(),
    )
}

/// Whether `outcome` is a possible result of converting `input` with `unit`.
///
/// Where the text alone decides there is one result. A timestamp always has one
/// local time: the outcome shows its seconds and nanoseconds, rendered under the
/// pattern for its length and the unit at some valid offset, and that text has
/// the shape of a date and time. A date and time may have none, one or two
/// instants: the outcome is that of some answer in which every instant is the one
/// of the date and time read, at a valid offset.
pub open spec fn may_yield(input: Seq<char>, unit: TimeUnit, outcome: OutcomeView) -> bool {
    let t = trimmed(input);
    match reading(t) {
        Reading::Empty => outcome == empty_result(),
        Reading::Invalid => outcome == invalid_result(),
        Reading::Stamp { .. } => exists|offset: i32|
            {
                &&& valid_offset(offset)
                &&& outcome == #[trigger] stamp_at_offset(t, unit, offset)
                &&& outcome.output matches Some(text) && has_shape(
                    text,
                    stamp_pattern(t.len(), unit),
                )
            },
        Reading::Candidate => match parsed_datetime(t, pattern_ms()) {
            Some(at) => exists|found: LocalTimes<(i32, Option<i64>)>|
                resolves(found, at) && outcome == calendar_result(
                    #[trigger] found.spec_values(),
                    unit,
                ),
            None => outcome == invalid_result(),
        },
    }
}

/// Calls `chrono::NaiveDateTime::parse_from_str` and drops the error's detail.
/// The contract names the result: it claims only that equal text under an equal
/// pattern gives an equal result.
#[verifier::external_body]
fn parse_datetime(text: &str, pattern: &str) -> (r: Option<NaiveDateTime>)
    ensures
        r == parsed_datetime(text@, pattern@),
{
    NaiveDateTime::parse_from_str(text, pattern).ok()
}

/// Calls `chrono::TimeZone::timestamp_opt` on `chrono::Local` for the instant
/// `secs` seconds and `nsecs` nanoseconds after the epoch, and takes of each local
/// time found its offset from UTC (`DateTime::offset`,
/// `FixedOffset::local_minus_utc`) and its text under `pattern`
/// (`DateTime::format`).
///
/// Which offset is found depends on the machine's time zone. What is claimed
/// holds of every zone. There is exactly one local time: the instants admitted
/// are those of a timestamp read, between the years 1938 and 2286, which lie
/// inside `chrono`'s calendar, and for those `timestamp_opt` is documented to give
/// a single result. Its offset is less than a day. Its text is a function of the
/// instant, the offset and the pattern, which the contract names. And the text
/// has the shape that `chrono`'s table of format items gives for a year of four
/// digits, which a day's offset cannot take these instants out of. A pattern that
/// `chrono` cannot format makes the rendering panic: the patterns admitted are
/// the four that it can.
#[verifier::external_body]
fn local_text(secs: i64, nsecs: u32, pattern: &str) -> (r: LocalTimes<(i32, String)>)
    requires
        -1_000_000_000 < secs < 10_000_000_000,
        nsecs < 1_000_000_000,
        is_display_pattern(pattern@),
    ensures
        r is Single,
        valid_offset(r->Single_0.0),
        r->Single_0.1@ == rendered(secs, nsecs, r->Single_0.0, pattern@),
        has_shape(r->Single_0.1@, pattern@),
{
    match Local.timestamp_opt(secs, nsecs) {
        LocalResult::None => LocalTimes::Absent,
        LocalResult::Single(t) => LocalTimes::Single(
            (t.offset().local_minus_utc(), t.format(pattern).to_string()),
        ),
        LocalResult::Ambiguous(a, b) => LocalTimes::Ambiguous(
            (a.offset().local_minus_utc(), a.format(pattern).to_string()),
            (b.offset().local_minus_utc(), b.format(pattern).to_string()),
        ),
    }
}

/// Calls `chrono::TimeZone::from_local_datetime` on `chrono::Local` for the local
/// date and time `at`, and takes of each instant found its offset from UTC
/// (`DateTime::offset`, `FixedOffset::local_minus_utc`) and its nanoseconds since
/// the epoch (`DateTime::timestamp_nanos_opt`).
///
/// How many instants are found, and at which offsets, depends on the machine's
/// time zone. What is claimed holds of every zone: each offset is less than a
/// day, and the nanoseconds are a function of the date and time and the offset,
/// which the contract names.
#[verifier::external_body]
fn local_nanos(at: &NaiveDateTime) -> (r: LocalTimes<(i32, Option<i64>)>)
    ensures
        r.offsets_valid(),
        r is Single ==> r->Single_0.1 == instant_nanos(*at, r->Single_0.0),
        r is Ambiguous ==> r->Ambiguous_0.1 == instant_nanos(*at, r->Ambiguous_0.0),
        r is Ambiguous ==> r->Ambiguous_1.1 == instant_nanos(*at, r->Ambiguous_1.0),
{
    match Local.from_local_datetime(at) {
        LocalResult::None => LocalTimes::Absent,
        LocalResult::Single(t) => LocalTimes::Single(
            (t.offset().local_minus_utc(), t.timestamp_nanos_opt()),
        ),
        LocalResult::Ambiguous(a, b) => LocalTimes::Ambiguous(
            (a.offset().local_minus_utc(), a.timestamp_nanos_opt()),
            (b.offset().local_minus_utc(), b.timestamp_nanos_opt()),
        ),
    }
}

/// Ten to the power `e`, for `e` up to nine.
fn power_of_ten(e: usize) -> (r: u32)
    requires
        e <= 9,
    ensures
        r == pow10(e as nat),
{
    let mut r: u32 = 1;
    let mut k: usize = 0;
    proof {
        lemma_pow10_monotone(0, 9);
    }
    while k < e
        invariant
            k <= e <= 9,
            r == pow10(k as nat),
            r <= pow10(9),
        decreases e - k,
    {
        proof {
            lemma_pow10_monotone((k + 1) as nat, 9);
            reveal_with_fuel(pow10, 10);
        }
        r = r * 10;
        k += 1;
    }
    r
}

/// A `u32` numeral of `len` characters is worth less than ten to the `len`.
proof fn lemma_numeral_bound(s: Seq<char>)
    requires
        parse_u32(s) is Some,
    ensures
        parse_u32(s)->0 < pow10(s.len()),
{
    if s.len() > 0 && s[0] == '+' {
        lemma_digits_value_bound(s.skip(1));
        lemma_pow10_monotone((s.len() - 1) as nat, s.len());
    } else {
        lemma_digits_value_bound(s);
    }
}

/// An `i64` numeral of at most ten characters lies between minus and plus ten to
/// the tenth, the bounds left out, and far inside the years that a calendar knows.
proof fn lemma_seconds_bound(s: Seq<char>)
    requires
        s.len() <= 10,
        parse_i64(s) is Some,
    ensures
        -1_000_000_000 < parse_i64(s)->0 < 10_000_000_000,
{
    reveal_with_fuel(pow10, 11);
    if s[0] == '-' || s[0] == '+' {
        lemma_digits_value_bound(s.skip(1));
        lemma_pow10_monotone((s.len() - 1) as nat, 9);
    } else {
        lemma_digits_value_bound(s);
        lemma_pow10_monotone(s.len(), 10);
    }
}

/// The seconds of a timestamp read lie between minus ten to the ninth and ten to
/// the tenth, and its nanoseconds below ten to the ninth.
pub proof fn lemma_reading_bounds(t: Seq<char>)
    ensures
        reading(t) matches Reading::Stamp { secs, nanos } ==> -1_000_000_000 < secs
            < 10_000_000_000 && nanos < 1_000_000_000,
{
    if t.len() > 10 {
        if parse_i64(t.take(10)) is Some && parse_u32(t.skip(10)) is Some && t.len() <= 19 {
            lemma_seconds_bound(t.take(10));
            lemma_numeral_bound(t.skip(10));
            lemma_pow10_add((t.len() - 10) as nat, (19 - t.len()) as nat);
            lemma_pow10_monotone((19 - t.len()) as nat, 9);
            reveal_with_fuel(pow10, 10);
            let frac = parse_u32(t.skip(10))->0 as int;
            let width = pow10((t.len() - 10) as nat) as int;
            let shift = pow10((19 - t.len()) as nat) as int;
            assert(frac * shift < 1_000_000_000) by (nonlinear_arith)
                requires
                    0 <= frac < width,
                    width * shift == 1_000_000_000,
                    shift > 0,
            ;
        }
    } else if t.len() > 0 && parse_i64(t) is Some {
        lemma_seconds_bound(t);
    }
}

/// Reads trimmed text.
pub fn read_input(t: &Vec<char>) -> (r: Reading)
    ensures
        r == reading(t@),
        r matches Reading::Stamp { secs, nanos } ==> -1_000_000_000 < secs < 10_000_000_000
            && nanos < 1_000_000_000,
{
    proof {
        lemma_reading_bounds(t@);
    }
    let n = t.len();
    if n == 0 {
        Reading::Empty
    } else if n > 10 {
        assert(t@.take(10) == t@.subrange(0, 10));
        assert(t@.skip(10) == t@.subrange(10, n as int));
        match (read_i64(t, 0, 10), read_u32(t, 10, n)) {
            (Some(secs), Some(frac)) => {
                if n <= 19 {
                    let scale = power_of_ten(19 - n);
                    proof {
                        lemma_numeral_bound(t@.skip(10));
                        lemma_pow10_add((n - 10) as nat, (19 - n) as nat);
                        reveal_with_fuel(pow10, 10);
                        assert(frac * scale < pow10(9)) by (nonlinear_arith)
                            requires
                                frac < pow10((n - 10) as nat),
                                pow10((n - 10) as nat) * scale == pow10(9),
                                scale > 0,
                        ;
                    }
                    Reading::Stamp { secs, nanos: frac * scale }
                } else {
                    Reading::Candidate
                }
            },
            _ => Reading::Candidate,
        }
    } else {
        assert(t@ == t@.subrange(0, n as int));
        match read_i64(t, 0, n) {
            Some(secs) => Reading::Stamp { secs, nanos: 0 },
            None => Reading::Invalid,
        }
    }
}

/// The views of the texts in `found`.
pub open spec fn shown(found: LocalTimes<String>) -> LocalTimes<Seq<char>> {
    match found {
        LocalTimes::Absent => LocalTimes::Absent,
        LocalTimes::Single(a) => LocalTimes::Single(a@),
        LocalTimes::Ambiguous(a, b) => LocalTimes::Ambiguous(a@, b@),
    }
}

/// The outcome for a timestamp of `len` characters, given the local times found.
pub fn stamp_outcome(found: LocalTimes<String>, len: usize) -> (r: TimestampOutcome)
    ensures
        r@ == stamp_result(shown(found), len as nat),
{
    match found {
        LocalTimes::Absent => TimestampOutcome {
            kind: InputType::Timestamp,
            output: None,
            advisory: Advisory::ResolutionFailed,
        },
        LocalTimes::Single(text) | LocalTimes::Ambiguous(text, _) => TimestampOutcome {
            kind: InputType::Timestamp,
            output: Some(text),
            advisory: if len == 10 || len == 13 || len == 16 || len == 19 {
                Advisory::Clear
            } else {
                Advisory::NonStandardLength
            },
        },
    }
}

/// `nanos` in units of `unit`, rounded toward zero.
pub fn units_of(nanos: i64, unit: TimeUnit) -> (r: i64)
    ensures
        r == quotient_toward_zero(nanos as int, unit.spec_scale()),
{
    let scale = unit.scale();
    if nanos >= 0 {
        ((nanos as u64) / (scale as u64)) as i64
    } else if nanos == i64::MIN {
        let q: u64 = 0x8000_0000_0000_0000u64 / (scale as u64);
        if q == 0x8000_0000_0000_0000u64 {
            i64::MIN
        } else {
            -(q as i64)
        }
    } else {
        -((((-nanos) as u64) / (scale as u64)) as i64)
    }
}

/// The outcome for a date and time, given the instants found.
pub fn calendar_outcome(found: LocalTimes<Option<i64>>, unit: TimeUnit) -> (r: TimestampOutcome)
    ensures
        r@ == calendar_result(found, unit),
{
    match found {
        LocalTimes::Absent => TimestampOutcome {
            kind: InputType::DateTimeStr,
            output: None,
            advisory: Advisory::ZoneConversionFailed,
        },
        LocalTimes::Single(nanos) | LocalTimes::Ambiguous(nanos, _) => match nanos {
            Some(ns) => {
                let digits = decimal_chars(units_of(ns, unit));
                TimestampOutcome {
                    kind: InputType::DateTimeStr,
                    output: Some(string_of(&digits)),
                    advisory: Advisory::Clear,
                }
            },
            None => TimestampOutcome {
                kind: InputType::DateTimeStr,
                output: None,
                advisory: Advisory::ResolutionFailed,
            },
        },
    }
}

/// The converter of timestamps and local times. It keeps nothing between calls.
pub struct TimestampEngine;

impl TimestampEngine {
    /// Converts one line of input.
    ///
    /// White space only gives empty output and no note. A timestamp gives its local
    /// date and time, at the precision of `unit` where it has more than ten
    /// characters and to the second otherwise. A date and time gives its timestamp
    /// in `unit`. Anything else gives empty output and is reported as invalid.
    pub fn convert(input: &str, unit: TimeUnit) -> (r: TimestampOutcome)
        ensures
            may_yield(input@, unit, r@),
    {
        let chars = chars_of(input);
        let t = trim_chars(&chars);
        match read_input(&t) {
            Reading::Empty => TimestampOutcome {
                kind: InputType::Invalid,
                output: Some(String::new()),
                advisory: Advisory::Clear,
            },
            Reading::Invalid => TimestampOutcome {
                kind: InputType::Invalid,
                output: Some(String::new()),
                advisory: Advisory::InvalidInput,
            },
            Reading::Stamp { secs, nanos } => {
                let pattern = if t.len() > 10 {
                    unit.pattern()
                } else {
                    TimeUnit::Sec.pattern()
                };
                let found = local_text(secs, nanos, pattern);
                let ghost offset = found->Single_0.0;
                let r = stamp_outcome(found.values(), t.len());
                assert(r@ == stamp_at_offset(t@, unit, offset));
                r
            },
            Reading::Candidate => {
                let text = string_of(&t);
                match parse_datetime(text.as_str(), TimeUnit::Milli.pattern()) {
                    Some(at) => {
                        let found = local_nanos(&at);
                        let ghost answer = found;
                        let r = calendar_outcome(found.values(), unit);
                        assert(r@ == calendar_result(answer.spec_values(), unit));
                        r
                    },
                    None => TimestampOutcome {
                        kind: InputType::Invalid,
                        output: Some(String::new()),
                        advisory: Advisory::InvalidInput,
                    },
                }
            },
        }
    }
}

/// Calls `chrono::Local::now` and takes of the present moment its seconds and
/// nanoseconds since the epoch (`DateTime::timestamp`,
/// `DateTime::timestamp_subsec_nanos`), its offset from UTC (`DateTime::offset`,
/// `FixedOffset::local_minus_utc`) and its local date and time under `pattern`
/// (`DateTime::format`).
///
/// All four depend on the clock and the time zone. What is claimed holds of every
/// clock and zone. The seconds are those of a date whose days `chrono` counts in
/// an `i32`, so they lie well inside two hundred million million either way. The
/// nanoseconds are the fraction of a second that the system clock gives, below a
/// thousand million. The offset is less than a day. The text is what `chrono`
/// writes for that instant at that offset, which the contract names, and it is at
/// least as long as a date and time with a year of four digits, for `chrono`
/// writes no year with fewer.
#[verifier::external_body]
fn local_now(pattern: &str) -> (r: (i64, u32, i32, String))
    requires
        is_display_pattern(pattern@),
    ensures
        -200_000_000_000_000 < r.0 < 200_000_000_000_000,
        r.1 < 1_000_000_000,
        valid_offset(r.2),
        r.3@ == rendered(r.0, r.1, r.2, pattern@),
        r.3@.len() >= shown_length(pattern@),
{
    let now = Local::now();
    (
        now.timestamp(),
        now.timestamp_subsec_nanos(),
        now.offset().local_minus_utc(),
        now.format(pattern).to_string(),
    )
}

/// Whether `view` is a state in which the tool opens: the unit is milliseconds,
/// there is no note and no mark of a copy, and for some moment, at some valid
/// offset, the input is that moment's milliseconds since the epoch in decimal and
/// the text shown is its local date and time to the millisecond.
pub open spec fn opens_with_now(view: ConverterView) -> bool {
    &&& view.unit == TimeUnit::Milli
    &&& view.warning == Advisory::Clear
    &&& !view.copied
    &&& view.converted.len() >= 23
    &&& exists|secs: i64, nsecs: u32, offset: i32|
        {
            &&& valid_offset(offset)
            &&& nsecs < 1_000_000_000
            &&& view.input == int_decimal(secs * 1000 + nsecs / 1_000_000)
            &&& view.converted == #[trigger] rendered(secs, nsecs, offset, pattern_ms())
        }
}

/// The state of the timestamp tool: the line of input, the text shown for it, the
/// note beside the input, whether the text was just copied, and the unit chosen.
pub struct TimestampConverter {
    input: String,
    converted: String,
    format_warning: Advisory,
    copied_prompt: bool,
    unit: TimeUnit,
}

/// `TimestampConverter` with its texts as sequences of characters.
pub struct ConverterView {
    pub input: Seq<char>,
    pub converted: Seq<char>,
    pub warning: Advisory,
    pub copied: bool,
    pub unit: TimeUnit,
}

impl ConverterView {
    /// The state after a conversion that ended in `outcome`: the text shown is
    /// replaced where the outcome has one, the note is the outcome's, and the mark
    /// of a copy is gone.
    pub open spec fn after(self, outcome: OutcomeView) -> ConverterView {
        ConverterView {
            input: self.input,
            converted: match outcome.output {
                Some(text) => text,
                None => self.converted,
            },
            warning: outcome.advisory,
            copied: false,
            unit: self.unit,
        }
    }
}

impl View for TimestampConverter {
    type V = ConverterView;

    closed spec fn view(&self) -> ConverterView {
        ConverterView {
            input: self.input@,
            converted: self.converted@,
            warning: self.format_warning,
            copied: self.copied_prompt,
            unit: self.unit,
        }
    }
}

impl ToolItem for TimestampConverter {
    open spec fn spec_name(&self) -> Seq<char> {
        "时间戳转换"@
    }

    open spec fn spec_description(&self) -> Seq<char> {
        "将时间戳转换为可阅读模式，或反向转换"@
    }

    fn name(&self) -> (r: &str) {
        "时间戳转换"
    }

    fn description(&self) -> (r: &str) {
        "将时间戳转换为可阅读模式，或反向转换"
    }
}

impl Default for TimestampConverter {
    /// The tool as it opens: the present moment in milliseconds as input, and its
    /// local date and time to the millisecond as the text shown.
    fn default() -> (r: Self)
        ensures
            opens_with_now(r@),
    {
        let (secs, nsecs, offset, text) = local_now(TimeUnit::Milli.pattern());
        let millis: i64 = secs * 1000 + (nsecs / 1_000_000) as i64;
        proof {
            lemma_shown_lengths();
        }
        let r = TimestampConverter::seeded(millis, text);
        assert(r@.converted == rendered(secs, nsecs, offset, pattern_ms()));
        r
    }
}

impl TimestampConverter {
    /// The tool with the timestamp `millis`, in milliseconds, as input and `shown`
    /// as the text for it.
    pub fn seeded(millis: i64, shown: String) -> (r: Self)
        ensures
            r@ == (ConverterView {
                input: int_decimal(millis as int),
                converted: shown@,
                warning: Advisory::Clear,
                copied: false,
                unit: TimeUnit::Milli,
            }),
    {
        let digits = decimal_chars(millis);
        TimestampConverter {
            input: string_of(&digits),
            converted: shown,
            format_warning: Advisory::Clear,
            copied_prompt: false,
            unit: TimeUnit::Milli,
        }
    }

    /// The line of input.
    pub fn input(&self) -> (r: &str)
        ensures
            r@ == self@.input,
    {
        self.input.as_str()
    }

    /// The text shown for the input: what a copy takes.
    pub fn converted(&self) -> (r: &str)
        ensures
            r@ == self@.converted,
    {
        self.converted.as_str()
    }

    /// The note beside the input.
    pub fn advisory(&self) -> (r: Advisory)
        ensures
            r == self@.warning,
    {
        self.format_warning
    }

    /// The words of the note beside the input; empty where there is none.
    pub fn format_warning(&self) -> (r: &'static str)
        ensures
            r@ == self@.warning.spec_message(),
    {
        self.format_warning.message()
    }

    /// Whether the text shown was copied since the last change.
    pub fn copied(&self) -> (r: bool)
        ensures
            r == self@.copied,
    {
        self.copied_prompt
    }

    /// The words that confirm a copy; empty where none was made.
    pub fn copied_prompt(&self) -> (r: &'static str)
        ensures
            r@ == copied_words(self@.copied),
    {
        if self.copied_prompt {
            "已复制"
        } else {
            ""
        }
    }

    /// The unit chosen.
    pub fn unit(&self) -> (r: TimeUnit)
        ensures
            r == self@.unit,
    {
        self.unit
    }

    /// Replaces the line of input.
    pub fn set_input(&mut self, input: String)
        ensures
            final(self)@ == (ConverterView { input: input@, ..old(self)@ }),
    {
        self.input = input;
    }

    /// Chooses the unit.
    pub fn set_unit(&mut self, unit: TimeUnit)
        ensures
            final(self)@ == (ConverterView { unit, ..old(self)@ }),
    {
        self.unit = unit;
    }

    /// Empties the line of input and takes the note away. The text shown stays.
    pub fn clear_input(&mut self)
        ensures
            final(self)@ == (ConverterView {
                input: Seq::empty(),
                warning: Advisory::Clear,
                ..old(self)@
            }),
    {
        self.input = String::new();
        self.format_warning = Advisory::Clear;
    }

    /// Records that the text shown was copied.
    pub fn mark_copied(&mut self)
        ensures
            final(self)@ == (ConverterView { copied: true, ..old(self)@ }),
    {
        self.copied_prompt = true;
    }

    /// Takes over the outcome of a conversion.
    pub fn apply(&mut self, outcome: TimestampOutcome)
        ensures
            final(self)@ == old(self)@.after(outcome@),
    {
        match outcome.output {
            Some(text) => {
                self.converted = text;
            },
            None => {},
        }
        self.format_warning = outcome.advisory;
        self.copied_prompt = false;
    }

    /// Converts the line of input with the unit chosen, and takes over the outcome.
    /// This is what a change of the input or of the unit sets off.
    pub fn convert(&mut self)
        ensures
            exists|outcome: OutcomeView|
                may_yield(old(self)@.input, old(self)@.unit, outcome) && final(self)@ == old(
                    self,
                )@.after(outcome),
    {
        let outcome = TimestampEngine::convert(self.input.as_str(), self.unit);
        self.apply(outcome);
    }
}

/// A timestamp written with the digits of its unit and no sign.
///
/// Text of 10, 13, 16 or 19 digits is a timestamp. Its instant, counted in
/// nanoseconds, is the number written times the scale of the unit that has this
/// many digits: splitting the text into seconds and a fraction loses nothing, and
/// dividing by the scale gives the number back.
pub proof fn lemma_standard_stamp_scales_back(t: Seq<char>, unit: TimeUnit)
    requires
        all_digits(t),
        t.len() == unit.spec_digits(),
    ensures
        reading(t) matches Reading::Stamp { secs, nanos } && 0 <= secs && nanos < 1_000_000_000
            && secs * 1_000_000_000 + nanos == digits_value(t) * unit.spec_scale()
            && quotient_toward_zero(secs * 1_000_000_000 + nanos, unit.spec_scale())
            == digits_value(t),
{
    let n = t.len();
    let head = t.take(10);
    let tail = t.skip(10);
    assert(all_digits(head)) by {
        assert forall|i: int| 0 <= i < head.len() implies is_digit(#[trigger] head[i]) by {
            assert(head[i] == t[i]);
        }
    }
    assert(all_digits(tail)) by {
        assert forall|i: int| 0 <= i < tail.len() implies is_digit(#[trigger] tail[i]) by {
            assert(tail[i] == t[i + 10]);
        }
    }
    lemma_digits_value_bound(head);
    lemma_digits_value_bound(tail);
    lemma_digits_value_split(t, 10);
    lemma_pow10_add((n - 10) as nat, (19 - n) as nat);
    reveal_with_fuel(pow10, 11);
    let h = digits_value(head) as int;
    let f = digits_value(tail) as int;
    let scale = unit.spec_scale();
    let width = pow10((n - 10) as nat) as int;
    assert(width * scale == 1_000_000_000);
    assert(is_digit(head[0]));
    assert(parse_i64(head) == Some(h as i64));
    if n == 10 {
        assert(head == t);
        assert(reading(t) == Reading::Stamp { secs: h as i64, nanos: 0 });
    } else {
        assert(is_digit(tail[0]));
        assert(parse_u32(tail) == Some(f as u32));
        assert(f * scale < 1_000_000_000) by (nonlinear_arith)
            requires
                0 <= f < width,
                width * scale == 1_000_000_000,
                scale > 0,
        ;
        assert(reading(t) == Reading::Stamp { secs: h as i64, nanos: (f * scale) as u32 });
    }
    assert(h * 1_000_000_000 + f * scale == (h * width + f) * scale) by (nonlinear_arith)
        requires
            width * scale == 1_000_000_000,
    ;
    assert(((h * width + f) * scale) / scale == h * width + f) by (nonlinear_arith)
        requires
            scale > 0,
    ;
}

/// A timestamp shown and read back, as far as it lies with this library.
///
/// Take a timestamp written with the digits of its unit, without sign or leading
/// zero, whose instant in nanoseconds fits an `i64`. Where the date and time shown
/// for it is resolved to that same instant again, converting back in the same
/// unit gives the text that was written.
pub proof fn lemma_stamp_round_trip(t: Seq<char>, unit: TimeUnit)
    requires
        all_digits(t),
        t.len() == unit.spec_digits(),
        t[0] != '0',
        digits_value(t) * unit.spec_scale() <= i64::MAX,
    ensures
        reading(t) matches Reading::Stamp { secs, nanos } && calendar_result(
            LocalTimes::Single(Some((secs * 1_000_000_000 + nanos) as i64)),
            unit,
        ) == (OutcomeView {
            kind: InputType::DateTimeStr,
            output: Some(t),
            advisory: Advisory::Clear,
        }),
{
    lemma_standard_stamp_scales_back(t, unit);
    lemma_decimal_of_digits(t);
}

/// A timestamp shown, and the text shown converted back.
///
/// Take a timestamp written with the digits of its unit, without sign or leading
/// zero, whose instant in nanoseconds fits an `i64`, and the text that shows it at
/// some offset. Suppose that `chrono` reads that text as a date and time, and
/// that this date and time at the same offset is the instant it was written for:
/// this is `chrono`'s part, which nothing here proves. Then converting the text
/// shown in any unit has as an outcome the instant's nanoseconds divided by that
/// unit's scale, rounded toward zero; in the unit the timestamp was written in,
/// that is the text written first. It is the outcome whenever the zone answers
/// with that one offset.
pub proof fn lemma_shown_and_read_back(
    t: Seq<char>,
    unit: TimeUnit,
    offset: i32,
    at: NaiveDateTime,
    back_unit: TimeUnit,
)
    requires
        all_digits(t),
        t.len() == unit.spec_digits(),
        t[0] != '0',
        digits_value(t) * unit.spec_scale() <= i64::MAX,
        valid_offset(offset),
        stamp_at_offset(t, unit, offset).output matches Some(shown) && has_shape(
            shown,
            stamp_pattern(t.len(), unit),
        ) && parsed_datetime(shown, pattern_ms()) == Some(at) && instant_nanos(at, offset) == Some(
            (digits_value(t) * unit.spec_scale()) as i64,
        ),
    ensures
        stamp_at_offset(t, unit, offset).output matches Some(shown) && may_yield(
            shown,
            back_unit,
            OutcomeView {
                kind: InputType::DateTimeStr,
                output: Some(
                    int_decimal(
                        quotient_toward_zero(
                            digits_value(t) * unit.spec_scale(),
                            back_unit.spec_scale(),
                        ),
                    ),
                ),
                advisory: Advisory::Clear,
            },
        ),
        int_decimal(quotient_toward_zero(digits_value(t) * unit.spec_scale(), unit.spec_scale()))
            == t,
{
    lemma_standard_stamp_scales_back(t, unit);
    lemma_stamp_round_trip(t, unit);
    let shown = stamp_at_offset(t, unit, offset).output->0;
    lemma_shown_text_is_candidate(shown, stamp_pattern(t.len(), unit));
    let found: LocalTimes<(i32, Option<i64>)> = LocalTimes::Single(
        (offset, instant_nanos(at, offset)),
    );
    assert(resolves(found, at));
    let total = digits_value(t) * unit.spec_scale();
    let back = OutcomeView {
        kind: InputType::DateTimeStr,
        output: Some(int_decimal(quotient_toward_zero(total, back_unit.spec_scale()))),
        advisory: Advisory::Clear,
    };
    assert(back == calendar_result(found.spec_values(), back_unit));
}

/// Input that is nothing but white space gives empty output and no note,
/// whatever the unit.
pub proof fn lemma_blank_input(input: Seq<char>, unit: TimeUnit, outcome: OutcomeView)
    requires
        trimmed(input).len() == 0,
        may_yield(input, unit, outcome),
    ensures
        outcome.output == Some(Seq::<char>::empty()),
        outcome.advisory == Advisory::Clear,
{
}

/// Input that is not white space only, has at most ten characters between its
/// white space and is no integer gives empty output and is reported as invalid.
pub proof fn lemma_short_invalid_input(input: Seq<char>, unit: TimeUnit, outcome: OutcomeView)
    requires
        0 < trimmed(input).len() <= 10,
        parse_i64(trimmed(input)) is None,
        may_yield(input, unit, outcome),
    ensures
        outcome.kind == InputType::Invalid,
        outcome.output == Some(Seq::<char>::empty()),
        outcome.advisory == Advisory::InvalidInput,
{
}

/// A timestamp always gives output: a text in the shape of a date and time, as
/// long as the pattern for the timestamp's length and the unit makes it. A length
/// that is not standard is reported beside it, and the note is there exactly for
/// such a length.
pub proof fn lemma_stamp_gives_output(input: Seq<char>, unit: TimeUnit, outcome: OutcomeView)
    requires
        reading(trimmed(input)) is Stamp,
        may_yield(input, unit, outcome),
    ensures
        outcome.kind == InputType::Timestamp,
        outcome.output matches Some(text) && has_shape(
            text,
            stamp_pattern(trimmed(input).len(), unit),
        ),
        standard_length(trimmed(input).len()) ==> outcome.advisory == Advisory::Clear,
        !standard_length(trimmed(input).len()) ==> outcome.advisory
            == Advisory::NonStandardLength,
{
}

/// A timestamp of ten characters is shown to the second whatever the unit, in
/// nineteen characters and without a note.
pub proof fn lemma_ten_characters_shown_to_the_second(
    input: Seq<char>,
    unit: TimeUnit,
    outcome: OutcomeView,
)
    requires
        trimmed(input).len() == 10,
        parse_i64(trimmed(input)) is Some,
        may_yield(input, unit, outcome),
    ensures
        outcome.kind == InputType::Timestamp,
        outcome.advisory == Advisory::Clear,
        outcome.output matches Some(text) && text.len() == 19 && has_shape(text, pattern_s()),
{
    lemma_shown_lengths();
}

/// A text in the shape of a date and time is never taken for a timestamp or for
/// nothing: it is long, and its first ten characters, with `-` among them, are no
/// integer. So the text shown for a timestamp, given back as input, is read as a
/// date and time or not at all.
pub proof fn lemma_shown_text_is_candidate(text: Seq<char>, pattern: Seq<char>)
    requires
        has_shape(text, pattern),
    ensures
        trimmed(text) == text,
        reading(trimmed(text)) is Candidate,
{
    assert(is_digit(text[0]));
    assert(is_digit(text[text.len() - 1]));
    lemma_trimmed_identity(text);
    let head = text.take(10);
    assert(head[4] == text[4]);
    assert(!is_digit(head[4]));
    assert(head[0] == text[0]);
    assert(!all_digits(head));
    assert(parse_i64(head) is None);
}

} // verus!
