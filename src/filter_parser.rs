use vstd::prelude::*;
use crate::chat_types::{ChatId, ChatPattern, ChatType};
use crate::messages::UtcTime;
use crate::text::{chars_of, i64_text_value, lowercase, lower_of, parse_i64, str_eq, string_from_chars, trim_of, trimmed};

verus! {

/// Why a filter could not be parsed.
#[derive(Debug, Clone, Copy, PartialEq, Eq, Structural)]
pub enum FilterError {
    /// The chat type is none of direct, dm, group or channel.
    InvalidChatType,
}

/// The position of the first `c` in `s`, or the length of `s` when there is none.
pub open spec fn index_of(s: Seq<char>, c: char) -> int
    decreases s.len(),
{
    if s.len() == 0 {
        0
    } else if s[0] == c {
        0
    } else {
        1 + index_of(s.subrange(1, s.len() as int), c)
    }
}

/// Whether every character is a decimal digit or a minus sign, as chat
/// identifiers are written.
pub open spec fn is_id_text(s: Seq<char>) -> bool {
    forall|i: int| 0 <= i < s.len() ==> ('0' <= #[trigger] s[i] <= '9' || s[i] == '-')
}

/// Whether `p` is what the chat pattern text `s` denotes: `*` selects every
/// chat, identifier text selects a chat by identifier, anything else by name.
pub open spec fn parsed_pattern(p: ChatPattern, s: Seq<char>) -> bool {
    if s == "*"@ {
        p is All
    } else if is_id_text(s) {
        p matches ChatPattern::Id(id) && id@ == s
    } else {
        p matches ChatPattern::Name(n) && n@ == s
    }
}

/// Whether `src` is what the source text `s` denotes: `*` means any source.
pub open spec fn parsed_source(src: Option<String>, s: Seq<char>) -> bool {
    if s == "*"@ {
        src is None
    } else {
        src matches Some(x) && x@ == s
    }
}

/// The chat type that a lower-cased type name denotes, if any.
pub open spec fn chat_type_named(s: Seq<char>) -> Option<ChatType> {
    if s == "direct"@ || s == "dm"@ {
        Some(ChatType::DirectMessage)
    } else if s == "group"@ {
        Some(ChatType::Group)
    } else if s == "channel"@ {
        Some(ChatType::Channel)
    } else {
        None
    }
}

/// Whether every character of `s` is a digit or a minus sign.
fn all_id_chars(s: &str) -> (r: bool)
    ensures
        r == is_id_text(s@),
{
    let n = s.unicode_len();
    let mut i: usize = 0;
    while i < n
        invariant
            n == s@.len(),
            i <= n,
            forall|j: int| 0 <= j < i ==> ('0' <= #[trigger] s@[j] <= '9' || s@[j] == '-'),
        decreases n - i,
    {
        let c = s.get_char(i);
        if !(('0' <= c && c <= '9') || c == '-') {
            return false;
        }
        i += 1;
    }
    true
}

/// Parses a chat pattern: `*` is every chat, text of digits and minus signs
/// is a chat identifier, anything else is a name.
pub fn parse_chat_pattern(pattern: &str) -> (r: ChatPattern)
    ensures
        parsed_pattern(r, pattern@),
{
    if str_eq(pattern, "*") {
        ChatPattern::All
    } else if all_id_chars(pattern) {
        ChatPattern::Id(ChatId::new(pattern))
    } else {
        ChatPattern::Name(pattern.to_owned())
    }
}

/// The position of the first `:` in `s`, or its length when there is none.
fn colon_index(s: &str) -> (r: usize)
    ensures
        r as int == index_of(s@, ':'),
        r <= s@.len(),
{
    let n = s.unicode_len();
    let mut i: usize = 0;
    assert(s@.subrange(0, n as int) =~= s@);
    while i < n
        invariant
            n == s@.len(),
            i <= n,
            index_of(s@, ':') == i + index_of(s@.subrange(i as int, n as int), ':'),
        decreases n - i,
    {
        if s.get_char(i) == ':' {
            return i;
        }
        assert(s@.subrange(i as int, n as int).subrange(1, n - i) =~= s@.subrange(i + 1, n as int));
        i += 1;
    }
    i
}

/// Parses a `source:pattern` filter. The text before the first colon names
/// the source (`*` for any), the rest is a chat pattern; without a colon the
/// whole text is a chat pattern for any source. Every text is accepted.
pub fn parse_source_filter(input: &str) -> (r: Result<(Option<String>, ChatPattern), FilterError>)
    ensures
        r matches Ok((src, pat)) && {
            let k = index_of(input@, ':');
            if k < input@.len() {
                &&& parsed_source(src, input@.subrange(0, k))
                &&& parsed_pattern(pat, input@.subrange(k + 1, input@.len() as int))
            } else {
                &&& src is None
                &&& parsed_pattern(pat, input@)
            }
        },
{
    let n = input.unicode_len();
    let k = colon_index(input);
    if k < n {
        let source = input.substring_char(0, k);
        let pattern = input.substring_char(k + 1, n);
        let source_id = if str_eq(source, "*") {
            None
        } else {
            Some(source.to_owned())
        };
        Ok((source_id, parse_chat_pattern(pattern)))
    } else {
        Ok((None, parse_chat_pattern(input)))
    }
}

/// Reads a lower-cased chat type name: direct or dm, group, channel.
pub fn chat_type_from_lowered(lower: &str) -> (r: Result<ChatType, FilterError>)
    ensures
        r == match chat_type_named(lower@) {
            Some(t) => Ok(t),
            None => Err(FilterError::InvalidChatType),
        },
{
    if str_eq(lower, "direct") || str_eq(lower, "dm") {
        Ok(ChatType::DirectMessage)
    } else if str_eq(lower, "group") {
        Ok(ChatType::Group)
    } else if str_eq(lower, "channel") {
        Ok(ChatType::Channel)
    } else {
        Err(FilterError::InvalidChatType)
    }
}

/// Parses a chat type name, ignoring case: direct or dm, group, channel.
pub fn parse_chat_type(type_str: &str) -> (r: Result<ChatType, FilterError>)
    ensures
        r == match chat_type_named(lower_of(type_str@)) {
            Some(t) => Ok(t),
            None => Err(FilterError::InvalidChatType),
        },
{
    let lower = lowercase(type_str);
    chat_type_from_lowered(lower.as_str())
}

/// The unit of a relative time.
#[derive(Debug, Clone, Copy, PartialEq, Eq, Structural)]
pub enum TimeUnit {
    Seconds,
    Minutes,
    Hours,
    Days,
    Weeks,
}

/// A span back from now: a count of units.
#[derive(Debug, Clone, Copy, PartialEq, Eq, Structural)]
pub struct RelativeTime {
    pub amount: i64,
    pub unit: TimeUnit,
}

/// The number of seconds in a unit.
pub open spec fn unit_seconds(u: TimeUnit) -> int {
    match u {
        TimeUnit::Seconds => 1,
        TimeUnit::Minutes => 60,
        TimeUnit::Hours => 3600,
        TimeUnit::Days => 86400,
        TimeUnit::Weeks => 604800,
    }
}

/// The unit that a suffix letter names.
pub open spec fn unit_named(c: char) -> Option<TimeUnit> {
    if c == 's' {
        Some(TimeUnit::Seconds)
    } else if c == 'm' {
        Some(TimeUnit::Minutes)
    } else if c == 'h' {
        Some(TimeUnit::Hours)
    } else if c == 'd' {
        Some(TimeUnit::Days)
    } else if c == 'w' {
        Some(TimeUnit::Weeks)
    } else {
        None
    }
}

/// What a relative time such as `7d` denotes: after trimming, a signed
/// integer followed by one of the letters s, m, h, d, w.
pub open spec fn relative_time_of(s: Seq<char>) -> Option<RelativeTime> {
    let t = trim_of(s);
    if t.len() == 0 {
        None
    } else {
        match (i64_text_value(t.drop_last()), unit_named(t.last())) {
            (Some(n), Some(u)) => Some(RelativeTime { amount: n, unit: u }),
            _ => None,
        }
    }
}

/// Parses a relative time such as `7d`, `2h`, `30m` or `60s`.
pub fn parse_relative_time(spec: &str) -> (r: Option<RelativeTime>)
    ensures
        r == relative_time_of(spec@),
{
    let t = chars_of(trimmed(spec).as_str());
    let n = t.len();
    if n == 0 {
        return None;
    }
    let last = t[n - 1];
    let unit = if last == 's' {
        TimeUnit::Seconds
    } else if last == 'm' {
        TimeUnit::Minutes
    } else if last == 'h' {
        TimeUnit::Hours
    } else if last == 'd' {
        TimeUnit::Days
    } else if last == 'w' {
        TimeUnit::Weeks
    } else {
        return None;
    };
    let digits = string_from_chars(&t.as_slice()[0..n - 1]);
    proof {
        assert(t@.subrange(0, n - 1) =~= t@.drop_last());
    }
    match parse_i64(digits.as_str()) {
        Some(amount) => Some(RelativeTime { amount, unit }),
        None => None,
    }
}

/// Why a time specification is refused.
#[derive(Debug, Clone, Copy, PartialEq, Eq, Structural)]
pub enum TimeSpecError {
    /// The text is neither a relative time, an RFC 3339 date and time, nor a date.
    Invalid,
}

/// What `DateTime::parse_from_rfc3339` reads from a text, as seconds since
/// the epoch and nanoseconds.
pub uninterp spec fn rfc3339_instant(s: Seq<char>) -> Option<(i64, u32)>;

/// What `NaiveDate::parse_from_str` with `%Y-%m-%d` reads from a text, as
/// the seconds since the epoch of that day's midnight in UTC.
pub uninterp spec fn date_midnight(s: Seq<char>) -> Option<i64>;

/// Relies on chrono's `DateTime::parse_from_rfc3339`, read back with
/// `timestamp` and `timestamp_subsec_nanos`; the result depends on the text alone.
#[verifier::external_body]
fn rfc3339_parts(s: &str) -> (r: Option<(i64, u32)>)
    ensures
        r == rfc3339_instant(s@),
{
    match chrono::DateTime::parse_from_rfc3339(s) {
        Ok(dt) => Some((dt.timestamp(), dt.timestamp_subsec_nanos())),
        Err(_) => None,
    }
}

/// Relies on chrono's `NaiveDate::parse_from_str` with `%Y-%m-%d`, read back
/// as the timestamp of midnight UTC; the result depends on the text alone.
#[verifier::external_body]
fn date_parts(s: &str) -> (r: Option<i64>)
    ensures
        r == date_midnight(s@),
{
    match chrono::NaiveDate::parse_from_str(s, "%Y-%m-%d") {
        Ok(d) => Some(d.and_time(chrono::NaiveTime::MIN).and_utc().timestamp()),
        Err(_) => None,
    }
}

/// Relies on chrono's `Utc::now`, read back with `timestamp` and
/// `timestamp_subsec_nanos`: the clock, of which nothing is stated.
#[verifier::external_body]
fn clock_parts() -> (r: (i64, u32)) {
    let now = chrono::Utc::now();
    (now.timestamp(), now.timestamp_subsec_nanos())
}

/// The time that seconds and nanoseconds since the epoch denote.
pub open spec fn time_of(secs: i64, nanos: u32) -> UtcTime {
    UtcTime { unix_nanos: (secs as int * 1_000_000_000 + nanos as int) as i128 }
}

/// What a time specification denotes at time `now`: a relative time counts
/// back from `now`; otherwise an RFC 3339 date and time; otherwise a date,
/// at midnight UTC.
pub open spec fn time_spec_at(s: Seq<char>, now: UtcTime) -> Option<UtcTime> {
    match relative_time_of(s) {
        Some(rt) => Some(
            UtcTime {
                unix_nanos: (now.unix_nanos - rt.amount * unit_seconds(rt.unit) * 1_000_000_000) as i128,
            },
        ),
        None => match rfc3339_instant(s) {
            Some(p) => Some(time_of(p.0, p.1)),
            None => match date_midnight(s) {
                Some(d) => Some(time_of(d, 0)),
                None => None,
            },
        },
    }
}

/// The time `secs` seconds and `nanos` nanoseconds after the epoch.
fn time_from_parts(secs: i64, nanos: u32) -> (r: UtcTime)
    ensures
        r == time_of(secs, nanos),
{
    UtcTime { unix_nanos: (secs as i128) * 1_000_000_000 + (nanos as i128) }
}

/// The seconds in a unit.
fn seconds_in(u: TimeUnit) -> (r: i128)
    ensures
        r == unit_seconds(u),
{
    match u {
        TimeUnit::Seconds => 1,
        TimeUnit::Minutes => 60,
        TimeUnit::Hours => 3600,
        TimeUnit::Days => 86400,
        TimeUnit::Weeks => 604800,
    }
}

/// Parses a time specification, counting relative times back from `now`.
pub fn parse_time_spec_at(spec: &str, now: UtcTime) -> (r: Result<UtcTime, TimeSpecError>)
    requires
        i128::MIN / 2 <= now.unix_nanos <= i128::MAX / 2,
    ensures
        r == match time_spec_at(spec@, now) {
            Some(t) => Ok(t),
            None => Err(TimeSpecError::Invalid),
        },
{
    match parse_relative_time(spec) {
        Some(rt) => {
            let secs = seconds_in(rt.unit);
            assert(-0x8000_0000_0000_0000 <= rt.amount <= 0x7fff_ffff_ffff_ffff);
            assert(rt.amount * secs <= 0x7fff_ffff_ffff_ffff * 604800) by (nonlinear_arith)
                requires
                    rt.amount <= 0x7fff_ffff_ffff_ffff,
                    1 <= secs <= 604800,
                    rt.amount >= 0 || rt.amount < 0,
            ;
            assert(rt.amount * secs >= -0x8000_0000_0000_0000 * 604800) by (nonlinear_arith)
                requires
                    rt.amount >= -0x8000_0000_0000_0000,
                    1 <= secs <= 604800,
            ;
            let span: i128 = (rt.amount as i128) * secs * 1_000_000_000;
            Ok(UtcTime { unix_nanos: now.unix_nanos - span })
        },
        None => match rfc3339_parts(spec) {
            Some(p) => Ok(time_from_parts(p.0, p.1)),
            None => match date_parts(spec) {
                Some(d) => Ok(time_from_parts(d, 0)),
                None => Err(TimeSpecError::Invalid),
            },
        },
    }
}

/// The current time, as the clock gives it.
pub fn current_time() -> (r: UtcTime)
    ensures
        i128::MIN / 2 <= r.unix_nanos <= i128::MAX / 2,
{
    let (secs, nanos) = clock_parts();
    time_from_parts(secs, nanos)
}

/// Parses a time specification, counting relative times back from the
/// current time: `7d`, `2h`, `30m`, `60s`, `2025-01-15T14:30:00Z` or `2025-01-15`.
pub fn parse_time_spec(spec: &str) -> (r: Result<UtcTime, TimeSpecError>)
    ensures
        exists|now: UtcTime| r == match #[trigger] time_spec_at(spec@, now) {
            Some(t) => Ok(t),
            None => Err(TimeSpecError::Invalid),
        },
{
    let now = current_time();
    let r = parse_time_spec_at(spec, now);
    assert(r == match time_spec_at(spec@, now) {
        Some(t) => Ok(t),
        None => Err(TimeSpecError::Invalid),
    });
    r
}

/// What `humantime::parse_duration` reads from a text, as whole seconds and
/// the nanoseconds beyond them.
pub uninterp spec fn humantime_span(s: Seq<char>) -> Option<(u64, u32)>;

/// The number of decimal digits in a text.
pub open spec fn digit_count(s: Seq<char>) -> nat
    decreases s.len(),
{
    if s.len() == 0 {
        0
    } else {
        digit_count(s.drop_last()) + if '0' <= s.last() <= '9' { 1nat } else { 0nat }
    }
}

/// The most digits a span may hold. humantime sums its spans in seconds with
/// checked arithmetic but builds the total with `Duration::new`, which
/// panics when the seconds are at their largest; with at most this many
/// digits (white space may join them into one number) every number is below
/// 10^11, every span below 10^11 years, and the sum stays far below that.
pub const MAX_SPAN_DIGITS: usize = 11;

/// The number of decimal digits in `s`.
fn count_digits(s: &str) -> (r: usize)
    ensures
        r == digit_count(s@),
{
    let v = chars_of(s);
    let mut n: usize = 0;
    let mut i: usize = 0;
    assert(v@.subrange(0, 0) =~= Seq::<char>::empty());
    while i < v.len()
        invariant
            v@ == s@,
            i <= v@.len(),
            n == digit_count(v@.subrange(0, i as int)),
            n <= i,
        decreases v@.len() - i,
    {
        assert(v@.subrange(0, i + 1).drop_last() =~= v@.subrange(0, i as int));
        if '0' <= v[i] && v[i] <= '9' {
            n += 1;
        }
        i += 1;
    }
    assert(v@.subrange(0, i as int) =~= v@);
    n
}

/// Relies on `humantime::parse_duration`, read back with `Duration::as_secs`
/// and `Duration::subsec_nanos`; the result depends on the text alone, and
/// the nanoseconds stay below one second. Texts with more digits than
/// `MAX_SPAN_DIGITS` are kept away from it (see there).
#[verifier::external_body]
fn human_span(s: &str) -> (r: Option<(u64, u32)>)
    requires
        digit_count(s@) <= MAX_SPAN_DIGITS,
    ensures
        r == humantime_span(s@),
        r matches Some(p) ==> p.1 < 1_000_000_000,
{
    match humantime::parse_duration(s) {
        Ok(d) => Some((d.as_secs(), d.subsec_nanos())),
        Err(_) => None,
    }
}

/// The largest span chrono's `TimeDelta` holds: `i64::MAX` milliseconds.
pub open spec fn fits_time_delta(secs: u64, nanos: u32) -> bool {
    secs < 9_223_372_036_854_775 || (secs == 9_223_372_036_854_775 && nanos <= 807_000_000)
}

/// Whether a span converts to chrono's `TimeDelta`, as `TimeDelta::from_std`
/// decides: at most `i64::MAX` milliseconds.
fn converts_to_time_delta(secs: u64, nanos: u32) -> (r: bool)
    ensures
        r == fits_time_delta(secs, nanos),
{
    secs < 9_223_372_036_854_775 || (secs == 9_223_372_036_854_775 && nanos <= 807_000_000)
}

/// Why a time given to the Telegram commands is refused.
#[derive(Debug, Clone, Copy, PartialEq, Eq, Structural)]
pub enum TimeError {
    /// The span is longer than a time difference can be.
    DurationTooLarge,
    /// The span is written with more digits than are read.
    TooManyDigits,
    /// The text is neither an RFC 3339 date and time nor a span such as `2days`.
    Invalid,
}

/// What a time given to the Telegram commands denotes at time `now`: an
/// RFC 3339 date and time, or else a span that humantime reads, counted back
/// from `now`; a span with too many digits is refused.
pub open spec fn command_time_at(s: Seq<char>, now: UtcTime) -> Result<UtcTime, TimeError> {
    match rfc3339_instant(s) {
        Some(p) => Ok(time_of(p.0, p.1)),
        None => if digit_count(s) > MAX_SPAN_DIGITS {
            Err(TimeError::TooManyDigits)
        } else {
            match humantime_span(s) {
            Some(d) => if fits_time_delta(d.0, d.1) {
                Ok(
                    UtcTime {
                        unix_nanos: (now.unix_nanos - (d.0 as int * 1_000_000_000 + d.1 as int)) as i128,
                    },
                )
            } else {
                Err(TimeError::DurationTooLarge)
            },
            None => Err(TimeError::Invalid),
            }
        },
    }
}

/// Reads a time given to the Telegram commands, counting spans back from `now`.
pub fn parse_time_at(time_str: &str, now: UtcTime) -> (r: Result<UtcTime, TimeError>)
    requires
        i128::MIN / 2 <= now.unix_nanos <= i128::MAX / 2,
    ensures
        r == command_time_at(time_str@, now),
{
    if let Some(p) = rfc3339_parts(time_str) {
        return Ok(time_from_parts(p.0, p.1));
    }
    if count_digits(time_str) > MAX_SPAN_DIGITS {
        return Err(TimeError::TooManyDigits);
    }
    match human_span(time_str) {
        Some(d) => {
            if !converts_to_time_delta(d.0, d.1) {
                return Err(TimeError::DurationTooLarge);
            }
            let span: i128 = (d.0 as i128) * 1_000_000_000 + (d.1 as i128);
            Ok(UtcTime { unix_nanos: now.unix_nanos - span })
        },
        None => Err(TimeError::Invalid),
    }
}

/// Reads a time given to the Telegram commands, counting spans back from
/// the current time.
pub fn parse_time(time_str: &str) -> (r: Result<UtcTime, TimeError>)
    ensures
        exists|now: UtcTime| r == #[trigger] command_time_at(time_str@, now),
{
    let now = current_time();
    parse_time_at(time_str, now)
}

} // verus!
