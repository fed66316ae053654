//! The date humanizer: `helper` renders a point in time as a natural
//! language phrase relative to the current instant, such as "2 hours ago"
//! or "in 3 days".

use vstd::prelude::*;
use vstd::string::StringExecFns;
use crate::command::{Category, Command, Example, Signature};
use crate::dates::{CLOCK_BOUND, date_from_parsed, now_epoch_seconds, parse_date_spec,
    parse_date_str};
use crate::pipeline::{PipelineData, map_pipeline, pipeline_wf};
use crate::value::{Date, ShellError, Span, Value, value_wf};

verus! {

/// Largest magnitude a signed offset between a well-formed date and the
/// clock can reach, in seconds.
pub const MAX_DELTA: i64 = 17_000_000_000_000;

/// Offsets of fewer than this many seconds in either direction are
/// rendered as the sentinel phrase "now".
pub const NOW_THRESHOLD: i64 = 10;

/// The decimal digits of `n`, most significant first.
pub open spec fn dec_str(n: nat) -> Seq<char>
    decreases n,
{
    if n < 10 {
        seq![digit_char(n)]
    } else {
        dec_str(n / 10).push(digit_char(n % 10))
    }
}

/// The character for a single decimal digit.
pub open spec fn digit_char(n: nat) -> char {
    if n == 0 { '0' }
    else if n == 1 { '1' }
    else if n == 2 { '2' }
    else if n == 3 { '3' }
    else if n == 4 { '4' }
    else if n == 5 { '5' }
    else if n == 6 { '6' }
    else if n == 7 { '7' }
    else if n == 8 { '8' }
    else { '9' }
}

/// How many whole units a nonnegative magnitude of `a` seconds amounts to,
/// rounded to the nearest unit within the bucket picked by the standard
/// calendar-approximate thresholds: a minute is 60 seconds, an hour 60
/// minutes, a day 24 hours, a month 30 days and a year 12 such months.
pub open spec fn unit_count(a: int) -> int {
    if a < 60 { a }
    else if a < 3600 { (a + 30) / 60 }
    else if a < 86400 { (a + 1800) / 3600 }
    else if a < 2592000 { (a + 43200) / 86400 }
    else if a < 31104000 { (a + 1296000) / 2592000 }
    else { (a + 15552000) / 31104000 }
}

/// The singular name of the unit a magnitude of `a` seconds is bucketed
/// into.
pub open spec fn unit_singular(a: int) -> Seq<char> {
    if a < 60 { "second"@ }
    else if a < 3600 { "minute"@ }
    else if a < 86400 { "hour"@ }
    else if a < 2592000 { "day"@ }
    else if a < 31104000 { "month"@ }
    else { "year"@ }
}

/// The unit name for a magnitude of `a` seconds, pluralized unless the
/// count is one.
pub open spec fn unit_word(a: int) -> Seq<char> {
    if unit_count(a) == 1 {
        unit_singular(a)
    } else {
        unit_singular(a) + "s"@
    }
}

/// The phrase for a signed offset of `delta` seconds between a target
/// instant and the present: "now" for a near-zero offset, "in <magnitude>
/// <unit>" for a future one and "<magnitude> <unit> ago" for a past one.
pub open spec fn humanize_spec(delta: int) -> Seq<char> {
    if -NOW_THRESHOLD < delta < NOW_THRESHOLD {
        "now"@
    } else if delta > 0 {
        "in "@ + dec_str(unit_count(delta) as nat) + " "@ + unit_word(delta)
    } else {
        dec_str(unit_count(-delta) as nat) + " "@ + unit_word(-delta) + " ago"@
    }
}

/// A single decimal digit as text.
fn digit_str(d: u64) -> (s: &'static str)
    requires
        d < 10,
    ensures
        s@ == seq![digit_char(d as nat)],
{
    if d == 0 { proof { reveal_strlit("0"); assert("0"@ =~= seq![digit_char(0)]); } "0" }
    else if d == 1 { proof { reveal_strlit("1"); assert("1"@ =~= seq![digit_char(1)]); } "1" }
    else if d == 2 { proof { reveal_strlit("2"); assert("2"@ =~= seq![digit_char(2)]); } "2" }
    else if d == 3 { proof { reveal_strlit("3"); assert("3"@ =~= seq![digit_char(3)]); } "3" }
    else if d == 4 { proof { reveal_strlit("4"); assert("4"@ =~= seq![digit_char(4)]); } "4" }
    else if d == 5 { proof { reveal_strlit("5"); assert("5"@ =~= seq![digit_char(5)]); } "5" }
    else if d == 6 { proof { reveal_strlit("6"); assert("6"@ =~= seq![digit_char(6)]); } "6" }
    else if d == 7 { proof { reveal_strlit("7"); assert("7"@ =~= seq![digit_char(7)]); } "7" }
    else if d == 8 { proof { reveal_strlit("8"); assert("8"@ =~= seq![digit_char(8)]); } "8" }
    else { proof { reveal_strlit("9"); assert("9"@ =~= seq![digit_char(9)]); } "9" }
}

/// Render `n` in decimal.
pub fn u64_to_dec(n: u64) -> (s: String)
    ensures
        s@ == dec_str(n as nat),
    decreases n,
{
    if n < 10 {
        String::from_str(digit_str(n))
    } else {
        let mut s = u64_to_dec(n / 10);
        s.append(digit_str(n % 10));
        proof {
            assert(s@ =~= dec_str(n as nat));
        }
        s
    }
}

/// Render the phrase for a signed offset of `delta` seconds.
pub fn humanize_offset(delta: i64) -> (s: String)
    requires
        -MAX_DELTA <= delta <= MAX_DELTA,
    ensures
        s@ == humanize_spec(delta as int),
{
    if -NOW_THRESHOLD < delta && delta < NOW_THRESHOLD {
        return String::from_str("now");
    }
    let a: u64 = if delta >= 0 { delta as u64 } else { (-delta) as u64 };
    proof {
        assert(a == if delta as int >= 0 { delta as int } else { -(delta as int) });
    }
    let count: u64 = if a < 60 { a }
        else if a < 3600 { (a + 30) / 60 }
        else if a < 86400 { (a + 1800) / 3600 }
        else if a < 2592000 { (a + 43200) / 86400 }
        else if a < 31104000 { (a + 1296000) / 2592000 }
        else { (a + 15552000) / 31104000 };
    let unit: &'static str = if a < 60 { "second" }
        else if a < 3600 { "minute" }
        else if a < 86400 { "hour" }
        else if a < 2592000 { "day" }
        else if a < 31104000 { "month" }
        else { "year" };
    proof {
        assert(count as int == unit_count(a as int));
        assert(unit@ == unit_singular(a as int));
    }
    let mut s = String::new();
    if delta > 0 {
        s.append("in ");
    }
    let num = u64_to_dec(count);
    s.append(num.as_str());
    s.append(" ");
    s.append(unit);
    if count != 1 {
        s.append("s");
    }
    if delta < 0 {
        s.append(" ago");
    }
    proof {
        assert(s@ =~= humanize_spec(delta as int));
    }
    s
}

/// The diagnostic used both when the date-string parser rejects its input
/// and when a variant has no humanization rule.
pub open spec fn parse_fail_msg() -> Seq<char> {
    "Date cannot be parsed / date format is not supported"@
}

/// The error value produced for a text the parser rejects.
pub open spec fn is_parse_error(out: Value, head: Span) -> bool {
    out matches Value::Error { error } && error matches ShellError::UnsupportedInput(msg, span)
        && msg@ == parse_fail_msg() && span == head
}

/// Exactly what the humanizer returns for a given input, head span and
/// present instant `now`: the phrase for the offset of the carried (or
/// parsed) timestamp from `now`; the sentinel phrase for an absent value;
/// an error value for an unparsable text or an unsupported variant.
pub open spec fn is_helper_of(out: Value, input: Value, head: Span, now: i64) -> bool {
    match input {
        Value::Nothing { .. } => out matches Value::String { val, span } && val@ == humanize_spec(0)
            && span == head,
        Value::String { val, .. } => match parse_date_spec(val@) {
            Some(p) => if (Date { epoch: p.0, offset: p.1 }).wf() {
                out matches Value::String { val: v, span } && v@ == humanize_spec(p.0 - now)
                    && span == head
            } else {
                is_parse_error(out, head)
            },
            None => is_parse_error(out, head),
        },
        Value::Date { val, .. } => out matches Value::String { val: v, span }
            && v@ == humanize_spec(val.epoch - now) && span == head,
        _ => out matches Value::Error { error }
            && error matches ShellError::UnsupportedInput(msg, span)
            && msg@ == parse_fail_msg() && span == head,
    }
}

fn parse_error_value(head: Span) -> (out: Value)
    ensures
        is_parse_error(out, head),
{
    Value::Error {
        error: ShellError::UnsupportedInput(
            String::from_str("Date cannot be parsed / date format is not supported"),
            head,
        ),
    }
}

/// Humanize a value against an explicitly supplied present instant; every
/// decision after the clock and the parser is verified here.
pub fn helper_at(value: Value, head: Span, now: i64) -> (out: Value)
    requires
        value_wf(value),
        -CLOCK_BOUND < now < CLOCK_BOUND,
    ensures
        is_helper_of(out, value, head, now),
{
    match value {
        Value::Nothing { .. } => Value::String { val: humanize_offset(0), span: head },
        Value::String { val, .. } => match parse_date_str(val.as_str()) {
            Some(p) => match date_from_parsed(p) {
                Some(d) => Value::String { val: humanize_offset(d.epoch - now), span: head },
                None => parse_error_value(head),
            },
            None => parse_error_value(head),
        },
        Value::Date { val, .. } => Value::String { val: humanize_offset(val.epoch - now), span: head },
        _ => parse_error_value(head),
    }
}

/// Humanize a value relative to the host clock's present instant.
pub fn helper(value: Value, head: Span) -> (out: Value)
    requires
        value_wf(value),
    ensures
        exists|now: i64|
            -CLOCK_BOUND < now < CLOCK_BOUND && #[trigger] is_helper_of(out, value, head, now),
{
    let now = now_epoch_seconds();
    let out = helper_at(value, head, now);
    proof {
        assert(-CLOCK_BOUND < now < CLOCK_BOUND && is_helper_of(out, value, head, now));
    }
    out
}

/// The date humanization command.
#[derive(Clone)]
pub struct SubCommand;

impl Command for SubCommand {
    open spec fn transform_ok(&self, input: Value, head: Span, out: Value) -> bool {
        exists|now: i64|
            -CLOCK_BOUND < now < CLOCK_BOUND && #[trigger] is_helper_of(out, input, head, now)
    }

    open spec fn name_spec(&self) -> Seq<char> {
        "date humanize"@
    }

    open spec fn usage_spec(&self) -> Seq<char> {
        "Print a 'humanized' format for the date, relative to now."@
    }

    open spec fn signature_ok(&self, s: Signature) -> bool {
        &&& s.name@ == "date humanize"@
        &&& s.rest is None
        &&& s.category == Category::Date
    }

    open spec fn examples_ok(&self, es: Seq<Example>) -> bool {
        &&& es.len() == 2
        &&& es[0].result matches Some(Value::String { val, span }) && val@ == humanize_spec(0)
            && span == (Span { start: 0, end: 0 })
        &&& es[1].result is None
    }

    fn name(&self) -> (r: &'static str) {
        "date humanize"
    }

    fn usage(&self) -> (r: &'static str) {
        "Print a 'humanized' format for the date, relative to now."
    }

    fn signature(&self) -> (r: Signature) {
        Signature::build("date humanize").category(Category::Date)
    }

    fn examples(&self) -> (r: Vec<Example>) {
        let mut v: Vec<Example> = Vec::new();
        v.push(Example {
            description: String::from_str(
                "Print a 'humanized' format for the date, relative to now.",
            ),
            example: String::from_str("date humanize"),
            result: Some(Value::String { val: String::from_str("now"), span: Span::unknown() }),
        });
        v.push(Example {
            description: String::from_str(
                "Print a 'humanized' format for the date, relative to now.",
            ),
            example: String::from_str("\"2021-10-22 20:00:12 +01:00\" | date humanize"),
            result: None,
        });
        v
    }

    fn run<C: Fn() -> bool>(&self, head: Span, input: PipelineData, cancel: C) -> (r: Result<
        PipelineData,
        ShellError,
    >) {
        let f = |v: Value| -> (out: Value)
            requires
                value_wf(v),
            ensures
                exists|now: i64|
                    -CLOCK_BOUND < now < CLOCK_BOUND && #[trigger] is_helper_of(out, v, head, now),
            { helper(v, head) };
        Ok(map_pipeline(input, f, cancel))
    }
}

} // verus!
