//! Checks made on what a person typed before any request goes out:
//! conversation numbers, snooze durations and message bodies.

use vstd::prelude::*;
use vstd::string::StrSliceExecFns;
use vstd::string::StringExecFns;
use crate::text::{
    all_digits, decimal_text, decimal_value, int_text, lemma_decimal_text_reads_back, parse_i64, trim,
    trim_of,
};

verus! {

/// A value typed on the command line that cannot be used.
#[derive(Debug, Clone, PartialEq, Eq)]
pub enum InputError {
    /// A conversation number that is zero or negative.
    NonPositiveNumber(i64),
    /// A duration too short to hold a magnitude and a unit.
    InvalidDuration(String),
    /// A duration whose magnitude is not an integer.
    InvalidDurationNumber(String),
    /// A duration whose magnitude is zero or negative.
    NonPositiveDuration(i64),
    /// A duration whose unit is none of m, h, d, w.
    InvalidDurationUnit(String),
    /// A duration that reaches past the instants the clock can represent.
    DurationOutOfRange(String),
    /// No body was given and the input is an interactive terminal.
    NoBody,
    /// The piped body holds nothing but whitespace.
    EmptyBody,
}

impl InputError {
    /// The one-line message shown for the error.
    pub fn message(&self) -> (r: String)
        ensures
            r@ == input_error_message(*self),
    {
        match self {
            InputError::NonPositiveNumber(n) => {
                String::from_str("Conversation number must be positive, got: ").concat(int_text(*n).as_str())
            },
            InputError::InvalidDuration(s) => String::from_str("Invalid duration: ").concat(s.as_str()),
            InputError::InvalidDurationNumber(s) => {
                String::from_str("Invalid duration number: ").concat(s.as_str())
            },
            InputError::NonPositiveDuration(n) => {
                String::from_str("Duration must be positive, got: ").concat(int_text(*n).as_str())
            },
            InputError::InvalidDurationUnit(u) => {
                String::from_str("Invalid duration unit: ").concat(u.as_str()).concat(
                    ". Use m, h, d, or w",
                )
            },
            InputError::DurationOutOfRange(s) => String::from_str("Duration out of range: ").concat(s.as_str()),
            InputError::NoBody => String::from_str("No body provided. Pass as argument or pipe content via stdin"),
            InputError::EmptyBody => String::from_str("Empty body provided"),
        }
    }
}

/// The message of each input error.
pub open spec fn input_error_message(e: InputError) -> Seq<char> {
    match e {
        InputError::NonPositiveNumber(n) => "Conversation number must be positive, got: "@ + decimal_text(n as int),
        InputError::InvalidDuration(s) => "Invalid duration: "@ + s@,
        InputError::InvalidDurationNumber(s) => "Invalid duration number: "@ + s@,
        InputError::NonPositiveDuration(n) => "Duration must be positive, got: "@ + decimal_text(n as int),
        InputError::InvalidDurationUnit(u) => "Invalid duration unit: "@ + u@ + ". Use m, h, d, or w"@,
        InputError::DurationOutOfRange(s) => "Duration out of range: "@ + s@,
        InputError::NoBody => "No body provided. Pass as argument or pipe content via stdin"@,
        InputError::EmptyBody => "Empty body provided"@,
    }
}

/// Accepts a conversation number only when it is strictly positive.
pub fn validate_conversation_number(number: i64) -> (r: Result<(), InputError>)
    ensures
        number > 0 ==> r is Ok,
        number <= 0 ==> r == Err::<(), InputError>(InputError::NonPositiveNumber(number)),
{
    if number <= 0 {
        Err(InputError::NonPositiveNumber(number))
    } else {
        Ok(())
    }
}

/// Accepts a list of conversation numbers when all are strictly positive;
/// otherwise names the first that is not.
pub fn validate_conversation_numbers(numbers: &[i64]) -> (r: Result<(), InputError>)
    ensures
        (forall|i: int| 0 <= i < numbers@.len() ==> #[trigger] numbers@[i] > 0) <==> r is Ok,
        r is Err ==> exists|i: int| 0 <= i < numbers@.len() && #[trigger] numbers@[i] <= 0
            && (forall|j: int| 0 <= j < i ==> #[trigger] numbers@[j] > 0)
            && r == Err::<(), InputError>(InputError::NonPositiveNumber(numbers@[i])),
{
    let mut i: usize = 0;
    while i < numbers.len()
        invariant
            i <= numbers@.len(),
            forall|j: int| 0 <= j < i ==> #[trigger] numbers@[j] > 0,
        decreases numbers@.len() - i,
    {
        let r = validate_conversation_number(numbers[i]);
        if r.is_err() {
            return r;
        }
        i = i + 1;
    }
    Ok(())
}

/// Whether a snooze value is taken as an absolute timestamp: it holds a `T`,
/// or it is at least ten characters long and starts with four digits and a
/// dash.
pub open spec fn looks_absolute(s: Seq<char>) -> bool {
    s.contains('T') || (s.len() >= 10 && all_digits(s.take(4)) && s[4] == '-')
}

/// The seconds in one of a unit: m, h, d or w.
pub open spec fn unit_seconds(c: char) -> Option<int> {
    if c == 'm' {
        Some(60)
    } else if c == 'h' {
        Some(3600)
    } else if c == 'd' {
        Some(86400)
    } else if c == 'w' {
        Some(604800)
    } else {
        None
    }
}

/// When a snoozed conversation wakes: a timestamp given as is, or a number of
/// seconds from now.
#[derive(Debug, Clone, PartialEq, Eq)]
pub enum SnoozeTarget {
    At(String),
    After(i64),
}

/// What a snooze value means, as a kind with no text attached.
pub enum SnoozeKind {
    At,
    After(int),
    TooShort,
    BadNumber,
    NonPositive(int),
    BadUnit,
    OutOfRange,
}

/// Classifies a snooze value: the magnitude is all but the last character,
/// the unit is the last; the checks come in this order.
pub open spec fn snooze_kind(s: Seq<char>) -> SnoozeKind {
    let n = s.len();
    let v = decimal_value(s.take(n - 1));
    if looks_absolute(s) {
        SnoozeKind::At
    } else if n < 2 {
        SnoozeKind::TooShort
    } else if !(v is Some && i64::MIN <= v->0 <= i64::MAX) {
        SnoozeKind::BadNumber
    } else if v->0 <= 0 {
        SnoozeKind::NonPositive(v->0)
    } else if unit_seconds(s[n - 1]) is None {
        SnoozeKind::BadUnit
    } else if v->0 * unit_seconds(s[n - 1])->0 > i64::MAX {
        SnoozeKind::OutOfRange
    } else {
        SnoozeKind::After(v->0 * unit_seconds(s[n - 1])->0)
    }
}

/// The error that each refused kind of snooze value gives, with the text it
/// names: the whole value, the magnitude, or the unit.
pub open spec fn snooze_error(s: Seq<char>, k: SnoozeKind, e: InputError) -> bool {
    let n = s.len();
    match k {
        SnoozeKind::TooShort => e matches InputError::InvalidDuration(x) && x@ == s,
        SnoozeKind::BadNumber => e matches InputError::InvalidDurationNumber(x) && x@ == s.take(n - 1),
        SnoozeKind::NonPositive(v) => e == InputError::NonPositiveDuration(v as i64),
        SnoozeKind::BadUnit => e matches InputError::InvalidDurationUnit(u) && u@ == seq![s[n - 1]],
        SnoozeKind::OutOfRange => e matches InputError::DurationOutOfRange(x) && x@ == s,
        _ => false,
    }
}

/// What `parse_snooze` gives for a value.
pub open spec fn snooze_outcome(s: Seq<char>, r: Result<SnoozeTarget, InputError>) -> bool {
    match snooze_kind(s) {
        SnoozeKind::At => r matches Ok(SnoozeTarget::At(t)) && t@ == s,
        SnoozeKind::After(secs) => r == Ok::<SnoozeTarget, InputError>(SnoozeTarget::After(secs as i64)),
        k => r matches Err(e) && snooze_error(s, k, e),
    }
}

fn contains_char(s: &str, c: char) -> (r: bool)
    ensures
        r == s@.contains(c),
{
    let n = s.unicode_len();
    let mut i: usize = 0;
    while i < n
        invariant
            n == s@.len(),
            i <= n,
            forall|j: int| 0 <= j < i ==> s@[j] != c,
        decreases n - i,
    {
        if s.get_char(i) == c {
            return true;
        }
        i = i + 1;
    }
    false
}

fn is_absolute(s: &str) -> (r: bool)
    ensures
        r == looks_absolute(s@),
{
    if contains_char(s, 'T') {
        return true;
    }
    let n = s.unicode_len();
    if n < 10 {
        return false;
    }
    let mut i: usize = 0;
    while i < 4
        invariant
            n == s@.len(),
            n >= 10,
            i <= 4,
            !s@.contains('T'),
            forall|j: int| 0 <= j < i ==> '0' <= #[trigger] s@[j] && s@[j] <= '9',
        decreases 4 - i,
    {
        let c = s.get_char(i);
        if c < '0' || c > '9' {
            proof {
                let t = s@.take(4);
                assert(t[i as int] == c);
                assert(!('0' <= t[i as int] && t[i as int] <= '9'));
                assert(!all_digits(t));
            }
            return false;
        }
        i = i + 1;
    }
    assert(all_digits(s@.take(4)));
    s.get_char(4) == '-'
}

/// Reads a snooze value: a timestamp passed through, or a positive
/// magnitude followed by a unit (m, h, d, w) giving seconds from now.
pub fn parse_snooze(s: &str) -> (r: Result<SnoozeTarget, InputError>)
    ensures
        snooze_outcome(s@, r),
{
    if is_absolute(s) {
        return Ok(SnoozeTarget::At(String::from_str(s)));
    }
    let n = s.unicode_len();
    if n < 2 {
        return Err(InputError::InvalidDuration(String::from_str(s)));
    }
    let num_str = s.substring_char(0, n - 1);
    let num = match parse_i64(num_str) {
        Some(v) => v,
        None => {
            return Err(InputError::InvalidDurationNumber(String::from_str(num_str)));
        },
    };
    if num <= 0 {
        return Err(InputError::NonPositiveDuration(num));
    }
    let unit = s.get_char(n - 1);
    let factor: i64 = if unit == 'm' {
        60
    } else if unit == 'h' {
        3600
    } else if unit == 'd' {
        86400
    } else if unit == 'w' {
        604800
    } else {
        let u = s.substring_char(n - 1, n);
        assert(u@ =~= seq![s@[n - 1]]);
        return Err(InputError::InvalidDurationUnit(String::from_str(u)));
    };
    if num > i64::MAX / factor {
        assert(num * factor > i64::MAX) by (nonlinear_arith)
            requires num > i64::MAX / factor, factor > 0;
        return Err(InputError::DurationOutOfRange(String::from_str(s)));
    }
    assert(num * factor <= i64::MAX) by (nonlinear_arith)
        requires num <= i64::MAX / factor, factor > 0, num > 0;
    Ok(SnoozeTarget::After(num * factor))
}

/// Relies on chrono's `TimeDelta::try_seconds`, `Utc::now`,
/// `DateTime::checked_add_signed` and `DateTime::to_rfc3339`: the instant
/// `seconds` from now in RFC 3339, or nothing when it cannot be represented;
/// a span past `i64::MAX / 1000` seconds never can. The instant depends on
/// the clock, so nothing more is stated of it.
#[verifier::external_body]
fn rfc3339_after(seconds: i64) -> (r: Option<String>)
    ensures
        seconds > i64::MAX / 1000 ==> r is None,
{
    let delta = chrono::TimeDelta::try_seconds(seconds)?;
    let instant = chrono::Utc::now().checked_add_signed(delta)?;
    Some(instant.to_rfc3339())
}

/// The snooze instant for a value: a timestamp is passed through unchanged,
/// a duration becomes the RFC 3339 instant that far from now. Every value
/// that `parse_snooze` refuses is refused with the same error.
pub fn parse_duration(s: &str) -> (r: Result<String, InputError>)
    ensures
        snooze_kind(s@) is At ==> (r matches Ok(t) && t@ == s@),
        snooze_kind(s@) is After ==> (r is Ok || (r matches Err(InputError::DurationOutOfRange(x)) && x@ == s@)),
        snooze_kind(s@) matches SnoozeKind::After(secs) && secs > i64::MAX / 1000
            ==> (r matches Err(InputError::DurationOutOfRange(x)) && x@ == s@),
        !(snooze_kind(s@) is At) && !(snooze_kind(s@) is After) ==> (r matches Err(e) && snooze_error(s@, snooze_kind(s@), e)),
{
    match parse_snooze(s) {
        Ok(SnoozeTarget::At(t)) => Ok(t),
        Ok(SnoozeTarget::After(secs)) => match rfc3339_after(secs) {
            Some(t) => Ok(t),
            None => Err(InputError::DurationOutOfRange(String::from_str(s))),
        },
        Err(e) => Err(e),
    }
}

/// Where the body of a reply or note comes from.
#[derive(Debug, Clone, PartialEq, Eq)]
pub enum BodySource {
    /// The body given on the command line.
    Given(String),
    /// The body is to be read whole from the piped input.
    ReadInput,
}

/// Picks the body source: an explicit argument wins; else piped input is
/// read; an interactive terminal with no argument fails at once rather than
/// wait.
pub fn body_source(body_arg: Option<String>, input_is_terminal: bool) -> (r: Result<BodySource, InputError>)
    ensures
        body_arg matches Some(b) ==> r == Ok::<BodySource, InputError>(BodySource::Given(b)),
        body_arg is None && input_is_terminal ==> r == Err::<BodySource, InputError>(InputError::NoBody),
        body_arg is None && !input_is_terminal ==> r == Ok::<BodySource, InputError>(BodySource::ReadInput),
{
    match body_arg {
        Some(b) => Ok(BodySource::Given(b)),
        None => if input_is_terminal {
            Err(InputError::NoBody)
        } else {
            Ok(BodySource::ReadInput)
        },
    }
}

/// Accepts a piped body unless it holds nothing but whitespace.
pub fn piped_body(buffer: String) -> (r: Result<String, InputError>)
    ensures
        trim_of(buffer@).len() == 0 ==> r == Err::<String, InputError>(InputError::EmptyBody),
        trim_of(buffer@).len() > 0 ==> r == Ok::<String, InputError>(buffer),
{
    if trim(buffer.as_str()).unicode_len() == 0 {
        Err(InputError::EmptyBody)
    } else {
        Ok(buffer)
    }
}

/// A duration written as a positive number followed by a unit (m, h, d or
/// w) means that many units, in seconds from now, whenever that fits in an
/// `i64`: "30m" is 1800 seconds, "2h" 7200, "5d" 432000, "1w" 604800.
pub proof fn lemma_duration_reads_back(n: int, u: char)
    requires
        0 < n <= i64::MAX,
        unit_seconds(u) is Some,
        n * unit_seconds(u)->0 <= i64::MAX,
    ensures
        snooze_kind(decimal_text(n) + seq![u]) == SnoozeKind::After(n * unit_seconds(u)->0),
{
    lemma_decimal_text_reads_back(n);
    let d = decimal_text(n);
    let s = d + seq![u];
    assert(s.take(s.len() - 1) =~= d);
    assert(s[s.len() - 1] == u);
    assert forall|i: int| 0 <= i < s.len() implies #[trigger] s[i] != 'T' by {
        if i < d.len() {
            assert(s[i] == d[i]);
            assert('0' <= d[i] && d[i] <= '9');
        }
    }
    assert(!s.contains('T'));
    if s.len() >= 10 {
        assert(s[4] == d[4]);
        assert('0' <= d[4] && d[4] <= '9');
    }
    assert(!looks_absolute(s));
}

} // verus!
