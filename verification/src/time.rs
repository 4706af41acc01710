//! Points in time, as seconds since the Unix epoch, and the rendering of a
//! span of time.
//!
//! Timestamps are read through `chrono`.  What this module says of it is
//! stated in the contract of the function marked `external_body`.
use vstd::prelude::*;
use vstd::string::StringExecFns;
use chrono::DateTime;

verus! {

/// Every timestamp that `chrono` hands out, read from a text or off the
/// clock, lies strictly between minus and plus this many seconds.
pub const TIMESTAMP_LIMIT: i64 = 0x1_0000_0000_0000;

/// Whether a number of seconds since the epoch is one that `chrono` can hand
/// out.
pub open spec fn is_timestamp(seconds: int) -> bool {
    -TIMESTAMP_LIMIT < seconds < TIMESTAMP_LIMIT
}

/// The instant that a text denotes as an RFC 3339 date and time, in seconds
/// since the Unix epoch without leap seconds, or `None` for a text that
/// `DateTime::parse_from_rfc3339` rejects.
pub uninterp spec fn rfc3339_timestamp(text: Seq<char>) -> Option<int>;

/// Calls `DateTime::parse_from_rfc3339`, and `DateTime::timestamp` on what
/// it accepted.  Trusted: the seconds that come back are those that
/// [`rfc3339_timestamp`] names for this text, and `None` comes back exactly
/// where it names none.  The bound holds because `timestamp` multiplies a
/// day count of 32 bits by 86 400 and adds a second count of 32 bits.
#[verifier::external_body]
pub(crate) fn parse_rfc3339(text: &str) -> (seconds: Option<i64>)
    ensures
        match seconds {
            Some(s) => rfc3339_timestamp(text@) == Some(s as int) && is_timestamp(s as int),
            None => rfc3339_timestamp(text@) is None,
        },
{
    match DateTime::parse_from_rfc3339(text) {
        Ok(instant) => Some(instant.timestamp()),
        Err(_) => None,
    }
}

/// The seconds from `now` until `expiry`; negative once `expiry` has passed.
pub fn remaining_seconds(expiry: i64, now: i64) -> (remaining: i64)
    requires
        i64::MIN <= expiry - now <= i64::MAX,
    ensures
        remaining == expiry - now,
{
    expiry - now
}

/// The ten decimal digits.
pub open spec fn decimal_digits() -> Seq<char> {
    seq!['0', '1', '2', '3', '4', '5', '6', '7', '8', '9']
}

/// A natural number in decimal, without leading zeros.
pub open spec fn decimal(n: nat) -> Seq<char>
    decreases n,
{
    if n < 10 {
        seq![decimal_digits()[n as int]]
    } else {
        decimal(n / 10).push(decimal_digits()[(n % 10) as int])
    }
}

/// The text of one decimal digit.
fn decimal_digit(value: u128) -> (digit: &'static str)
    requires
        value < 10,
    ensures
        digit@ == seq![decimal_digits()[value as int]],
{
    proof {
        reveal_strlit("0");
        reveal_strlit("1");
        reveal_strlit("2");
        reveal_strlit("3");
        reveal_strlit("4");
        reveal_strlit("5");
        reveal_strlit("6");
        reveal_strlit("7");
        reveal_strlit("8");
        reveal_strlit("9");
    }
    let digit = match value {
        0 => "0",
        1 => "1",
        2 => "2",
        3 => "3",
        4 => "4",
        5 => "5",
        6 => "6",
        7 => "7",
        8 => "8",
        _ => "9",
    };
    assert(digit@ =~= seq![decimal_digits()[value as int]]);
    digit
}

/// Writes a number in decimal.
pub fn render_decimal(n: u128) -> (text: String)
    ensures
        text@ == decimal(n as nat),
    decreases n,
{
    if n < 10 {
        String::from_str(decimal_digit(n))
    } else {
        let mut text = render_decimal(n / 10);
        text.append(decimal_digit(n % 10));
        assert(text@ =~= decimal((n / 10) as nat).push(decimal_digits()[(n % 10) as int]));
        text
    }
}

/// What a span's rendering becomes when one more unit is written behind it:
/// a unit that is zero is left out as long as nothing stands before it.
pub open spec fn with_component(rendered: Seq<char>, count: nat, unit: char) -> Seq<char> {
    if count == 0 && rendered.len() == 0 {
        rendered
    } else {
        rendered + decimal(count).push(unit)
    }
}

/// A span of time in days, hours, minutes and seconds, starting with the
/// largest unit that is not zero, as in `30m0s`.  With `show_millis` the
/// milliseconds follow.  A span under one second is `0s`, or `0ms` where it
/// is nothing and milliseconds are shown.
pub open spec fn rendered_time(raw_millis: nat, show_millis: bool) -> Seq<char> {
    if raw_millis == 0 && show_millis {
        seq!['0', 'm', 's']
    } else if raw_millis < 1000 && !show_millis {
        seq!['0', 's']
    } else {
        let seconds = raw_millis / 1000;
        let minutes = seconds / 60;
        let hours = minutes / 60;
        let days = with_component(Seq::empty(), hours / 24, 'd');
        let to_hours = with_component(days, hours % 24, 'h');
        let to_minutes = with_component(to_hours, minutes % 60, 'm');
        let to_seconds = with_component(to_minutes, seconds % 60, 's');
        if show_millis {
            to_seconds + decimal(raw_millis % 1000) + seq!['m', 's']
        } else {
            to_seconds
        }
    }
}

/// Writes one unit of a span behind what has been rendered so far.
fn push_component(rendered: &mut String, count: u128, unit: &'static str)
    requires
        unit@.len() == 1,
    ensures
        final(rendered)@ == with_component(old(rendered)@, count as nat, unit@[0]),
{
    if count == 0 && rendered.as_str().is_empty() {
    } else {
        let digits = render_decimal(count);
        rendered.append(digits.as_str());
        rendered.append(unit);
        assert(rendered@ =~= old(rendered)@ + decimal(count as nat).push(unit@[0]));
    }
}

/// Renders a span of time, given in milliseconds, for a reader.
pub fn render_time(raw_millis: u128, show_millis: bool) -> (rendered: String)
    ensures
        rendered@ == rendered_time(raw_millis as nat, show_millis),
{
    proof {
        reveal_strlit("0ms");
        reveal_strlit("0s");
        reveal_strlit("d");
        reveal_strlit("h");
        reveal_strlit("m");
        reveal_strlit("s");
        reveal_strlit("ms");
    }
    if raw_millis == 0 && show_millis {
        let rendered = String::from_str("0ms");
        assert(rendered@ =~= seq!['0', 'm', 's']);
        return rendered;
    }
    if raw_millis < 1000 && !show_millis {
        let rendered = String::from_str("0s");
        assert(rendered@ =~= seq!['0', 's']);
        return rendered;
    }
    let seconds = raw_millis / 1000;
    let minutes = seconds / 60;
    let hours = minutes / 60;
    let mut rendered = String::new();
    push_component(&mut rendered, hours / 24, "d");
    push_component(&mut rendered, hours % 24, "h");
    push_component(&mut rendered, minutes % 60, "m");
    push_component(&mut rendered, seconds % 60, "s");
    if show_millis {
        let millis = render_decimal(raw_millis % 1000);
        rendered.append(millis.as_str());
        rendered.append("ms");
        assert("ms"@ =~= seq!['m', 's']);
    }
    rendered
}

} // verus!
