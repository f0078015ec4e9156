//! Durations. Python hands the binding `datetime.timedelta` values, which are
//! read as their normalised `days`, `seconds` and `microseconds`; the client
//! keeps durations as whole microseconds, the resolution of its wire format.

use crate::error::{ConfigError, Parameter};
use crate::text::{decimal, push_decimal};
use vstd::arithmetic::div_mod::lemma_fundamental_div_mod_converse;
use vstd::prelude::*;
use vstd::string::StringExecFns;

verus! {

/// Microseconds in a second.
pub const MICROS_PER_SECOND: u128 = 1_000_000;

/// Seconds in a day.
pub const SECONDS_PER_DAY: u128 = 86_400;

/// Microseconds in a day.
pub const MICROS_PER_DAY: u128 = 86_400_000_000;

/// The fields of a Python `datetime.timedelta`: the duration is
/// `days` days plus `seconds` seconds plus `microseconds` microseconds.
#[derive(Clone, Copy, PartialEq, Eq, Structural, Debug)]
pub struct TimeDelta {
    pub days: i32,
    pub seconds: i32,
    pub microseconds: i32,
}

/// A `TimeDelta` in the normal form that Python keeps: `0 <= seconds < 86400`
/// and `0 <= microseconds < 1_000_000`.
pub open spec fn is_normalized(d: TimeDelta) -> bool {
    &&& 0 <= d.seconds < SECONDS_PER_DAY
    &&& 0 <= d.microseconds < MICROS_PER_SECOND
}

/// The length of a `TimeDelta` in microseconds.
pub open spec fn delta_micros(d: TimeDelta) -> int {
    d.days * MICROS_PER_DAY + d.seconds * MICROS_PER_SECOND + d.microseconds
}

/// A non-negative duration, in microseconds. The width holds every duration
/// that a Python `timedelta` can express.
#[derive(Clone, Copy, PartialEq, Eq, Structural, Debug)]
pub struct Timespan {
    pub micros: u128,
}

/// The outcome of `Timespan::from_delta`.
pub open spec fn timespan_result(d: TimeDelta) -> Result<Timespan, ConfigError> {
    if delta_micros(d) < 0 {
        Err(ConfigError::NegativeDuration)
    } else {
        Ok(Timespan { micros: delta_micros(d) as u128 })
    }
}

/// The outcome of `reject_zero`.
pub open spec fn nonzero_result(t: Timespan, parameter: Parameter) -> Result<Timespan, ConfigError> {
    if t.micros == 0 {
        Err(ConfigError::ZeroDuration(parameter))
    } else {
        Ok(t)
    }
}

/// The outcome of reading a duration argument that must be positive.
pub open spec fn positive_timespan_result(d: TimeDelta, parameter: Parameter) -> Result<Timespan, ConfigError> {
    match timespan_result(d) {
        Ok(t) => nonzero_result(t, parameter),
        Err(e) => Err(e),
    }
}

/// Whether the whole days of a duration fit the `days` field of a `TimeDelta`.
pub open spec fn days_fit(t: Timespan) -> bool {
    t.micros / MICROS_PER_DAY <= i32::MAX
}

/// The `TimeDelta` fields of a duration, in normal form.
pub open spec fn delta_of(t: Timespan) -> TimeDelta {
    TimeDelta {
        days: (t.micros / MICROS_PER_DAY) as i32,
        seconds: ((t.micros / MICROS_PER_SECOND) % SECONDS_PER_DAY) as i32,
        microseconds: (t.micros % MICROS_PER_SECOND) as i32,
    }
}

/// Appends `name=value` to the argument list `acc`, after a `, ` separator
/// when the list already holds an argument; a zero value is left out.
pub open spec fn append_field(acc: Seq<char>, name: Seq<char>, value: nat) -> Seq<char> {
    if value == 0 {
        acc
    } else if acc.len() == 0 {
        name + "="@ + decimal(value)
    } else {
        acc + ", "@ + name + "="@ + decimal(value)
    }
}

/// Python's `repr` of a normalised `datetime.timedelta`, such as
/// `datetime.timedelta(days=1, seconds=5)`, or `datetime.timedelta(0)`.
pub open spec fn timedelta_repr(days: nat, seconds: nat, microseconds: nat) -> Seq<char> {
    let fields = append_field(
        append_field(append_field(Seq::empty(), "days"@, days), "seconds"@, seconds),
        "microseconds"@,
        microseconds,
    );
    if fields.len() == 0 {
        "datetime.timedelta(0)"@
    } else {
        "datetime.timedelta("@ + fields + ")"@
    }
}

/// The `repr` of the `datetime.timedelta` that a duration reads back as.
pub open spec fn timespan_repr(t: Timespan) -> Seq<char> {
    timedelta_repr(
        (t.micros / MICROS_PER_DAY) as nat,
        ((t.micros / MICROS_PER_SECOND) % SECONDS_PER_DAY) as nat,
        (t.micros % MICROS_PER_SECOND) as nat,
    )
}

impl Timespan {
    /// Reads a Python `timedelta` as a duration: only a negative one is refused.
    pub fn from_delta(d: TimeDelta) -> (r: Result<Timespan, ConfigError>)
        ensures
            r == timespan_result(d),
    {
        proof {
            assert(-0x1_0000_0000_0000_0000_0000_0000 <= d.days * MICROS_PER_DAY <= 0x1_0000_0000_0000_0000_0000_0000)
                by (nonlinear_arith)
                requires
                    i32::MIN <= d.days <= i32::MAX,
            ;
            assert(-0x1_0000_0000_0000_0000 <= d.seconds * MICROS_PER_SECOND <= 0x1_0000_0000_0000_0000)
                by (nonlinear_arith)
                requires
                    i32::MIN <= d.seconds <= i32::MAX,
            ;
        }
        let total: i128 = d.days as i128 * MICROS_PER_DAY as i128
            + d.seconds as i128 * MICROS_PER_SECOND as i128
            + d.microseconds as i128;
        if total < 0 {
            Err(ConfigError::NegativeDuration)
        } else {
            Ok(Timespan { micros: total as u128 })
        }
    }

    /// The normalised `timedelta` fields of this duration, from which the
    /// binding builds the Python value; `None` when its whole days do not fit
    /// the `days` field (Python itself stops at 999999999 days, which do).
    pub fn to_delta(&self) -> (r: Option<TimeDelta>)
        ensures
            days_fit(*self) ==> r == Some(delta_of(*self)),
            !days_fit(*self) ==> r is None,
            r matches Some(d) ==> is_normalized(d) && d.days >= 0 && delta_micros(d) == self.micros,
    {
        let days = self.micros / MICROS_PER_DAY;
        if days > i32::MAX as u128 {
            return None;
        }
        let seconds = (self.micros / MICROS_PER_SECOND) % SECONDS_PER_DAY;
        let microseconds = self.micros % MICROS_PER_SECOND;
        proof {
            lemma_split_micros(self.micros as int);
        }
        Some(TimeDelta { days: days as i32, seconds: seconds as i32, microseconds: microseconds as i32 })
    }

    /// Whether the duration is zero.
    pub fn is_zero(&self) -> (r: bool)
        ensures
            r == (self.micros == 0),
    {
        self.micros == 0
    }
}

/// Splits a count of microseconds into whole days, the seconds of the last
/// day, and the microseconds of the last second.
proof fn lemma_split_micros(m: int)
    requires
        0 <= m,
    ensures
        m == (m / MICROS_PER_DAY as int) * MICROS_PER_DAY + ((m / MICROS_PER_SECOND as int) % SECONDS_PER_DAY as int) * MICROS_PER_SECOND
            + m % MICROS_PER_SECOND as int,
        m / MICROS_PER_DAY as int == (m / MICROS_PER_SECOND as int) / SECONDS_PER_DAY as int,
{
    let s = m / MICROS_PER_SECOND as int;
    let us = m % MICROS_PER_SECOND as int;
    let d = s / SECONDS_PER_DAY as int;
    let ds = s % SECONDS_PER_DAY as int;
    assert(m == s * 1_000_000 + us);
    assert(s == d * 86400 + ds);
    assert(m == d * 86_400_000_000 + ds * 1_000_000 + us) by (nonlinear_arith)
        requires
            m == s * 1_000_000 + us,
            s == d * 86400 + ds,
    ;
    assert(0 <= ds * 1_000_000 + us < 86_400_000_000) by (nonlinear_arith)
        requires
            0 <= ds < 86400,
            0 <= us < 1_000_000,
    ;
    lemma_fundamental_div_mod_converse(m, 86_400_000_000, d, ds * 1_000_000 + us);
}

/// A Python `timedelta` that is not negative reads back unchanged: the
/// duration that it gives returns the same `days`, `seconds` and
/// `microseconds`, and so the same `repr`.
pub proof fn law_timedelta_round_trip(d: TimeDelta)
    requires
        is_normalized(d),
        d.days >= 0,
    ensures
        timespan_result(d) is Ok,
        days_fit(timespan_result(d)->Ok_0),
        delta_of(timespan_result(d)->Ok_0) == d,
        timespan_repr(timespan_result(d)->Ok_0) == timedelta_repr(d.days as nat, d.seconds as nat, d.microseconds as nat),
{
    let m = delta_micros(d);
    assert(0 <= d.seconds * MICROS_PER_SECOND + d.microseconds < MICROS_PER_DAY) by (nonlinear_arith)
        requires
            is_normalized(d),
    ;
    lemma_fundamental_div_mod_converse(m, MICROS_PER_DAY as int, d.days as int, d.seconds * MICROS_PER_SECOND + d.microseconds);
    lemma_fundamental_div_mod_converse(m, MICROS_PER_SECOND as int, d.days * SECONDS_PER_DAY + d.seconds, d.microseconds as int);
    assert(m == (d.days * SECONDS_PER_DAY + d.seconds) * MICROS_PER_SECOND + d.microseconds) by (nonlinear_arith)
        requires
            m == delta_micros(d),
    ;
    lemma_fundamental_div_mod_converse(d.days * SECONDS_PER_DAY + d.seconds, SECONDS_PER_DAY as int, d.days as int, d.seconds as int);
}

/// Refuses a zero duration for a parameter that must be positive.
pub fn reject_zero(t: Timespan, parameter: Parameter) -> (r: Result<Timespan, ConfigError>)
    ensures
        r == nonzero_result(t, parameter),
{
    if t.is_zero() {
        Err(ConfigError::ZeroDuration(parameter))
    } else {
        Ok(t)
    }
}

/// Reads a duration argument that must be positive: first as a duration at
/// all, then refusing zero.
pub fn positive_timespan(d: TimeDelta, parameter: Parameter) -> (r: Result<Timespan, ConfigError>)
    ensures
        r == positive_timespan_result(d, parameter),
{
    match Timespan::from_delta(d) {
        Ok(t) => reject_zero(t, parameter),
        Err(e) => Err(e),
    }
}

fn push_field(acc: &mut String, name: &str, value: u128)
    ensures
        final(acc)@ == append_field(old(acc)@, name@, value as nat),
{
    if value != 0 {
        if !acc.as_str().is_empty() {
            acc.append(", ");
        }
        acc.append(name);
        acc.append("=");
        push_decimal(acc, value);
    }
}

/// The `repr` of the Python `timedelta` that a duration reads back as.
pub fn duration_repr(t: Timespan) -> (r: String)
    ensures
        r@ == timespan_repr(t),
{
    let mut fields = String::new();
    push_field(&mut fields, "days", t.micros / MICROS_PER_DAY);
    push_field(&mut fields, "seconds", (t.micros / MICROS_PER_SECOND) % SECONDS_PER_DAY);
    push_field(&mut fields, "microseconds", t.micros % MICROS_PER_SECOND);
    assert(fields@ == append_field(
        append_field(append_field(Seq::empty(), "days"@, (t.micros / MICROS_PER_DAY) as nat), "seconds"@,
            ((t.micros / MICROS_PER_SECOND) % SECONDS_PER_DAY) as nat),
        "microseconds"@,
        (t.micros % MICROS_PER_SECOND) as nat,
    ));
    if fields.as_str().is_empty() {
        String::from_str("datetime.timedelta(0)")
    } else {
        let mut r = String::from_str("datetime.timedelta(");
        r.append(fields.as_str());
        r.append(")");
        r
    }
}

} // verus!
