//! How the TCP client reconnects after the connection to the server is lost.

use crate::duration::{
    duration_repr, positive_timespan, positive_timespan_result, timespan_repr, timespan_result,
    TimeDelta, Timespan,
};
use crate::error::{u32_arg, u32_arg_result, ConfigError, Parameter};
use crate::text::{decimal, push_decimal, python_bool, python_bool_text};
use vstd::prelude::*;
use vstd::string::StringExecFns;

verus! {

/// A reconnection policy.
#[derive(Clone, Copy, Debug)]
pub struct TcpReconnectionConfig {
    enabled: bool,
    max_retries: Option<u32>,
    interval: Timespan,
    reestablish_after: Timespan,
}

/// The settings of a reconnection policy.
pub struct TcpReconnectionConfigView {
    /// Whether to reconnect at all.
    pub enabled: bool,
    /// Passes over the known endpoints after the first, or `None` for unlimited.
    pub max_retries: Option<u32>,
    /// Delay between passes; never zero.
    pub interval: Timespan,
    /// Cooldown before redialing the endpoint of the last successful connection.
    pub reestablish_after: Timespan,
}

impl View for TcpReconnectionConfig {
    type V = TcpReconnectionConfigView;

    closed spec fn view(&self) -> TcpReconnectionConfigView {
        TcpReconnectionConfigView {
            enabled: self.enabled,
            max_retries: self.max_retries,
            interval: self.interval,
            reestablish_after: self.reestablish_after,
        }
    }
}

/// The policy that the iggy client uses when none is given: reconnect, with
/// no limit on passes, one second apart, redialing the last endpoint after
/// five seconds.
pub open spec fn default_reconnection() -> TcpReconnectionConfigView {
    TcpReconnectionConfigView {
        enabled: true,
        max_retries: None,
        interval: Timespan { micros: 1_000_000 },
        reestablish_after: Timespan { micros: 5_000_000 },
    }
}

/// An optional count argument: absent stays absent, present must fit in `u32`.
pub open spec fn optional_count_result(value: Option<i64>, parameter: Parameter) -> Result<Option<u32>, ConfigError> {
    match value {
        None => Ok(None),
        Some(v) => match u32_arg_result(v, parameter) {
            Ok(n) => Ok(Some(n)),
            Err(e) => Err(e),
        },
    }
}

/// An optional duration argument that must be positive, or the default.
pub open spec fn optional_positive_result(value: Option<TimeDelta>, default: Timespan, parameter: Parameter) -> Result<Timespan, ConfigError> {
    match value {
        None => Ok(default),
        Some(d) => positive_timespan_result(d, parameter),
    }
}

/// An optional duration argument, or the default.
pub open spec fn optional_timespan_result(value: Option<TimeDelta>, default: Timespan) -> Result<Timespan, ConfigError> {
    match value {
        None => Ok(default),
        Some(d) => timespan_result(d),
    }
}

/// The outcome of `TcpReconnectionConfig::new`: the arguments are checked in
/// the order `max_retries`, `interval`, `reestablish_after`, and the first
/// refusal is reported; what is not given comes from the default policy,
/// except `max_retries`, which is then unlimited.
pub open spec fn reconnection_result(
    enabled: Option<bool>,
    max_retries: Option<i64>,
    interval: Option<TimeDelta>,
    reestablish_after: Option<TimeDelta>,
) -> Result<TcpReconnectionConfigView, ConfigError> {
    let defaults = default_reconnection();
    match optional_count_result(max_retries, Parameter::MaxRetries) {
        Err(e) => Err(e),
        Ok(max_retries) => match optional_positive_result(interval, defaults.interval, Parameter::Interval) {
            Err(e) => Err(e),
            Ok(interval) => match optional_timespan_result(reestablish_after, defaults.reestablish_after) {
                Err(e) => Err(e),
                Ok(reestablish_after) => Ok(TcpReconnectionConfigView {
                    enabled: match enabled {
                        Some(b) => b,
                        None => defaults.enabled,
                    },
                    max_retries,
                    interval,
                    reestablish_after,
                }),
            },
        },
    }
}

/// The text of `TcpReconnectionConfig::repr`.
pub open spec fn reconnection_repr(c: TcpReconnectionConfigView) -> Seq<char> {
    "TcpReconnectionConfig(enabled="@ + python_bool_text(c.enabled) + ", max_retries="@
        + match c.max_retries {
        Some(n) => decimal(n as nat),
        None => "None"@,
    } + ", interval="@ + timespan_repr(c.interval) + ", reestablish_after="@ + timespan_repr(
        c.reestablish_after,
    ) + ")"@
}

/// `iggy`'s `TcpClientReconnectionConfig::default()`, read into the library's
/// type: its fields as they are, the durations in microseconds. The contract
/// states the values that the crate's `Default` impl sets.
#[verifier::external_body]
fn iggy_default_reconnection() -> (r: TcpReconnectionConfig)
    ensures
        r@ == default_reconnection(),
{
    let d = iggy::prelude::TcpClientReconnectionConfig::default();
    TcpReconnectionConfig {
        enabled: d.enabled,
        max_retries: d.max_retries,
        interval: Timespan { micros: d.interval.get_duration().as_micros() },
        reestablish_after: Timespan { micros: d.reestablish_after.get_duration().as_micros() },
    }
}

impl TcpReconnectionConfig {
    #[verifier::type_invariant]
    spec fn interval_is_positive(self) -> bool {
        self.interval.micros > 0
    }

    /// The default policy.
    pub fn default_policy() -> (r: Self)
        ensures
            r@ == default_reconnection(),
    {
        iggy_default_reconnection()
    }

    /// Builds a policy from the optional keyword arguments. Refused: a
    /// `max_retries` outside the range of `u32`, a negative duration, and a
    /// zero `interval`.
    pub fn new(
        enabled: Option<bool>,
        max_retries: Option<i64>,
        interval: Option<TimeDelta>,
        reestablish_after: Option<TimeDelta>,
    ) -> (r: Result<Self, ConfigError>)
        ensures
            match reconnection_result(enabled, max_retries, interval, reestablish_after) {
                Ok(v) => r matches Ok(c) && c@ == v,
                Err(e) => r matches Err(f) && f == e,
            },
    {
        let defaults = Self::default_policy();
        proof {
            use_type_invariant(&defaults);
        }
        let enabled = match enabled {
            Some(b) => b,
            None => defaults.enabled,
        };
        let max_retries = match max_retries {
            Some(v) => match u32_arg(v, Parameter::MaxRetries) {
                Ok(n) => Some(n),
                Err(e) => return Err(e),
            },
            None => None,
        };
        let interval = match interval {
            Some(d) => match positive_timespan(d, Parameter::Interval) {
                Ok(t) => t,
                Err(e) => return Err(e),
            },
            None => defaults.interval,
        };
        let reestablish_after = match reestablish_after {
            Some(d) => match Timespan::from_delta(d) {
                Ok(t) => t,
                Err(e) => return Err(e),
            },
            None => defaults.reestablish_after,
        };
        Ok(TcpReconnectionConfig { enabled, max_retries, interval, reestablish_after })
    }

    /// Whether to reconnect at all.
    pub fn enabled(&self) -> (r: bool)
        ensures
            r == self@.enabled,
    {
        self.enabled
    }

    /// Passes over the known endpoints after the first, or `None` for unlimited.
    pub fn max_retries(&self) -> (r: Option<u32>)
        ensures
            r == self@.max_retries,
    {
        self.max_retries
    }

    /// Delay between passes.
    pub fn interval(&self) -> (r: Timespan)
        ensures
            r == self@.interval,
            r.micros > 0,
    {
        proof {
            use_type_invariant(self);
        }
        self.interval
    }

    /// Cooldown before redialing the endpoint of the last successful connection.
    pub fn reestablish_after(&self) -> (r: Timespan)
        ensures
            r == self@.reestablish_after,
    {
        self.reestablish_after
    }

    /// The Python `repr`, such as
    /// `TcpReconnectionConfig(enabled=True, max_retries=None, interval=datetime.timedelta(seconds=1), reestablish_after=datetime.timedelta(seconds=5))`.
    pub fn repr(&self) -> (r: String)
        ensures
            r@ == reconnection_repr(self@),
    {
        let mut r = String::from_str("TcpReconnectionConfig(enabled=");
        r.append(python_bool(self.enabled));
        r.append(", max_retries=");
        match self.max_retries {
            Some(n) => push_decimal(&mut r, n as u128),
            None => r.append("None"),
        }
        r.append(", interval=");
        let interval = duration_repr(self.interval);
        r.append(interval.as_str());
        r.append(", reestablish_after=");
        let reestablish_after = duration_repr(self.reestablish_after);
        r.append(reestablish_after.as_str());
        r.append(")");
        r
    }
}

} // verus!
