//! The errors that configuration constructors report, each of which Python
//! sees as a `ValueError` carrying `ConfigError::message`.

use crate::text::{decimal, push_decimal};
use vstd::prelude::*;
use vstd::string::StringExecFns;

verus! {

/// A keyword argument that a constructor validates.
#[derive(Clone, Copy, PartialEq, Eq, Structural, Debug)]
pub enum Parameter {
    MaxRetries,
    Retries,
    Interval,
    HeartbeatInterval,
}

/// The keyword as Python callers write it.
pub open spec fn parameter_text(p: Parameter) -> Seq<char> {
    match p {
        Parameter::MaxRetries => "max_retries"@,
        Parameter::Retries => "retries"@,
        Parameter::Interval => "interval"@,
        Parameter::HeartbeatInterval => "heartbeat_interval"@,
    }
}

impl Parameter {
    /// The keyword as Python callers write it.
    pub fn name(&self) -> (r: &'static str)
        ensures
            r@ == parameter_text(*self),
    {
        match self {
            Parameter::MaxRetries => "max_retries",
            Parameter::Retries => "retries",
            Parameter::Interval => "interval",
            Parameter::HeartbeatInterval => "heartbeat_interval",
        }
    }
}

/// Why a configuration was refused.
#[derive(Debug)]
pub enum ConfigError {
    /// An integer argument lies outside the range of `u32`.
    OutOfRange(Parameter),
    /// A duration argument is negative.
    NegativeDuration,
    /// A duration argument that must be positive is zero.
    ZeroDuration(Parameter),
    /// The JWT is empty or holds only whitespace.
    BlankJwt,
    /// The TCP server address is not a valid `host:port` pair; the text is the
    /// reason that the iggy client reported.
    InvalidServerAddress(String),
    /// The HTTP API URL is not a valid `scheme://host[:port]`; the text is the
    /// reason that the iggy client reported.
    InvalidApiUrl(String),
}

/// The text of `ConfigError::message` for each error.
pub open spec fn error_message(e: ConfigError) -> Seq<char> {
    match e {
        ConfigError::OutOfRange(p) =>
            "'"@ + parameter_text(p) + "' must be between 0 and "@ + decimal(u32::MAX as nat),
        ConfigError::NegativeDuration => "duration must not be negative"@,
        ConfigError::ZeroDuration(p) => "'"@ + parameter_text(p) + "' must be greater than zero"@,
        ConfigError::BlankJwt => "'jwt' must not be empty or whitespace-only"@,
        ConfigError::InvalidServerAddress(reason) => reason@,
        ConfigError::InvalidApiUrl(reason) => reason@,
    }
}

impl ConfigError {
    /// The message that Python callers read from the `ValueError`.
    pub fn message(&self) -> (r: String)
        ensures
            r@ == error_message(*self),
    {
        match self {
            ConfigError::OutOfRange(p) => {
                let mut s = String::from_str("'");
                s.append(p.name());
                s.append("' must be between 0 and ");
                push_decimal(&mut s, u32::MAX as u128);
                s
            },
            ConfigError::NegativeDuration => String::from_str("duration must not be negative"),
            ConfigError::ZeroDuration(p) => {
                let mut s = String::from_str("'");
                s.append(p.name());
                s.append("' must be greater than zero");
                s
            },
            ConfigError::BlankJwt => String::from_str("'jwt' must not be empty or whitespace-only"),
            ConfigError::InvalidServerAddress(reason) => reason.clone(),
            ConfigError::InvalidApiUrl(reason) => reason.clone(),
        }
    }
}

/// The outcome of `u32_arg`: the value itself when it fits in `u32`.
pub open spec fn u32_arg_result(value: i64, parameter: Parameter) -> Result<u32, ConfigError> {
    if 0 <= value <= u32::MAX {
        Ok(value as u32)
    } else {
        Err(ConfigError::OutOfRange(parameter))
    }
}

/// Converts a Python integer to the unsigned 32-bit count that `max_retries`
/// and `retries` expect, naming the parameter in the error.
pub fn u32_arg(value: i64, parameter: Parameter) -> (r: Result<u32, ConfigError>)
    ensures
        r == u32_arg_result(value, parameter),
{
    match u32::try_from(value) {
        Ok(v) => Ok(v),
        Err(_) => Err(ConfigError::OutOfRange(parameter)),
    }
}

} // verus!
