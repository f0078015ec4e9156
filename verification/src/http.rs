//! Configuration for the HTTP transport.
//!
//! Every field is optional. HTTP is single-consumer only: the consumer kind is
//! not carried on the HTTP wire, so a consumer-group poll is served as an
//! ordinary consumer named after the group.

use crate::duration::{duration_repr, positive_timespan, timespan_repr, TimeDelta, Timespan};
use crate::error::{u32_arg, ConfigError, Parameter};
use crate::reconnection::{optional_count_result, optional_positive_result};
use crate::text::{debug_quote, debug_quoted, decimal, push_decimal, trim, trimmed};
use vstd::prelude::*;
use vstd::string::StringExecFns;

verus! {

/// The name for the verdict of `iggy`'s `validate_api_url` on `url`: whether
/// it is an `http` or `https` URL with a host and a nonzero port and nothing
/// else (no credentials, path, query or fragment).
pub uninterp spec fn valid_api_url(url: Seq<char>) -> bool;

/// The HTTP settings as the iggy client sets them when nothing is given.
struct HttpDefaults {
    api_url: String,
    retries: u32,
    jwt: Option<String>,
    heartbeat_interval: Timespan,
}

/// `iggy`'s `HttpClientConfig::default()`, read into plain values (the
/// heartbeat interval in microseconds). The contract states the values that
/// the crate's `Default` impl sets.
#[verifier::external_body]
fn iggy_http_defaults() -> (r: HttpDefaults)
    ensures
        r.api_url@ == "http://127.0.0.1:3000"@,
        r.retries == 3,
        r.jwt is None,
        r.heartbeat_interval == (Timespan { micros: 5_000_000 }),
{
    let c = iggy::prelude::HttpClientConfig::default();
    HttpDefaults {
        api_url: c.api_url,
        retries: c.retries,
        jwt: c.jwt,
        heartbeat_interval: Timespan { micros: c.heartbeat_interval.get_duration().as_micros() },
    }
}

/// The name for the text (`Display`) of the error that `iggy`'s HTTP builder
/// reports when it refuses the URL `url`; it is built from the URL alone.
pub uninterp spec fn api_url_refusal(url: Seq<char>) -> Seq<char>;

/// `iggy`'s `HttpClientConfigBuilder::new().with_api_url(url).build()`, of
/// which the URL is kept, or the text of the error. `build` trims the URL
/// with `str::trim` and passes it to `validate_api_url`; it fails exactly when
/// that does, and otherwise holds the trimmed URL.
#[verifier::external_body]
fn iggy_http_checked_api_url(url: String) -> (r: Result<String, String>)
    ensures
        r is Ok <==> valid_api_url(trimmed(url@)),
        r matches Ok(a) ==> a@ == trimmed(url@),
        r matches Err(m) ==> m@ == api_url_refusal(url@),
{
    match iggy::prelude::HttpClientConfigBuilder::new().with_api_url(url).build() {
        Ok(c) => Ok(c.api_url),
        Err(e) => Err(e.to_string()),
    }
}

/// Whether a JWT is refused: it is empty or holds only whitespace.
pub open spec fn blank_jwt(jwt: Option<String>) -> bool {
    jwt matches Some(j) && trimmed(j@).len() == 0
}

/// The URL that `HttpConfig::new` hands to the iggy builder: the one given,
/// or the client's default.
pub open spec fn requested_api_url(api_url: Option<String>) -> Seq<char> {
    match api_url {
        Some(u) => u@,
        None => "http://127.0.0.1:3000"@,
    }
}

/// An HTTP configuration.
pub struct HttpConfig {
    api_url: String,
    retries: u32,
    jwt: Option<String>,
    heartbeat_interval: Timespan,
}

/// The settings of an HTTP configuration.
pub struct HttpConfigView {
    /// Base URL of the HTTP API, as `scheme://host[:port]`.
    pub api_url: Seq<char>,
    /// Retries on transient errors, each replaying the full request.
    pub retries: u32,
    /// JWT for agent-to-agent authentication; never blank.
    pub jwt: Option<Seq<char>>,
    /// Interval between liveness probes; never zero.
    pub heartbeat_interval: Timespan,
}

impl View for HttpConfig {
    type V = HttpConfigView;

    closed spec fn view(&self) -> HttpConfigView {
        HttpConfigView {
            api_url: self.api_url@,
            retries: self.retries,
            jwt: match self.jwt {
                Some(j) => Some(j@),
                None => None,
            },
            heartbeat_interval: self.heartbeat_interval,
        }
    }
}

/// The configuration that `HttpConfig::new` builds once every argument is
/// accepted.
pub open spec fn http_config_view(
    api_url: Seq<char>,
    retries: Option<u32>,
    jwt: Option<String>,
    heartbeat_interval: Timespan,
) -> HttpConfigView {
    HttpConfigView {
        api_url,
        retries: match retries {
            Some(n) => n,
            None => 3,
        },
        jwt: match jwt {
            Some(j) => Some(j@),
            None => None,
        },
        heartbeat_interval,
    }
}

/// The text of `HttpConfig::repr`: the JWT itself is never shown.
pub open spec fn http_config_repr(c: HttpConfigView) -> Seq<char> {
    "HttpConfig(api_url="@ + debug_quoted(c.api_url) + ", retries="@ + decimal(c.retries as nat)
        + ", jwt="@ + (if c.jwt is Some { "..."@ } else { "None"@ }) + ", heartbeat_interval="@
        + timespan_repr(c.heartbeat_interval) + ")"@
}

impl HttpConfig {
    #[verifier::type_invariant]
    spec fn well_formed(self) -> bool {
        &&& self.heartbeat_interval.micros > 0
        &&& !blank_jwt(self.jwt)
    }

    /// Builds an HTTP configuration from the optional keyword arguments.
    ///
    /// The arguments are checked in the order `retries` (must fit in `u32`),
    /// `jwt` (must not be empty or whitespace-only), `heartbeat_interval` (must
    /// be neither negative nor zero), and last the API URL (the given one or the default
    /// `http://127.0.0.1:3000`), which is trimmed and must be a valid
    /// `scheme://host[:port]`. The first refusal is reported.
    pub fn new(
        api_url: Option<String>,
        retries: Option<i64>,
        jwt: Option<String>,
        heartbeat_interval: Option<TimeDelta>,
    ) -> (r: Result<Self, ConfigError>)
        ensures
            match optional_count_result(retries, Parameter::Retries) {
                Err(e) => r matches Err(f) && f == e,
                Ok(retries) => if blank_jwt(jwt) {
                    r matches Err(ConfigError::BlankJwt)
                } else {
                    match optional_positive_result(
                        heartbeat_interval,
                        Timespan { micros: 5_000_000 },
                        Parameter::HeartbeatInterval,
                    ) {
                        Err(e) => r matches Err(f) && f == e,
                        Ok(heartbeat) => if valid_api_url(trimmed(requested_api_url(api_url))) {
                            r matches Ok(c) && c@ == http_config_view(trimmed(requested_api_url(api_url)), retries, jwt, heartbeat)
                        } else {
                            r matches Err(ConfigError::InvalidApiUrl(m)) && m@ == api_url_refusal(requested_api_url(api_url))
                        },
                    }
                },
            },
    {
        let requested = match api_url {
            Some(u) => u,
            None => iggy_http_defaults().api_url,
        };
        let checked = iggy_http_checked_api_url(requested);
        Self::from_checked_api_url(checked, retries, jwt, heartbeat_interval)
    }

    /// Builds an HTTP configuration once the iggy client has judged the API
    /// URL: `checked` is the trimmed URL it accepted, or the reason it gave
    /// for refusing it. `retries`, `jwt` and `heartbeat_interval` are checked
    /// first, as in `new`; the verdict on the URL is reported last.
    pub fn from_checked_api_url(
        checked: Result<String, String>,
        retries: Option<i64>,
        jwt: Option<String>,
        heartbeat_interval: Option<TimeDelta>,
    ) -> (r: Result<Self, ConfigError>)
        ensures
            match optional_count_result(retries, Parameter::Retries) {
                Err(e) => r matches Err(f) && f == e,
                Ok(retries) => if blank_jwt(jwt) {
                    r matches Err(ConfigError::BlankJwt)
                } else {
                    match optional_positive_result(
                        heartbeat_interval,
                        Timespan { micros: 5_000_000 },
                        Parameter::HeartbeatInterval,
                    ) {
                        Err(e) => r matches Err(f) && f == e,
                        Ok(heartbeat) => match checked {
                            Ok(url) => r matches Ok(c) && c@ == http_config_view(url@, retries, jwt, heartbeat),
                            Err(reason) => r matches Err(ConfigError::InvalidApiUrl(m)) && m@ == reason@,
                        },
                    }
                },
            },
    {
        let defaults = iggy_http_defaults();
        let retries = match retries {
            Some(v) => match u32_arg(v, Parameter::Retries) {
                Ok(n) => n,
                Err(e) => return Err(e),
            },
            None => defaults.retries,
        };
        let jwt = match jwt {
            Some(j) => {
                if trim(j.as_str()).is_empty() {
                    return Err(ConfigError::BlankJwt);
                }
                Some(j)
            },
            None => defaults.jwt,
        };
        let heartbeat_interval = match heartbeat_interval {
            Some(d) => match positive_timespan(d, Parameter::HeartbeatInterval) {
                Ok(t) => t,
                Err(e) => return Err(e),
            },
            None => defaults.heartbeat_interval,
        };
        let api_url = match checked {
            Ok(u) => u,
            Err(reason) => return Err(ConfigError::InvalidApiUrl(reason)),
        };
        Ok(HttpConfig { api_url, retries, jwt, heartbeat_interval })
    }

    /// An equal copy of this configuration.
    pub fn duplicate(&self) -> (r: Self)
        ensures
            r@ == self@,
    {
        proof {
            use_type_invariant(self);
        }
        let jwt = match &self.jwt {
            Some(j) => Some(j.clone()),
            None => None,
        };
        HttpConfig {
            api_url: self.api_url.clone(),
            retries: self.retries,
            jwt,
            heartbeat_interval: self.heartbeat_interval,
        }
    }

    /// Base URL of the HTTP API.
    pub fn api_url(&self) -> (r: String)
        ensures
            r@ == self@.api_url,
    {
        self.api_url.clone()
    }

    /// Retries on transient errors.
    pub fn retries(&self) -> (r: u32)
        ensures
            r == self@.retries,
    {
        self.retries
    }

    /// Whether a JWT is configured, without exposing the token itself.
    pub fn has_jwt(&self) -> (r: bool)
        ensures
            r == self@.jwt is Some,
    {
        self.jwt.is_some()
    }

    /// The JWT, for handing the configuration to the HTTP client; the Python
    /// class does not expose it.
    pub fn jwt(&self) -> (r: Option<String>)
        ensures
            match r {
                Some(j) => self@.jwt == Some(j@) && trimmed(j@).len() != 0,
                None => self@.jwt is None,
            },
    {
        proof {
            use_type_invariant(self);
        }
        match &self.jwt {
            Some(j) => Some(j.clone()),
            None => None,
        }
    }

    /// Interval between liveness probes.
    pub fn heartbeat_interval(&self) -> (r: Timespan)
        ensures
            r == self@.heartbeat_interval,
            r.micros > 0,
    {
        proof {
            use_type_invariant(self);
        }
        self.heartbeat_interval
    }

    /// The Python `repr`, with the JWT shown as `...`.
    pub fn repr(&self) -> (r: String)
        ensures
            r@ == http_config_repr(self@),
    {
        let mut r = String::from_str("HttpConfig(api_url=");
        let url = debug_quote(self.api_url.as_str());
        r.append(url.as_str());
        r.append(", retries=");
        push_decimal(&mut r, self.retries as u128);
        r.append(", jwt=");
        if self.jwt.is_some() {
            r.append("...");
        } else {
            r.append("None");
        }
        r.append(", heartbeat_interval=");
        let heartbeat = duration_repr(self.heartbeat_interval);
        r.append(heartbeat.as_str());
        r.append(")");
        r
    }
}

} // verus!
