//! Configuration for the TCP transport.
//!
//! Every field is optional. The server address is trimmed and checked by the
//! iggy client's own configuration builder, which starts from the client's
//! defaults.

use crate::auto_login::{auto_login_repr, AutoLogin};
use crate::duration::{duration_repr, positive_timespan, timespan_repr, TimeDelta, Timespan};
use crate::error::{ConfigError, Parameter};
use crate::reconnection::{
    default_reconnection, optional_positive_result, reconnection_repr, TcpReconnectionConfig,
    TcpReconnectionConfigView,
};
use crate::text::{debug_quote, debug_quoted, python_bool, python_bool_text, trimmed};
use vstd::prelude::*;
use vstd::string::StringExecFns;

verus! {

/// The name for the verdict of `iggy`'s `validate_server_address` on `addr`:
/// whether it is a `host:port`, `ipv4:port` or `[ipv6]:port` with a port
/// from 1 to 65535.
pub uninterp spec fn valid_server_address(addr: Seq<char>) -> bool;

/// The TCP settings as the iggy client sets them when nothing is given.
struct TcpDefaults {
    server_address: String,
    tls_enabled: bool,
    tls_domain: String,
    tls_ca_file: Option<String>,
    tls_validate_certificate: bool,
    heartbeat_interval: Timespan,
    nodelay: bool,
}

/// `iggy`'s `TcpClientConfig::default()`, read into plain values (the
/// heartbeat interval in microseconds). Its login and reconnection defaults,
/// `AutoLogin::Disabled` and `TcpClientReconnectionConfig::default()`, are not
/// read here. The contract states the values that the crate's `Default` impl
/// sets.
#[verifier::external_body]
fn iggy_tcp_defaults() -> (r: TcpDefaults)
    ensures
        r.server_address@ == "127.0.0.1:8090"@,
        !r.tls_enabled,
        r.tls_domain@ == Seq::<char>::empty(),
        r.tls_ca_file is None,
        r.tls_validate_certificate,
        r.heartbeat_interval == (Timespan { micros: 5_000_000 }),
        !r.nodelay,
{
    let c = iggy::prelude::TcpClientConfig::default();
    TcpDefaults {
        server_address: c.server_address,
        tls_enabled: c.tls_enabled,
        tls_domain: c.tls_domain,
        tls_ca_file: c.tls_ca_file,
        tls_validate_certificate: c.tls_validate_certificate,
        heartbeat_interval: Timespan { micros: c.heartbeat_interval.get_duration().as_micros() },
        nodelay: c.nodelay,
    }
}

/// The name for the text (`Display`) of the error that `iggy`'s TCP builder
/// reports when it refuses the address `addr`; it is built from the address
/// alone.
pub uninterp spec fn server_address_refusal(addr: Seq<char>) -> Seq<char>;

/// `iggy`'s `TcpClientConfigBuilder::new().with_server_address(addr).build()`,
/// of which the address is kept, or the text of the error. `build` trims the
/// address with `str::trim` and passes it to `validate_server_address`; it
/// fails exactly when that does, and otherwise holds the trimmed address.
#[verifier::external_body]
fn iggy_tcp_checked_address(addr: String) -> (r: Result<String, String>)
    ensures
        r is Ok <==> valid_server_address(trimmed(addr@)),
        r matches Ok(a) ==> a@ == trimmed(addr@),
        r matches Err(m) ==> m@ == server_address_refusal(addr@),
{
    match iggy::prelude::TcpClientConfigBuilder::new().with_server_address(addr).build() {
        Ok(c) => Ok(c.server_address),
        Err(e) => Err(e.to_string()),
    }
}

/// A TCP configuration.
pub struct TcpConfig {
    server_address: String,
    auto_login: AutoLogin,
    reconnection: TcpReconnectionConfig,
    heartbeat_interval: Timespan,
    tls_enabled: bool,
    tls_domain: String,
    tls_ca_file: Option<String>,
    tls_validate_certificate: bool,
    nodelay: bool,
}

/// The settings of a TCP configuration.
pub struct TcpConfigView {
    /// `host:port` of the server.
    pub server_address: Seq<char>,
    /// Credentials replayed on every connect.
    pub auto_login: AutoLogin,
    /// Reconnection policy.
    pub reconnection: TcpReconnectionConfigView,
    /// Interval of heartbeats sent by the client; never zero.
    pub heartbeat_interval: Timespan,
    /// Whether to connect over TLS.
    pub tls_enabled: bool,
    /// Domain to validate the certificate against; empty means the host of the address.
    pub tls_domain: Seq<char>,
    /// Path to the CA file for TLS.
    pub tls_ca_file: Option<Seq<char>>,
    /// Whether to validate the server certificate.
    pub tls_validate_certificate: bool,
    /// Whether the Nagle algorithm is disabled.
    pub nodelay: bool,
}

impl View for TcpConfig {
    type V = TcpConfigView;

    closed spec fn view(&self) -> TcpConfigView {
        TcpConfigView {
            server_address: self.server_address@,
            auto_login: self.auto_login,
            reconnection: self.reconnection@,
            heartbeat_interval: self.heartbeat_interval,
            tls_enabled: self.tls_enabled,
            tls_domain: self.tls_domain@,
            tls_ca_file: match self.tls_ca_file {
                Some(f) => Some(f@),
                None => None,
            },
            tls_validate_certificate: self.tls_validate_certificate,
            nodelay: self.nodelay,
        }
    }
}

/// The address that `TcpConfig::new` hands to the iggy builder: the one given,
/// or the client's default.
pub open spec fn requested_server_address(server_address: Option<String>) -> Seq<char> {
    match server_address {
        Some(a) => a@,
        None => "127.0.0.1:8090"@,
    }
}

/// The configuration that `TcpConfig::new` builds once the address and the
/// heartbeat interval are accepted: each given value, else the client's default.
pub open spec fn tcp_config_view(
    server_address: Seq<char>,
    auto_login: Option<AutoLogin>,
    reconnection: Option<TcpReconnectionConfig>,
    heartbeat_interval: Timespan,
    tls_enabled: Option<bool>,
    tls_domain: Option<String>,
    tls_ca_file: Option<String>,
    tls_validate_certificate: Option<bool>,
    nodelay: Option<bool>,
) -> TcpConfigView {
    TcpConfigView {
        server_address,
        auto_login: match auto_login {
            Some(a) => a,
            None => AutoLogin::Disabled,
        },
        reconnection: match reconnection {
            Some(r) => r@,
            None => default_reconnection(),
        },
        heartbeat_interval,
        tls_enabled: match tls_enabled {
            Some(b) => b,
            None => false,
        },
        tls_domain: match tls_domain {
            Some(d) => d@,
            None => Seq::empty(),
        },
        tls_ca_file: match tls_ca_file {
            Some(f) => Some(f@),
            None => None,
        },
        tls_validate_certificate: match tls_validate_certificate {
            Some(b) => b,
            None => true,
        },
        nodelay: match nodelay {
            Some(b) => b,
            None => false,
        },
    }
}

/// An optional string in Python's `repr`: quoted, or `None`.
pub open spec fn optional_text_repr(s: Option<Seq<char>>) -> Seq<char> {
    match s {
        Some(t) => debug_quoted(t),
        None => "None"@,
    }
}

/// The text of `TcpConfig::repr`.
pub open spec fn tcp_config_repr(c: TcpConfigView) -> Seq<char> {
    "TcpConfig(server_address="@ + debug_quoted(c.server_address) + ", auto_login="@
        + auto_login_repr(c.auto_login@) + ", reconnection="@ + reconnection_repr(c.reconnection)
        + ", heartbeat_interval="@ + timespan_repr(c.heartbeat_interval) + ", tls_enabled="@
        + python_bool_text(c.tls_enabled) + ", tls_domain="@ + debug_quoted(c.tls_domain)
        + ", tls_ca_file="@ + optional_text_repr(c.tls_ca_file) + ", tls_validate_certificate="@
        + python_bool_text(c.tls_validate_certificate) + ", nodelay="@ + python_bool_text(c.nodelay)
        + ")"@
}

fn clone_optional(s: &Option<String>) -> (r: Option<String>)
    ensures
        r == *s,
{
    match s {
        Some(t) => Some(t.clone()),
        None => None,
    }
}

impl TcpConfig {
    #[verifier::type_invariant]
    spec fn heartbeat_is_positive(self) -> bool {
        self.heartbeat_interval.micros > 0
    }

    /// Builds a TCP configuration from the optional keyword arguments.
    ///
    /// The address (the given one or the default `127.0.0.1:8090`) is trimmed
    /// and must be a valid `host:port` pair; that is checked first. Then the
    /// heartbeat interval, if given, must be neither negative nor zero. Every
    /// other argument replaces the
    /// client's default as it is.
    pub fn new(
        server_address: Option<String>,
        auto_login: Option<AutoLogin>,
        reconnection: Option<TcpReconnectionConfig>,
        heartbeat_interval: Option<TimeDelta>,
        tls_enabled: Option<bool>,
        tls_domain: Option<String>,
        tls_ca_file: Option<String>,
        tls_validate_certificate: Option<bool>,
        nodelay: Option<bool>,
    ) -> (r: Result<Self, ConfigError>)
        ensures
            !valid_server_address(trimmed(requested_server_address(server_address)))
                ==> (r matches Err(ConfigError::InvalidServerAddress(m))
                && m@ == server_address_refusal(requested_server_address(server_address))),
            valid_server_address(trimmed(requested_server_address(server_address))) ==> match optional_positive_result(
                heartbeat_interval,
                Timespan { micros: 5_000_000 },
                Parameter::HeartbeatInterval,
            ) {
                Err(e) => r matches Err(f) && f == e,
                Ok(heartbeat) => r matches Ok(c) && c@ == tcp_config_view(
                    trimmed(requested_server_address(server_address)),
                    auto_login,
                    reconnection,
                    heartbeat,
                    tls_enabled,
                    tls_domain,
                    tls_ca_file,
                    tls_validate_certificate,
                    nodelay,
                ),
            },
    {
        let requested = match server_address {
            Some(a) => a,
            None => iggy_tcp_defaults().server_address,
        };
        let checked = iggy_tcp_checked_address(requested);
        Self::from_checked_address(
            checked,
            auto_login,
            reconnection,
            heartbeat_interval,
            tls_enabled,
            tls_domain,
            tls_ca_file,
            tls_validate_certificate,
            nodelay,
        )
    }

    /// Builds a TCP configuration once the iggy client has judged the address:
    /// `checked` is the trimmed address it accepted, or the reason it gave for
    /// refusing it. A refusal is reported as it is; otherwise the heartbeat
    /// interval is checked and every other argument replaces the client's
    /// default, as in `new`.
    pub fn from_checked_address(
        checked: Result<String, String>,
        auto_login: Option<AutoLogin>,
        reconnection: Option<TcpReconnectionConfig>,
        heartbeat_interval: Option<TimeDelta>,
        tls_enabled: Option<bool>,
        tls_domain: Option<String>,
        tls_ca_file: Option<String>,
        tls_validate_certificate: Option<bool>,
        nodelay: Option<bool>,
    ) -> (r: Result<Self, ConfigError>)
        ensures
            match checked {
                Err(reason) => r matches Err(ConfigError::InvalidServerAddress(m)) && m@ == reason@,
                Ok(address) => match optional_positive_result(
                    heartbeat_interval,
                    Timespan { micros: 5_000_000 },
                    Parameter::HeartbeatInterval,
                ) {
                    Err(e) => r matches Err(f) && f == e,
                    Ok(heartbeat) => r matches Ok(c) && c@ == tcp_config_view(
                        address@,
                        auto_login,
                        reconnection,
                        heartbeat,
                        tls_enabled,
                        tls_domain,
                        tls_ca_file,
                        tls_validate_certificate,
                        nodelay,
                    ),
                },
            },
    {
        let defaults = iggy_tcp_defaults();
        let server_address = match checked {
            Ok(a) => a,
            Err(reason) => return Err(ConfigError::InvalidServerAddress(reason)),
        };
        let auto_login = match auto_login {
            Some(a) => a,
            None => AutoLogin::disabled(),
        };
        let reconnection = match reconnection {
            Some(r) => r,
            None => TcpReconnectionConfig::default_policy(),
        };
        let heartbeat_interval = match heartbeat_interval {
            Some(d) => match positive_timespan(d, Parameter::HeartbeatInterval) {
                Ok(t) => t,
                Err(e) => return Err(e),
            },
            None => defaults.heartbeat_interval,
        };
        let tls_enabled = match tls_enabled {
            Some(b) => b,
            None => defaults.tls_enabled,
        };
        let tls_domain = match tls_domain {
            Some(d) => d,
            None => defaults.tls_domain,
        };
        let tls_ca_file = if tls_ca_file.is_some() {
            tls_ca_file
        } else {
            defaults.tls_ca_file
        };
        let tls_validate_certificate = match tls_validate_certificate {
            Some(b) => b,
            None => defaults.tls_validate_certificate,
        };
        let nodelay = match nodelay {
            Some(b) => b,
            None => defaults.nodelay,
        };
        Ok(TcpConfig {
            server_address,
            auto_login,
            reconnection,
            heartbeat_interval,
            tls_enabled,
            tls_domain,
            tls_ca_file,
            tls_validate_certificate,
            nodelay,
        })
    }

    /// An equal copy of this configuration.
    pub fn duplicate(&self) -> (r: Self)
        ensures
            r@ == self@,
    {
        proof {
            use_type_invariant(self);
        }
        TcpConfig {
            server_address: self.server_address.clone(),
            auto_login: self.auto_login.duplicate(),
            reconnection: self.reconnection,
            heartbeat_interval: self.heartbeat_interval,
            tls_enabled: self.tls_enabled,
            tls_domain: self.tls_domain.clone(),
            tls_ca_file: clone_optional(&self.tls_ca_file),
            tls_validate_certificate: self.tls_validate_certificate,
            nodelay: self.nodelay,
        }
    }

    /// `host:port` of the server.
    pub fn server_address(&self) -> (r: String)
        ensures
            r@ == self@.server_address,
    {
        self.server_address.clone()
    }

    /// Credentials replayed on every connect.
    pub fn auto_login(&self) -> (r: AutoLogin)
        ensures
            r == self@.auto_login,
    {
        self.auto_login.duplicate()
    }

    /// Reconnection policy.
    pub fn reconnection(&self) -> (r: TcpReconnectionConfig)
        ensures
            r@ == self@.reconnection,
    {
        self.reconnection
    }

    /// Interval of heartbeats sent by the client.
    pub fn heartbeat_interval(&self) -> (r: Timespan)
        ensures
            r == self@.heartbeat_interval,
            r.micros > 0,
    {
        proof {
            use_type_invariant(self);
        }
        self.heartbeat_interval
    }

    /// Whether to connect over TLS.
    pub fn tls_enabled(&self) -> (r: bool)
        ensures
            r == self@.tls_enabled,
    {
        self.tls_enabled
    }

    /// Domain to validate the certificate against.
    pub fn tls_domain(&self) -> (r: String)
        ensures
            r@ == self@.tls_domain,
    {
        self.tls_domain.clone()
    }

    /// Path to the CA file for TLS.
    pub fn tls_ca_file(&self) -> (r: Option<String>)
        ensures
            match r {
                Some(f) => self@.tls_ca_file == Some(f@),
                None => self@.tls_ca_file is None,
            },
    {
        clone_optional(&self.tls_ca_file)
    }

    /// Whether to validate the server certificate.
    pub fn tls_validate_certificate(&self) -> (r: bool)
        ensures
            r == self@.tls_validate_certificate,
    {
        self.tls_validate_certificate
    }

    /// Whether the Nagle algorithm is disabled.
    pub fn nodelay(&self) -> (r: bool)
        ensures
            r == self@.nodelay,
    {
        self.nodelay
    }

    /// The Python `repr`.
    pub fn repr(&self) -> (r: String)
        ensures
            r@ == tcp_config_repr(self@),
    {
        let mut r = String::from_str("TcpConfig(server_address=");
        let address = debug_quote(self.server_address.as_str());
        r.append(address.as_str());
        r.append(", auto_login=");
        let auto_login = self.auto_login.repr();
        r.append(auto_login.as_str());
        r.append(", reconnection=");
        let reconnection = self.reconnection.repr();
        r.append(reconnection.as_str());
        r.append(", heartbeat_interval=");
        let heartbeat = duration_repr(self.heartbeat_interval);
        r.append(heartbeat.as_str());
        r.append(", tls_enabled=");
        r.append(python_bool(self.tls_enabled));
        r.append(", tls_domain=");
        let domain = debug_quote(self.tls_domain.as_str());
        r.append(domain.as_str());
        r.append(", tls_ca_file=");
        match &self.tls_ca_file {
            Some(f) => {
                let file = debug_quote(f.as_str());
                r.append(file.as_str());
            },
            None => r.append("None"),
        }
        r.append(", tls_validate_certificate=");
        r.append(python_bool(self.tls_validate_certificate));
        r.append(", nodelay=");
        r.append(python_bool(self.nodelay));
        r.append(")");
        r
    }
}

} // verus!
