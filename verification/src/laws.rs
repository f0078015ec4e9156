//! Properties that hold across the configuration functions.

use crate::auto_login::{auto_login_repr, login_enabled, login_username, AutoLogin};
use crate::duration::{delta_micros, positive_timespan_result, timespan_result, TimeDelta, Timespan};
use crate::error::{u32_arg_result, ConfigError, Parameter};
use crate::http::{http_config_repr, http_config_view, requested_api_url, valid_api_url, HttpConfigView};
use crate::text::{is_white_space, law_trim_idempotent, trimmed};
use crate::reconnection::{
    default_reconnection, reconnection_result, TcpReconnectionConfig, TcpReconnectionConfigView,
};
use crate::tcp::{requested_server_address, tcp_config_view, valid_server_address, TcpConfigView};
use vstd::prelude::*;

verus! {

/// Credentials given as a username and password read back that username,
/// and count as enabled.
pub proof fn law_username_read_back(username: String, password: String)
    ensures
        login_username((AutoLogin::UsernamePassword { username, password })@) == Some(username@),
        login_enabled((AutoLogin::UsernamePassword { username, password })@),
{
}

/// Automatic login is enabled exactly when it is not the disabled variant, and
/// a username is only ever reported for enabled login.
pub proof fn law_enabled_unless_disabled(a: AutoLogin)
    ensures
        login_enabled(a@) <==> !(a is Disabled),
        login_username(a@) is Some ==> login_enabled(a@),
{
}

/// The `repr` of credentials never depends on the password or the token.
pub proof fn law_repr_hides_secrets(username: String, password: String, other_password: String, token: String, other_token: String)
    ensures
        auto_login_repr((AutoLogin::UsernamePassword { username, password })@)
            == auto_login_repr((AutoLogin::UsernamePassword { username, password: other_password })@),
        auto_login_repr((AutoLogin::PersonalAccessToken { token })@)
            == auto_login_repr((AutoLogin::PersonalAccessToken { token: other_token })@),
{
}

/// The `repr` of an HTTP configuration depends on the JWT only through whether
/// one is configured.
pub proof fn law_http_repr_hides_jwt(a: HttpConfigView, b: HttpConfigView)
    requires
        a.api_url == b.api_url,
        a.retries == b.retries,
        a.heartbeat_interval == b.heartbeat_interval,
        a.jwt is Some == b.jwt is Some,
    ensures
        http_config_repr(a) == http_config_repr(b),
{
}

/// A count argument is accepted exactly when it lies in `0..=u32::MAX`, and
/// then it is kept as it is.
pub proof fn law_count_range(value: i64, parameter: Parameter)
    ensures
        u32_arg_result(value, parameter) is Ok <==> 0 <= value <= u32::MAX,
        u32_arg_result(value, parameter) matches Ok(n) ==> n == value,
{
}

/// A duration that must be positive is refused exactly when it is negative or
/// zero, and otherwise kept to the microsecond; one that may be zero is refused
/// exactly when it is negative.
pub proof fn law_duration_acceptance(d: TimeDelta, parameter: Parameter)
    ensures
        positive_timespan_result(d, parameter) is Ok <==> 0 < delta_micros(d),
        positive_timespan_result(d, parameter) matches Ok(t) ==> t.micros == delta_micros(d),
        timespan_result(d) is Ok <==> 0 <= delta_micros(d),
        timespan_result(d) matches Ok(t) ==> t.micros == delta_micros(d),
{
}

/// A reconnection policy is refused exactly when `max_retries` lies outside
/// `0..=u32::MAX`, `interval` is negative or zero, or `reestablish_after` is
/// negative; `enabled` never causes a refusal.
pub proof fn law_reconnection_refused_exactly_when(
    enabled: Option<bool>,
    max_retries: Option<i64>,
    interval: Option<TimeDelta>,
    reestablish_after: Option<TimeDelta>,
)
    ensures
        reconnection_result(enabled, max_retries, interval, reestablish_after) is Err <==> {
            ||| (max_retries matches Some(m) && !(0 <= m <= u32::MAX))
            ||| (interval matches Some(d) && delta_micros(d) <= 0)
            ||| (reestablish_after matches Some(d) && delta_micros(d) < 0)
        },
{
}

/// With no arguments, the reconnection policy is the client's default.
pub proof fn law_reconnection_defaults()
    ensures
        reconnection_result(None, None, None, None) == Ok::<TcpReconnectionConfigView, ConfigError>(default_reconnection()),
{
}

/// Every accepted reconnection argument reads back as given: `enabled` and
/// `max_retries` as they are, the durations to the microsecond.
pub proof fn law_reconnection_read_back(enabled: bool, max_retries: u32, interval: TimeDelta, reestablish_after: TimeDelta)
    requires
        0 < delta_micros(interval),
        0 <= delta_micros(reestablish_after),
    ensures
        reconnection_result(Some(enabled), Some(max_retries as i64), Some(interval), Some(reestablish_after)) matches Ok(c)
            && c.enabled == enabled
            && c.max_retries == Some(max_retries)
            && c.interval.micros == delta_micros(interval)
            && c.reestablish_after.micros == delta_micros(reestablish_after),
{
}

/// Every TCP setting that is given reads back as given.
pub proof fn law_tcp_read_back(
    server_address: Seq<char>,
    auto_login: AutoLogin,
    reconnection: TcpReconnectionConfig,
    heartbeat_interval: Timespan,
    tls_enabled: bool,
    tls_domain: String,
    tls_ca_file: String,
    tls_validate_certificate: bool,
    nodelay: bool,
)
    ensures
        tcp_config_view(
            server_address,
            Some(auto_login),
            Some(reconnection),
            heartbeat_interval,
            Some(tls_enabled),
            Some(tls_domain),
            Some(tls_ca_file),
            Some(tls_validate_certificate),
            Some(nodelay),
        ) == (TcpConfigView {
            server_address,
            auto_login,
            reconnection: reconnection@,
            heartbeat_interval,
            tls_enabled,
            tls_domain: tls_domain@,
            tls_ca_file: Some(tls_ca_file@),
            tls_validate_certificate,
            nodelay,
        }),
{
}

/// A TCP setting that is not given takes the client's default: no automatic
/// login, the default reconnection policy, no TLS, an empty TLS domain, no CA
/// file, certificate validation on, and the Nagle algorithm left on.
pub proof fn law_tcp_defaults(server_address: Seq<char>, heartbeat_interval: Timespan)
    ensures
        tcp_config_view(server_address, None, None, heartbeat_interval, None, None, None, None, None)
            == (TcpConfigView {
            server_address,
            auto_login: AutoLogin::Disabled,
            reconnection: default_reconnection(),
            heartbeat_interval,
            tls_enabled: false,
            tls_domain: Seq::empty(),
            tls_ca_file: None,
            tls_validate_certificate: true,
            nodelay: false,
        }),
{
}

/// An HTTP setting that is not given takes the client's default: the default
/// URL (which trimming leaves as it is), three retries, and no JWT.
pub proof fn law_http_defaults(heartbeat_interval: Timespan)
    ensures
        trimmed(requested_api_url(None)) == "http://127.0.0.1:3000"@,
        http_config_view(trimmed(requested_api_url(None)), None, None, heartbeat_interval) == (HttpConfigView {
            api_url: "http://127.0.0.1:3000"@,
            retries: 3,
            jwt: None,
            heartbeat_interval,
        }),
{
    reveal_strlit("http://127.0.0.1:3000");
    lemma_untrimmed_literal("http://127.0.0.1:3000"@);
}

/// Every HTTP setting that is given reads back as given (the URL trimmed), and
/// a JWT is reported exactly when one was given.
pub proof fn law_http_read_back(api_url: String, retries: u32, jwt: Option<String>, heartbeat_interval: Timespan)
    ensures
        http_config_view(trimmed(requested_api_url(Some(api_url))), Some(retries), jwt, heartbeat_interval).api_url
            == trimmed(api_url@),
        http_config_view(trimmed(requested_api_url(Some(api_url))), Some(retries), jwt, heartbeat_interval).retries
            == retries,
        http_config_view(trimmed(requested_api_url(Some(api_url))), Some(retries), jwt, heartbeat_interval).jwt is Some
            <==> jwt is Some,
        http_config_view(trimmed(requested_api_url(Some(api_url))), Some(retries), jwt, heartbeat_interval).heartbeat_interval
            == heartbeat_interval,
{
}

/// The URL that an accepted HTTP configuration keeps is a valid API URL and
/// has nothing left to trim.
pub proof fn law_stored_api_url_is_trimmed_and_valid(api_url: Option<String>, retries: Option<u32>, jwt: Option<String>, heartbeat_interval: Timespan)
    requires
        valid_api_url(trimmed(requested_api_url(api_url))),
    ensures
        valid_api_url(http_config_view(trimmed(requested_api_url(api_url)), retries, jwt, heartbeat_interval).api_url),
        trimmed(http_config_view(trimmed(requested_api_url(api_url)), retries, jwt, heartbeat_interval).api_url)
            == http_config_view(trimmed(requested_api_url(api_url)), retries, jwt, heartbeat_interval).api_url,
{
    law_trim_idempotent(requested_api_url(api_url));
}

/// The address that an accepted TCP configuration keeps is a valid `host:port`
/// pair and has nothing left to trim, whether it was given or defaulted.
pub proof fn law_stored_address_is_trimmed_and_valid(
    server_address: Option<String>,
    auto_login: Option<AutoLogin>,
    reconnection: Option<TcpReconnectionConfig>,
    heartbeat_interval: Timespan,
    tls_enabled: Option<bool>,
    tls_domain: Option<String>,
    tls_ca_file: Option<String>,
    tls_validate_certificate: Option<bool>,
    nodelay: Option<bool>,
)
    requires
        valid_server_address(trimmed(requested_server_address(server_address))),
    ensures
        ({
            let v = tcp_config_view(
                trimmed(requested_server_address(server_address)),
                auto_login,
                reconnection,
                heartbeat_interval,
                tls_enabled,
                tls_domain,
                tls_ca_file,
                tls_validate_certificate,
                nodelay,
            );
            valid_server_address(v.server_address) && trimmed(v.server_address) == v.server_address
        }),
{
    law_trim_idempotent(requested_server_address(server_address));
}

/// The default TCP address is left as it is by trimming.
pub proof fn law_default_address_untrimmed()
    ensures
        trimmed(requested_server_address(None)) == "127.0.0.1:8090"@,
{
    reveal_strlit("127.0.0.1:8090");
    lemma_untrimmed_literal("127.0.0.1:8090"@);
}

/// Text that neither starts nor ends with whitespace trims to itself.
proof fn lemma_untrimmed_literal(s: Seq<char>)
    requires
        s.len() > 0,
        !is_white_space(s[0]),
        !is_white_space(s.last()),
    ensures
        trimmed(s) == s,
{
}

} // verus!
