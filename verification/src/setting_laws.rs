//! Each setting, separately: what a constructor keeps for it depends on that
//! setting's own argument alone, and what the `repr` texts show of it.

use crate::auto_login::{auto_login_repr, login_enabled, login_username, AutoLogin};
use crate::duration::{
    delta_micros, is_normalized, law_timedelta_round_trip, positive_timespan_result, timespan_repr,
    timespan_result, TimeDelta, Timespan,
};
use crate::error::{error_message, parameter_text, ConfigError, Parameter};
use crate::http::{blank_jwt, http_config_repr, http_config_view, requested_api_url, HttpConfigView};
use crate::reconnection::{reconnection_repr, reconnection_result, TcpReconnectionConfig, TcpReconnectionConfigView};
use crate::tcp::{optional_text_repr, requested_server_address, tcp_config_repr, tcp_config_view, TcpConfigView};
use crate::text::{
    debug_quoted, decimal, digit_char, is_white_space, law_blank_iff_all_white_space, python_bool_text,
};
use vstd::prelude::*;
use vstd::seq_lib::lemma_concat_associative;

verus! {

/// What an accepted reconnection policy keeps: `enabled` as given, else on;
/// `max_retries` as given, else unlimited; `interval` to the microsecond, else
/// one second; `reestablish_after` to the microsecond, else five seconds. Each
/// depends on its own argument alone, whatever the others are.
pub proof fn law_reconnection_settings(
    enabled: Option<bool>,
    max_retries: Option<i64>,
    interval: Option<TimeDelta>,
    reestablish_after: Option<TimeDelta>,
)
    ensures
        reconnection_result(enabled, max_retries, interval, reestablish_after) matches Ok(c) ==> {
            &&& c.enabled == match enabled {
                Some(b) => b,
                None => true,
            }
            &&& c.max_retries == match max_retries {
                Some(m) => Some(m as u32),
                None => None::<u32>,
            }
            &&& c.interval.micros == match interval {
                Some(d) => delta_micros(d),
                None => 1_000_000,
            }
            &&& c.reestablish_after.micros == match reestablish_after {
                Some(d) => delta_micros(d),
                None => 5_000_000,
            }
        },
        reconnection_result(enabled, max_retries, interval, reestablish_after) is Ok
            <==> reconnection_result(None, max_retries, interval, reestablish_after) is Ok,
{
}

/// What a TCP configuration keeps once its address and heartbeat are
/// accepted: each setting as given, else the client's default, whatever the
/// other settings are.
pub proof fn law_tcp_settings(
    server_address: Seq<char>,
    auto_login: Option<AutoLogin>,
    reconnection: Option<TcpReconnectionConfig>,
    heartbeat_interval: Timespan,
    tls_enabled: Option<bool>,
    tls_domain: Option<String>,
    tls_ca_file: Option<String>,
    tls_validate_certificate: Option<bool>,
    nodelay: Option<bool>,
)
    ensures
        ({
            let v = tcp_config_view(
                server_address,
                auto_login,
                reconnection,
                heartbeat_interval,
                tls_enabled,
                tls_domain,
                tls_ca_file,
                tls_validate_certificate,
                nodelay,
            );
            &&& v.server_address == server_address
            &&& match auto_login {
                Some(a) => v.auto_login == a,
                None => v.auto_login is Disabled,
            }
            &&& match reconnection {
                Some(r) => v.reconnection == r@,
                None => {
                    &&& v.reconnection.enabled
                    &&& v.reconnection.max_retries is None
                    &&& v.reconnection.interval.micros == 1_000_000
                    &&& v.reconnection.reestablish_after.micros == 5_000_000
                },
            }
            &&& v.heartbeat_interval == heartbeat_interval
            &&& v.tls_enabled == match tls_enabled {
                Some(b) => b,
                None => false,
            }
            &&& match tls_domain {
                Some(d) => v.tls_domain == d@,
                None => v.tls_domain.len() == 0,
            }
            &&& match tls_ca_file {
                Some(f) => v.tls_ca_file == Some(f@),
                None => v.tls_ca_file is None,
            }
            &&& v.tls_validate_certificate == match tls_validate_certificate {
                Some(b) => b,
                None => true,
            }
            &&& v.nodelay == match nodelay {
                Some(b) => b,
                None => false,
            }
        }),
{
}

/// What an HTTP configuration keeps once everything is accepted: the checked
/// URL, the retries as given else three, the JWT as given else none, and the
/// heartbeat interval; each whatever the others are.
pub proof fn law_http_settings(api_url: Seq<char>, retries: Option<u32>, jwt: Option<String>, heartbeat_interval: Timespan)
    ensures
        http_config_view(api_url, retries, jwt, heartbeat_interval).api_url == api_url,
        http_config_view(api_url, retries, jwt, heartbeat_interval).retries == match retries {
            Some(n) => n,
            None => 3u32,
        },
        match jwt {
            Some(j) => http_config_view(api_url, retries, jwt, heartbeat_interval).jwt == Some(j@),
            None => http_config_view(api_url, retries, jwt, heartbeat_interval).jwt is None,
        },
        http_config_view(api_url, retries, jwt, heartbeat_interval).heartbeat_interval == heartbeat_interval,
{
}

/// Python's spelling of the two booleans, which differ.
pub proof fn law_python_bool_spelling()
    ensures
        python_bool_text(true) == "True"@,
        python_bool_text(false) == "False"@,
        python_bool_text(true) != python_bool_text(false),
{
    reveal_strlit("True");
    reveal_strlit("False");
    assert(python_bool_text(true)[0] != python_bool_text(false)[0]);
}

/// The `repr` of a duration is Python's `repr` of its `timedelta`: each
/// nonzero field of the normalised `days`, `seconds` and `microseconds`
/// shown as it is, in that order, and `datetime.timedelta(0)` for zero.
#[verifier::rlimit(50)]
pub proof fn law_duration_repr_fields(d: TimeDelta)
    requires
        is_normalized(d),
        d.days >= 0,
    ensures
        ({
            let r = timespan_repr(Timespan { micros: delta_micros(d) as u128 });
            let days = decimal(d.days as nat);
            let seconds = decimal(d.seconds as nat);
            let micros = decimal(d.microseconds as nat);
            &&& (d.days == 0 && d.seconds == 0 && d.microseconds == 0) ==> r == "datetime.timedelta(0)"@
            &&& (d.days > 0 && d.seconds == 0 && d.microseconds == 0) ==> r
                == "datetime.timedelta(days="@ + days + ")"@
            &&& (d.days == 0 && d.seconds > 0 && d.microseconds == 0) ==> r
                == "datetime.timedelta(seconds="@ + seconds + ")"@
            &&& (d.days == 0 && d.seconds == 0 && d.microseconds > 0) ==> r
                == "datetime.timedelta(microseconds="@ + micros + ")"@
            &&& (d.days > 0 && d.seconds > 0 && d.microseconds == 0) ==> r
                == "datetime.timedelta(days="@ + days + ", seconds="@ + seconds + ")"@
            &&& (d.days > 0 && d.seconds == 0 && d.microseconds > 0) ==> r
                == "datetime.timedelta(days="@ + days + ", microseconds="@ + micros + ")"@
            &&& (d.days == 0 && d.seconds > 0 && d.microseconds > 0) ==> r
                == "datetime.timedelta(seconds="@ + seconds + ", microseconds="@ + micros + ")"@
            &&& (d.days > 0 && d.seconds > 0 && d.microseconds > 0) ==> r
                == "datetime.timedelta(days="@ + days + ", seconds="@ + seconds + ", microseconds="@ + micros
                + ")"@
        }),
{
    law_timedelta_round_trip(d);
    assert(timespan_result(d)->Ok_0 == Timespan { micros: delta_micros(d) as u128 });
    reveal_strlit("days");
    reveal_strlit("seconds");
    reveal_strlit("microseconds");
    reveal_strlit("=");
    reveal_strlit(", ");
    reveal_strlit("datetime.timedelta(");
    reveal_strlit("datetime.timedelta(0)");
    reveal_strlit(")");
    reveal_strlit("datetime.timedelta(days=");
    reveal_strlit("datetime.timedelta(seconds=");
    reveal_strlit("datetime.timedelta(microseconds=");
    reveal_strlit(", seconds=");
    reveal_strlit(", microseconds=");
    let days = decimal(d.days as nat);
    let seconds = decimal(d.seconds as nat);
    let micros = decimal(d.microseconds as nat);
    let e = Seq::<char>::empty();
    assert("datetime.timedelta(days="@ =~= "datetime.timedelta("@ + "days"@ + "="@);
    assert("datetime.timedelta(seconds="@ =~= "datetime.timedelta("@ + "seconds"@ + "="@);
    assert("datetime.timedelta(microseconds="@ =~= "datetime.timedelta("@ + "microseconds"@ + "="@);
    assert(", seconds="@ =~= ", "@ + "seconds"@ + "="@);
    assert(", microseconds="@ =~= ", "@ + "microseconds"@ + "="@);
    if d.days > 0 {
        if d.seconds > 0 {
            if d.microseconds > 0 {
                assert(timespan_repr(Timespan { micros: delta_micros(d) as u128 }) =~= "datetime.timedelta(days="@ + days
                    + ", seconds="@ + seconds + ", microseconds="@ + micros + ")"@);
            } else {
                assert(timespan_repr(Timespan { micros: delta_micros(d) as u128 }) =~= "datetime.timedelta(days="@ + days
                    + ", seconds="@ + seconds + ")"@);
            }
        } else if d.microseconds > 0 {
            assert(timespan_repr(Timespan { micros: delta_micros(d) as u128 }) =~= "datetime.timedelta(days="@ + days
                + ", microseconds="@ + micros + ")"@);
        } else {
            assert(timespan_repr(Timespan { micros: delta_micros(d) as u128 }) =~= "datetime.timedelta(days="@ + days + ")"@);
        }
    } else if d.seconds > 0 {
        if d.microseconds > 0 {
            assert(timespan_repr(Timespan { micros: delta_micros(d) as u128 }) =~= "datetime.timedelta(seconds="@ + seconds
                + ", microseconds="@ + micros + ")"@);
        } else {
            assert(timespan_repr(Timespan { micros: delta_micros(d) as u128 }) =~= "datetime.timedelta(seconds="@ + seconds + ")"@);
        }
    } else if d.microseconds > 0 {
        assert(timespan_repr(Timespan { micros: delta_micros(d) as u128 }) =~= "datetime.timedelta(microseconds="@ + micros + ")"@);
    }
}

/// The `repr` of a TCP configuration ends with its TLS and socket settings,
/// each shown as it is: `tls_enabled`, the quoted `tls_domain`, the quoted
/// `tls_ca_file` or `None`, `tls_validate_certificate` and `nodelay`.
pub proof fn law_tcp_repr_shows_settings(c: TcpConfigView)
    ensures
        exists|head: Seq<char>|
            tcp_config_repr(c) == head + ", tls_enabled="@ + python_bool_text(c.tls_enabled) + ", tls_domain="@
                + debug_quoted(c.tls_domain) + ", tls_ca_file="@ + match c.tls_ca_file {
                Some(f) => debug_quoted(f),
                None => "None"@,
            } + ", tls_validate_certificate="@ + python_bool_text(c.tls_validate_certificate) + ", nodelay="@
                + python_bool_text(c.nodelay) + ")"@,
{
    let head = "TcpConfig(server_address="@ + debug_quoted(c.server_address) + ", auto_login="@
        + auto_login_repr(c.auto_login@) + ", reconnection="@ + reconnection_repr(c.reconnection)
        + ", heartbeat_interval="@ + timespan_repr(c.heartbeat_interval);
    assert(optional_text_repr(c.tls_ca_file) == match c.tls_ca_file {
        Some(f) => debug_quoted(f),
        None => "None"@,
    });
    assert(tcp_config_repr(c) == head + ", tls_enabled="@ + python_bool_text(c.tls_enabled) + ", tls_domain="@
        + debug_quoted(c.tls_domain) + ", tls_ca_file="@ + optional_text_repr(c.tls_ca_file)
        + ", tls_validate_certificate="@ + python_bool_text(c.tls_validate_certificate) + ", nodelay="@
        + python_bool_text(c.nodelay) + ")"@);
}

/// The `repr` of a TCP configuration begins with the quoted address, then
/// shows the credentials, the reconnection policy and the heartbeat interval
/// by their own `repr`s, in that order.
pub proof fn law_tcp_repr_shows_nested(c: TcpConfigView)
    ensures
        exists|tail: Seq<char>|
            tcp_config_repr(c) == "TcpConfig(server_address="@ + debug_quoted(c.server_address) + ", auto_login="@
                + auto_login_repr(c.auto_login@) + ", reconnection="@ + reconnection_repr(c.reconnection)
                + ", heartbeat_interval="@ + timespan_repr(c.heartbeat_interval) + tail,
{
    let a = "TcpConfig(server_address="@ + debug_quoted(c.server_address) + ", auto_login="@
        + auto_login_repr(c.auto_login@) + ", reconnection="@ + reconnection_repr(c.reconnection)
        + ", heartbeat_interval="@ + timespan_repr(c.heartbeat_interval);
    let pieces: Seq<Seq<char>> = seq![
        ", tls_enabled="@,
        python_bool_text(c.tls_enabled),
        ", tls_domain="@,
        debug_quoted(c.tls_domain),
        ", tls_ca_file="@,
        optional_text_repr(c.tls_ca_file),
        ", tls_validate_certificate="@,
        python_bool_text(c.tls_validate_certificate),
        ", nodelay="@,
        python_bool_text(c.nodelay),
        ")"@,
    ];
    let t1 = pieces[0];
    let t2 = t1 + pieces[1];
    let t3 = t2 + pieces[2];
    let t4 = t3 + pieces[3];
    let t5 = t4 + pieces[4];
    let t6 = t5 + pieces[5];
    let t7 = t6 + pieces[6];
    let t8 = t7 + pieces[7];
    let t9 = t8 + pieces[8];
    let t10 = t9 + pieces[9];
    let t11 = t10 + pieces[10];
    lemma_concat_associative(a, t1, pieces[1]);
    lemma_concat_associative(a, t2, pieces[2]);
    lemma_concat_associative(a, t3, pieces[3]);
    lemma_concat_associative(a, t4, pieces[4]);
    lemma_concat_associative(a, t5, pieces[5]);
    lemma_concat_associative(a, t6, pieces[6]);
    lemma_concat_associative(a, t7, pieces[7]);
    lemma_concat_associative(a, t8, pieces[8]);
    lemma_concat_associative(a, t9, pieces[9]);
    lemma_concat_associative(a, t10, pieces[10]);
    assert(tcp_config_repr(c) == a + t11);
}

/// The `repr` of a reconnection policy shows `enabled`, `max_retries` (its
/// numeral, or `None` for unlimited) and both durations, each as it is.
pub proof fn law_reconnection_repr_shows_settings(c: TcpReconnectionConfigView)
    ensures
        reconnection_repr(c) == "TcpReconnectionConfig(enabled="@ + python_bool_text(c.enabled) + ", max_retries="@
            + match c.max_retries {
            Some(n) => decimal(n as nat),
            None => "None"@,
        } + ", interval="@ + timespan_repr(c.interval) + ", reestablish_after="@ + timespan_repr(c.reestablish_after)
            + ")"@,
{
}

/// The `repr` of an HTTP configuration shows the quoted URL, the retries, the
/// JWT as `...` or `None`, and the heartbeat interval.
pub proof fn law_http_repr_shows_settings(c: HttpConfigView)
    ensures
        http_config_repr(c) == "HttpConfig(api_url="@ + debug_quoted(c.api_url) + ", retries="@ + decimal(c.retries as nat)
            + ", jwt="@ + (if c.jwt is Some { "..."@ } else { "None"@ }) + ", heartbeat_interval="@ + timespan_repr(
            c.heartbeat_interval,
        ) + ")"@,
{
}

/// The `repr` of credentials names the variant and shows the quoted username,
/// and nothing else.
pub proof fn law_auto_login_repr_text(username: String, password: String, token: String)
    ensures
        auto_login_repr(AutoLogin::Disabled@) == "AutoLogin.disabled()"@,
        auto_login_repr((AutoLogin::UsernamePassword { username, password })@) == "AutoLogin.username_password("@
            + debug_quoted(username@) + ", ...)"@,
        auto_login_repr((AutoLogin::PersonalAccessToken { token })@) == "AutoLogin.personal_access_token(...)"@,
{
}

/// Only a username and password report a username; a token or disabled
/// login reports none, and disabled login alone counts as not enabled.
pub proof fn law_auto_login_username(token: String)
    ensures
        login_username((AutoLogin::PersonalAccessToken { token })@) is None,
        login_enabled((AutoLogin::PersonalAccessToken { token })@),
        login_username(AutoLogin::Disabled@) is None,
        !login_enabled(AutoLogin::Disabled@),
{
}

/// A negative duration is refused as negative, whatever the parameter; a
/// zero one is refused as zero for a parameter that must be positive, naming
/// that parameter, and kept as zero where zero is allowed.
pub proof fn law_duration_refusals(d: TimeDelta, parameter: Parameter)
    ensures
        delta_micros(d) < 0 ==> timespan_result(d) == Err::<Timespan, ConfigError>(ConfigError::NegativeDuration),
        delta_micros(d) < 0 ==> positive_timespan_result(d, parameter) == Err::<Timespan, ConfigError>(
            ConfigError::NegativeDuration,
        ),
        delta_micros(d) == 0 ==> positive_timespan_result(d, parameter) == Err::<Timespan, ConfigError>(
            ConfigError::ZeroDuration(parameter),
        ),
        delta_micros(d) == 0 ==> timespan_result(d) == Ok::<Timespan, ConfigError>(Timespan { micros: 0 }),
{
}

/// A JWT is blank exactly when every character of it is whitespace; no JWT is
/// never blank.
pub proof fn law_blank_jwt(jwt: String)
    ensures
        blank_jwt(Some(jwt)) <==> forall|i: int| 0 <= i < jwt@.len() ==> is_white_space(#[trigger] jwt@[i]),
        !blank_jwt(None),
{
    law_blank_iff_all_white_space(jwt@);
}

/// A given address or URL is what is handed to the iggy client, as it is.
pub proof fn law_requested_as_given(server_address: String, api_url: String)
    ensures
        requested_server_address(Some(server_address)) == server_address@,
        requested_api_url(Some(api_url)) == api_url@,
{
}

/// The numeral of a number with more than one digit is the numeral of all but
/// its last digit followed by that digit; a single digit is its own numeral,
/// and digits are the ASCII characters `0` to `9` in order.
pub proof fn law_decimal_digits(n: nat, d: nat)
    requires
        d < 10,
    ensures
        decimal(d) == seq![digit_char(d)],
        digit_char(d) as u32 == '0' as u32 + d,
        n > 0 ==> decimal(n * 10 + d) == decimal(n).push(digit_char(d)),
{
    if n > 0 {
        assert((n * 10 + d) / 10 == n && (n * 10 + d) % 10 == d) by (nonlinear_arith)
            requires
                d < 10,
        ;
    }
}

/// The keywords as Python callers write them, and the refusal messages that
/// name them.
pub proof fn law_parameter_messages(p: Parameter)
    ensures
        parameter_text(Parameter::MaxRetries) == "max_retries"@,
        parameter_text(Parameter::Retries) == "retries"@,
        parameter_text(Parameter::Interval) == "interval"@,
        parameter_text(Parameter::HeartbeatInterval) == "heartbeat_interval"@,
        error_message(ConfigError::OutOfRange(p)) == "'"@ + parameter_text(p) + "' must be between 0 and "@ + decimal(
            4294967295,
        ),
        error_message(ConfigError::ZeroDuration(p)) == "'"@ + parameter_text(p) + "' must be greater than zero"@,
        error_message(ConfigError::NegativeDuration) == "duration must not be negative"@,
        error_message(ConfigError::BlankJwt) == "'jwt' must not be empty or whitespace-only"@,
{
}

} // verus!
