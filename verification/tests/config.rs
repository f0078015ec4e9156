use apache_iggy::{
    duration_repr, python_bool, reject_zero, u32_arg, AutoLogin, ConfigError, HttpConfig,
    Parameter, PyClientConfig, TcpConfig, TcpReconnectionConfig, TimeDelta, Timespan,
};

fn delta(days: i32, seconds: i32, microseconds: i32) -> TimeDelta {
    TimeDelta { days, seconds, microseconds }
}

fn tcp(server_address: Option<&str>) -> Result<TcpConfig, ConfigError> {
    TcpConfig::new(server_address.map(|s| s.to_string()), None, None, None, None, None, None, None, None)
}

const DEFAULT_RECONNECTION_REPR: &str = "TcpReconnectionConfig(enabled=True, max_retries=None, interval=datetime.timedelta(seconds=1), reestablish_after=datetime.timedelta(seconds=5))";

#[test]
fn auto_login_disabled() {
    let a = AutoLogin::disabled();
    assert!(!a.enabled());
    assert_eq!(a.username(), None);
    assert_eq!(a.repr(), "AutoLogin.disabled()");
}

#[test]
fn auto_login_username_password_reads_back_username() {
    let a = AutoLogin::username_password("iggy".to_string(), "secret".to_string());
    assert!(a.enabled());
    assert_eq!(a.username(), Some("iggy".to_string()));
    assert_eq!(a.repr(), "AutoLogin.username_password(\"iggy\", ...)");
}

#[test]
fn auto_login_token() {
    let a = AutoLogin::personal_access_token("token".to_string());
    assert!(a.enabled());
    assert_eq!(a.username(), None);
    assert_eq!(a.repr(), "AutoLogin.personal_access_token(...)");
}

#[test]
fn auto_login_repr_hides_password_and_escapes_username() {
    let a = AutoLogin::username_password("a\"b".to_string(), "one".to_string());
    let b = AutoLogin::username_password("a\"b".to_string(), "two".to_string());
    assert_eq!(a.repr(), b.repr());
    assert_eq!(a.repr(), "AutoLogin.username_password(\"a\\\"b\", ...)");
    assert!(!a.repr().contains("one"));
}

#[test]
fn auto_login_duplicate_is_equal() {
    let a = AutoLogin::username_password("u".to_string(), "p".to_string());
    match a.duplicate() {
        AutoLogin::UsernamePassword { username, password } => {
            assert_eq!(username, "u");
            assert_eq!(password, "p");
        }
        _ => panic!("variant changed"),
    }
}

#[test]
fn python_bool_spelling() {
    assert_eq!(python_bool(true), "True");
    assert_eq!(python_bool(false), "False");
}

#[test]
fn u32_arg_range() {
    assert_eq!(u32_arg(0, Parameter::Retries).unwrap(), 0);
    assert_eq!(u32_arg(4_294_967_295, Parameter::Retries).unwrap(), u32::MAX);
    let err = u32_arg(-1, Parameter::MaxRetries).unwrap_err();
    assert!(matches!(err, ConfigError::OutOfRange(Parameter::MaxRetries)));
    assert_eq!(err.message(), "'max_retries' must be between 0 and 4294967295");
    assert!(matches!(u32_arg(4_294_967_296, Parameter::Retries), Err(ConfigError::OutOfRange(Parameter::Retries))));
}

#[test]
fn timedelta_to_timespan() {
    assert_eq!(Timespan::from_delta(delta(0, 0, 0)).unwrap(), Timespan { micros: 0 });
    assert_eq!(Timespan::from_delta(delta(1, 5, 3)).unwrap(), Timespan { micros: 86_405_000_003 });
    // Python normalises -1 microsecond to days=-1, seconds=86399, microseconds=999999.
    assert!(matches!(Timespan::from_delta(delta(-1, 86_399, 999_999)), Err(ConfigError::NegativeDuration)));
    // The longest timedelta Python can build is accepted.
    let longest = Timespan::from_delta(delta(999_999_999, 86_399, 999_999)).unwrap();
    assert_eq!(longest, Timespan { micros: 86_399_999_999_999_999_999 });
    assert_eq!(longest.to_delta(), Some(delta(999_999_999, 86_399, 999_999)));
}

#[test]
fn timespan_to_timedelta_round_trip() {
    let d = delta(3, 7_200, 250_000);
    let t = Timespan::from_delta(d).unwrap();
    assert_eq!(t.to_delta(), Some(d));
    assert_eq!(Timespan { micros: 1_500_000 }.to_delta(), Some(delta(0, 1, 500_000)));
    assert_eq!(Timespan { micros: u128::MAX }.to_delta(), None);
}

#[test]
fn reject_zero_refuses_only_zero() {
    assert!(matches!(reject_zero(Timespan { micros: 0 }, Parameter::Interval), Err(ConfigError::ZeroDuration(Parameter::Interval))));
    assert_eq!(reject_zero(Timespan { micros: 1 }, Parameter::Interval).unwrap(), Timespan { micros: 1 });
}

#[test]
fn very_long_durations_are_accepted() {
    let long = Some(delta(999_999_999, 0, 0));
    let r = TcpReconnectionConfig::new(None, None, long, long).unwrap();
    assert_eq!(r.interval(), Timespan { micros: 86_399_999_913_600_000_000 });
    assert_eq!(r.repr(), "TcpReconnectionConfig(enabled=True, max_retries=None, interval=datetime.timedelta(days=999999999), reestablish_after=datetime.timedelta(days=999999999))");
    assert!(TcpConfig::new(None, None, None, long, None, None, None, None, None).is_ok());
    assert!(HttpConfig::new(None, None, None, long).is_ok());
}

#[test]
fn timedelta_reprs() {
    assert_eq!(duration_repr(Timespan { micros: 0 }), "datetime.timedelta(0)");
    assert_eq!(duration_repr(Timespan { micros: 5_000_000 }), "datetime.timedelta(seconds=5)");
    assert_eq!(duration_repr(Timespan { micros: 1_500_000 }), "datetime.timedelta(seconds=1, microseconds=500000)");
    assert_eq!(
        duration_repr(Timespan { micros: 86_405_000_003 }),
        "datetime.timedelta(days=1, seconds=5, microseconds=3)"
    );
    assert_eq!(duration_repr(Timespan { micros: 172_800_000_000 }), "datetime.timedelta(days=2)");
    assert_eq!(duration_repr(Timespan { micros: 7 }), "datetime.timedelta(microseconds=7)");
}

#[test]
fn error_messages() {
    assert_eq!(ConfigError::NegativeDuration.message(), "duration must not be negative");
    assert_eq!(
        ConfigError::ZeroDuration(Parameter::HeartbeatInterval).message(),
        "'heartbeat_interval' must be greater than zero"
    );
    assert_eq!(ConfigError::BlankJwt.message(), "'jwt' must not be empty or whitespace-only");
    assert_eq!(ConfigError::InvalidApiUrl("bad".to_string()).message(), "bad");
}

#[test]
fn reconnection_defaults() {
    let c = TcpReconnectionConfig::new(None, None, None, None).unwrap();
    assert!(c.enabled());
    assert_eq!(c.max_retries(), None);
    assert_eq!(c.interval(), Timespan { micros: 1_000_000 });
    assert_eq!(c.reestablish_after(), Timespan { micros: 5_000_000 });
    assert_eq!(c.repr(), DEFAULT_RECONNECTION_REPR);
}

#[test]
fn reconnection_reads_back_arguments() {
    let c = TcpReconnectionConfig::new(Some(false), Some(0), Some(delta(0, 2, 0)), Some(delta(0, 0, 0))).unwrap();
    assert!(!c.enabled());
    assert_eq!(c.max_retries(), Some(0));
    assert_eq!(c.interval(), Timespan { micros: 2_000_000 });
    assert_eq!(c.reestablish_after(), Timespan { micros: 0 });
    assert_eq!(
        c.repr(),
        "TcpReconnectionConfig(enabled=False, max_retries=0, interval=datetime.timedelta(seconds=2), reestablish_after=datetime.timedelta(0))"
    );
}

#[test]
fn reconnection_refusals_in_order() {
    assert!(matches!(
        TcpReconnectionConfig::new(None, Some(-5), Some(delta(0, 0, 0)), None),
        Err(ConfigError::OutOfRange(Parameter::MaxRetries))
    ));
    assert!(matches!(
        TcpReconnectionConfig::new(None, None, Some(delta(0, 0, 0)), Some(delta(-1, 0, 0))),
        Err(ConfigError::ZeroDuration(Parameter::Interval))
    ));
    assert!(matches!(
        TcpReconnectionConfig::new(None, None, Some(delta(-1, 0, 0)), None),
        Err(ConfigError::NegativeDuration)
    ));
    assert!(matches!(
        TcpReconnectionConfig::new(None, None, None, Some(delta(-1, 0, 0))),
        Err(ConfigError::NegativeDuration)
    ));
}

#[test]
fn tcp_defaults() {
    let c = tcp(None).unwrap();
    assert_eq!(c.server_address(), "127.0.0.1:8090");
    assert!(!c.auto_login().enabled());
    assert_eq!(c.reconnection().repr(), DEFAULT_RECONNECTION_REPR);
    assert_eq!(c.heartbeat_interval(), Timespan { micros: 5_000_000 });
    assert!(!c.tls_enabled());
    assert_eq!(c.tls_domain(), "");
    assert_eq!(c.tls_ca_file(), None);
    assert!(c.tls_validate_certificate());
    assert!(!c.nodelay());
    assert_eq!(
        c.repr(),
        format!(
            "TcpConfig(server_address=\"127.0.0.1:8090\", auto_login=AutoLogin.disabled(), reconnection={DEFAULT_RECONNECTION_REPR}, heartbeat_interval=datetime.timedelta(seconds=5), tls_enabled=False, tls_domain=\"\", tls_ca_file=None, tls_validate_certificate=True, nodelay=False)"
        )
    );
}

#[test]
fn tcp_address_is_trimmed() {
    let c = tcp(Some("  localhost:8090 \n")).unwrap();
    assert_eq!(c.server_address(), "localhost:8090");
}

#[test]
fn tcp_address_validation() {
    assert!(tcp(Some("[::1]:8090")).is_ok());
    assert!(tcp(Some("iggy-server:8090")).is_ok());
    assert!(matches!(tcp(Some("::1:8080")), Err(ConfigError::InvalidServerAddress(_))));
    assert!(matches!(tcp(Some("127.0.0.1")), Err(ConfigError::InvalidServerAddress(_))));
    assert!(matches!(tcp(Some("127.0.0.1:0")), Err(ConfigError::InvalidServerAddress(_))));
    match tcp(Some("localhost:abc")) {
        Err(e @ ConfigError::InvalidServerAddress(_)) => assert!(!e.message().is_empty()),
        _ => panic!("expected an invalid address"),
    }
}

#[test]
fn tcp_reads_back_arguments() {
    let reconnection = TcpReconnectionConfig::new(Some(true), Some(10), Some(delta(0, 2, 0)), Some(delta(0, 30, 0))).unwrap();
    let c = TcpConfig::new(
        Some("10.0.0.1:9000".to_string()),
        Some(AutoLogin::username_password("iggy".to_string(), "iggy".to_string())),
        Some(reconnection),
        Some(delta(0, 7, 0)),
        Some(true),
        Some("example.com".to_string()),
        Some("ca.pem".to_string()),
        Some(false),
        Some(true),
    )
    .unwrap();
    assert_eq!(c.server_address(), "10.0.0.1:9000");
    assert_eq!(c.auto_login().username(), Some("iggy".to_string()));
    assert_eq!(c.reconnection().max_retries(), Some(10));
    assert_eq!(c.heartbeat_interval(), Timespan { micros: 7_000_000 });
    assert!(c.tls_enabled());
    assert_eq!(c.tls_domain(), "example.com");
    assert_eq!(c.tls_ca_file(), Some("ca.pem".to_string()));
    assert!(!c.tls_validate_certificate());
    assert!(c.nodelay());
    assert_eq!(
        c.repr(),
        "TcpConfig(server_address=\"10.0.0.1:9000\", auto_login=AutoLogin.username_password(\"iggy\", ...), reconnection=TcpReconnectionConfig(enabled=True, max_retries=10, interval=datetime.timedelta(seconds=2), reestablish_after=datetime.timedelta(seconds=30)), heartbeat_interval=datetime.timedelta(seconds=7), tls_enabled=True, tls_domain=\"example.com\", tls_ca_file=\"ca.pem\", tls_validate_certificate=False, nodelay=True)"
    );
    assert_eq!(c.duplicate().repr(), c.repr());
}

#[test]
fn tcp_refusals_in_order() {
    let bad_heartbeat = Some(delta(-1, 0, 0));
    assert!(matches!(
        TcpConfig::new(Some("nope".to_string()), None, None, bad_heartbeat, None, None, None, None, None),
        Err(ConfigError::InvalidServerAddress(_))
    ));
    assert!(matches!(
        TcpConfig::new(None, None, None, bad_heartbeat, None, None, None, None, None),
        Err(ConfigError::NegativeDuration)
    ));
    assert!(matches!(
        TcpConfig::new(None, None, None, Some(delta(0, 0, 0)), None, None, None, None, None),
        Err(ConfigError::ZeroDuration(Parameter::HeartbeatInterval))
    ));
}

#[test]
fn http_defaults() {
    let c = HttpConfig::new(None, None, None, None).unwrap();
    assert_eq!(c.api_url(), "http://127.0.0.1:3000");
    assert_eq!(c.retries(), 3);
    assert!(!c.has_jwt());
    assert_eq!(c.jwt(), None);
    assert_eq!(c.heartbeat_interval(), Timespan { micros: 5_000_000 });
    assert_eq!(
        c.repr(),
        "HttpConfig(api_url=\"http://127.0.0.1:3000\", retries=3, jwt=None, heartbeat_interval=datetime.timedelta(seconds=5))"
    );
}

#[test]
fn http_reads_back_arguments_and_hides_jwt() {
    let c = HttpConfig::new(
        Some(" http://localhost:8080 ".to_string()),
        Some(0),
        Some("token".to_string()),
        Some(delta(0, 10, 0)),
    )
    .unwrap();
    assert_eq!(c.api_url(), "http://localhost:8080");
    assert_eq!(c.retries(), 0);
    assert!(c.has_jwt());
    assert_eq!(c.jwt(), Some("token".to_string()));
    assert_eq!(c.heartbeat_interval(), Timespan { micros: 10_000_000 });
    assert_eq!(
        c.repr(),
        "HttpConfig(api_url=\"http://localhost:8080\", retries=0, jwt=..., heartbeat_interval=datetime.timedelta(seconds=10))"
    );
    let other = HttpConfig::new(Some("http://localhost:8080".to_string()), Some(0), Some("other".to_string()), Some(delta(0, 10, 0))).unwrap();
    assert_eq!(other.repr(), c.repr());
    assert_eq!(c.duplicate().repr(), c.repr());
}

#[test]
fn http_refusals_in_order() {
    assert!(matches!(
        HttpConfig::new(Some("ftp://x".to_string()), Some(-1), Some(" ".to_string()), Some(delta(0, 0, 0))),
        Err(ConfigError::OutOfRange(Parameter::Retries))
    ));
    assert!(matches!(
        HttpConfig::new(Some("ftp://x".to_string()), Some(1), Some(" \t\n".to_string()), Some(delta(0, 0, 0))),
        Err(ConfigError::BlankJwt)
    ));
    assert!(matches!(
        HttpConfig::new(Some("ftp://x".to_string()), None, Some(String::new()), None),
        Err(ConfigError::BlankJwt)
    ));
    assert!(matches!(
        HttpConfig::new(Some("ftp://x".to_string()), None, None, Some(delta(0, 0, 0))),
        Err(ConfigError::ZeroDuration(Parameter::HeartbeatInterval))
    ));
    assert!(matches!(
        HttpConfig::new(Some("http://127.0.0.1:0".to_string()), None, None, None),
        Err(ConfigError::InvalidApiUrl(_))
    ));
    assert!(matches!(
        HttpConfig::new(Some("http://localhost:3000/path".to_string()), None, None, None),
        Err(ConfigError::InvalidApiUrl(_))
    ));
    assert!(matches!(
        HttpConfig::new(None, Some(4_294_967_296), None, None),
        Err(ConfigError::OutOfRange(Parameter::Retries))
    ));
}

#[test]
fn client_config_variants() {
    let configs = vec![
        PyClientConfig::Tcp(tcp(None).unwrap()),
        PyClientConfig::Http(HttpConfig::new(None, None, None, None).unwrap()),
        PyClientConfig::ServerAddress("127.0.0.1:8090".to_string()),
    ];
    assert_eq!(configs.len(), 3);
    assert!(matches!(configs[2], PyClientConfig::ServerAddress(ref a) if a == "127.0.0.1:8090"));
}

#[test]
fn tcp_from_checked_address_passes_reason_through() {
    match TcpConfig::from_checked_address(Err("bad address".to_string()), None, None, None, None, None, None, None, None) {
        Err(ConfigError::InvalidServerAddress(reason)) => assert_eq!(reason, "bad address"),
        _ => panic!("expected the refusal to be kept"),
    }
}

#[test]
fn tcp_from_checked_address_builds_the_rest() {
    let c = TcpConfig::from_checked_address(
        Ok("example.org:1234".to_string()),
        Some(AutoLogin::personal_access_token("t".to_string())),
        None,
        Some(delta(0, 3, 0)),
        None,
        None,
        None,
        None,
        Some(true),
    )
    .unwrap();
    assert_eq!(c.server_address(), "example.org:1234");
    assert!(c.auto_login().enabled());
    assert_eq!(c.heartbeat_interval(), Timespan { micros: 3_000_000 });
    assert!(c.nodelay());
    assert!(c.tls_validate_certificate());
    assert!(matches!(
        TcpConfig::from_checked_address(Err("x".to_string()), None, None, Some(delta(-1, 0, 0)), None, None, None, None, None),
        Err(ConfigError::InvalidServerAddress(_))
    ));
    assert!(matches!(
        TcpConfig::from_checked_address(Ok("a:1".to_string()), None, None, Some(delta(-1, 0, 0)), None, None, None, None, None),
        Err(ConfigError::NegativeDuration)
    ));
}

#[test]
fn http_from_checked_api_url_order_and_reason() {
    match HttpConfig::from_checked_api_url(Err("bad url".to_string()), Some(5), None, None) {
        Err(ConfigError::InvalidApiUrl(reason)) => assert_eq!(reason, "bad url"),
        _ => panic!("expected the refusal to be kept"),
    }
    assert!(matches!(
        HttpConfig::from_checked_api_url(Err("bad url".to_string()), Some(-1), None, None),
        Err(ConfigError::OutOfRange(Parameter::Retries))
    ));
    assert!(matches!(
        HttpConfig::from_checked_api_url(Err("bad url".to_string()), None, Some("\t".to_string()), None),
        Err(ConfigError::BlankJwt)
    ));
    let c = HttpConfig::from_checked_api_url(Ok("https://h:1".to_string()), Some(7), Some("j".to_string()), None).unwrap();
    assert_eq!(c.api_url(), "https://h:1");
    assert_eq!(c.retries(), 7);
    assert!(c.has_jwt());
}

#[test]
fn jwt_blankness_follows_unicode_white_space() {
    assert!(matches!(
        HttpConfig::new(None, None, Some("\u{3000}\u{a0}\u{2028}".to_string()), None),
        Err(ConfigError::BlankJwt)
    ));
    // A zero-width space is not white space, so the token is kept.
    let c = HttpConfig::new(None, None, Some("\u{200b}".to_string()), None).unwrap();
    assert!(c.has_jwt());
}

#[test]
fn stored_addresses_are_trimmed_and_stable() {
    let c = tcp(Some("\t10.1.2.3:80\u{3000}")).unwrap();
    assert_eq!(c.server_address(), "10.1.2.3:80");
    assert_eq!(c.server_address().trim(), c.server_address());
    let again = tcp(Some(&c.server_address())).unwrap();
    assert_eq!(again.server_address(), c.server_address());
    let h = HttpConfig::new(Some("\n https://example.com:443 ".to_string()), None, None, None).unwrap();
    assert_eq!(h.api_url(), "https://example.com:443");
}

#[test]
fn refusal_texts_come_from_the_iggy_client() {
    match tcp(Some("127.0.0.1:invalid")) {
        Err(ConfigError::InvalidServerAddress(m)) => assert_eq!(m, "Invalid IP address: 127.0.0.1:invalid"),
        _ => panic!("expected an invalid address"),
    }
    match HttpConfig::new(Some("http://127.0.0.1:0".to_string()), None, None, None) {
        Err(e @ ConfigError::InvalidApiUrl(_)) => assert_eq!(e.message(), "Invalid API URL: http://127.0.0.1:0"),
        _ => panic!("expected an invalid URL"),
    }
    match HttpConfig::new(Some("not a url".to_string()), None, None, None) {
        Err(ConfigError::InvalidApiUrl(m)) => assert_eq!(m, "Cannot parse URL"),
        _ => panic!("expected an unparsable URL"),
    }
}
