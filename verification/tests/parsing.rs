use http_client::config::Config;
use http_client::config::TlsConfig;
use http_client::error::SendError;
use http_client::target::default_port;
use http_client::target::parse_scheme;
use http_client::target::Scheme;

#[test]
fn config_defaults() {
    let c = Config::new();
    assert_eq!(c.http_keep_alive, true);
    assert_eq!(c.tcp_no_delay, false);
    assert_eq!(c.timeout, Some(60_000));
    assert_eq!(c.max_connections_per_host, 50);
    assert!(c.tls_config.is_none());
    assert_eq!(Config::default(), Config::new());
}

#[test]
fn config_builders() {
    let c = Config::new()
        .set_http_keep_alive(false)
        .set_tcp_no_delay(true)
        .set_timeout(None)
        .set_max_connections_per_host(3)
        .set_tls_config(Some(TlsConfig::new()));
    assert_eq!(c.http_keep_alive, false);
    assert_eq!(c.tcp_no_delay, true);
    assert_eq!(c.timeout, None);
    assert_eq!(c.max_connections_per_host, 3);
    assert!(c.tls_config.is_some());
}

#[test]
fn scheme_parsing() {
    assert_eq!(parse_scheme("http"), Some(Scheme::Http));
    assert_eq!(parse_scheme("https"), Some(Scheme::Https));
    assert_eq!(parse_scheme("ftp"), None);
    assert_eq!(parse_scheme("HTTP"), None);
    assert_eq!(parse_scheme(""), None);
    assert_eq!(parse_scheme("httpx"), None);
    assert_eq!(parse_scheme("htt"), None);
    assert_eq!(parse_scheme("https-ish"), None);
}

#[test]
fn default_ports() {
    assert_eq!(default_port(Scheme::Http), 80);
    assert_eq!(default_port(Scheme::Https), 443);
}

#[test]
fn error_messages() {
    assert_eq!(SendError::InvalidScheme.message(), "invalid url scheme");
    assert_eq!(SendError::MissingHost.message(), "missing hostname");
    assert_eq!(SendError::ResolutionError.message(), "missing valid address");
    assert_eq!(SendError::NoUsableAddress.message(), "no usable address");
    assert_eq!(SendError::ProtocolError.message(), "protocol error");
}
