use http_client::config::Config;
use http_client::config::TlsConfig;
use http_client::error::CreateFailure;
use http_client::error::SendError;
use http_client::h1::session_new;
use http_client::h1::session_step;
use http_client::h1::H1Client;
use http_client::h1::SessionAction;
use http_client::h1::SessionEvent;
use http_client::h1::SessionState;
use http_client::pool::ProbeOutcome;
use http_client::target::Ip;
use http_client::target::RemoteAddress;
use http_client::target::Scheme;
use http_client::target::UrlParts;

fn url(scheme: &str, host: Option<&str>, port: Option<u16>) -> UrlParts {
    UrlParts {
        scheme: scheme.to_string(),
        host: host.map(|h| h.to_string()),
        port,
    }
}

fn addr(n: u32) -> RemoteAddress {
    RemoteAddress { ip: Ip::V4(n), port: 80 }
}

/// Run one whole successful send over a freshly dialed connection and
/// return the identifier it used.
fn run_send_one_addr(client: &mut H1Client, a: RemoteAddress) -> u64 {
    let (s, act) = session_new(&url("http", Some("example.test"), None));
    assert!(matches!(act, SessionAction::Resolve { .. }));
    let (s, act) = session_step(client, s, SessionEvent::Resolved { addrs: Some(vec![a]) });
    let id = match act {
        SessionAction::Dial { addr, .. } => {
            assert_eq!(addr, a);
            match &s {
                SessionState::Dialing { id, .. } => *id,
                other => panic!("expected Dialing, got a different state: {:?}", state_name(other)),
            }
        }
        SessionAction::Probe { id, .. } => id,
        other => panic!("unexpected action {:?}", action_name(&other)),
    };
    let (s, act) = match &s {
        SessionState::Dialing { .. } => {
            session_step(client, s, SessionEvent::DialDone { result: Ok(()) })
        }
        SessionState::Probing { .. } => {
            session_step(client, s, SessionEvent::Probed { outcome: ProbeOutcome::NoActivity })
        }
        other => panic!("unexpected state {:?}", state_name(other)),
    };
    assert!(matches!(act, SessionAction::Exchange { .. }));
    let (s, act) = session_step(client, s, SessionEvent::ExchangeDone { ok: true });
    assert!(matches!(s, SessionState::Done));
    assert!(matches!(act, SessionAction::Finish { result: Ok(()) }));
    id
}

fn state_name(s: &SessionState) -> &'static str {
    match s {
        SessionState::Resolving { .. } => "Resolving",
        SessionState::Dialing { .. } => "Dialing",
        SessionState::Probing { .. } => "Probing",
        SessionState::Waiting { .. } => "Waiting",
        SessionState::Exchanging { .. } => "Exchanging",
        SessionState::Done => "Done",
        SessionState::Failed { .. } => "Failed",
    }
}

fn action_name(a: &SessionAction) -> &'static str {
    match a {
        SessionAction::Resolve { .. } => "Resolve",
        SessionAction::Dial { .. } => "Dial",
        SessionAction::Probe { .. } => "Probe",
        SessionAction::WaitForPool => "WaitForPool",
        SessionAction::Exchange { .. } => "Exchange",
        SessionAction::Finish { .. } => "Finish",
    }
}

#[test]
fn ftp_scheme_fails_immediately_without_resolving() {
    // Scenario: scheme "ftp://host/" fails at once with InvalidScheme; the
    // session's only action is Finish, so nothing is resolved and no
    // connection is attempted.
    let (s, act) = session_new(&url("ftp", Some("host"), None));
    assert!(matches!(s, SessionState::Failed { error: SendError::InvalidScheme }));
    match act {
        SessionAction::Finish { result } => assert_eq!(result, Err(SendError::InvalidScheme)),
        other => panic!("expected Finish, got {}", action_name(&other)),
    }
}

#[test]
fn missing_host_fails_immediately() {
    let (s, act) = session_new(&url("http", None, None));
    assert!(matches!(s, SessionState::Failed { error: SendError::MissingHost }));
    match act {
        SessionAction::Finish { result } => assert_eq!(result, Err(SendError::MissingHost)),
        other => panic!("expected Finish, got {}", action_name(&other)),
    }
}

#[test]
fn valid_url_resolves_host_with_default_port() {
    let (s, act) = session_new(&url("https", Some("example.test"), None));
    assert!(matches!(s, SessionState::Resolving { .. }));
    match act {
        SessionAction::Resolve { host, port } => {
            assert_eq!(host, "example.test");
            assert_eq!(port, 443);
        }
        other => panic!("expected Resolve, got {}", action_name(&other)),
    }
    // An explicit port wins over the scheme's default.
    let (_, act) = session_new(&url("http", Some("example.test"), Some(8080)));
    match act {
        SessionAction::Resolve { port, .. } => assert_eq!(port, 8080),
        other => panic!("expected Resolve, got {}", action_name(&other)),
    }
}

#[test]
fn resolution_failure_and_empty_list_fail() {
    let mut client = H1Client::new();
    let (s, _) = session_new(&url("http", Some("example.test"), None));
    let (s2, act) = session_step(&mut client, s, SessionEvent::Resolved { addrs: None });
    assert!(matches!(s2, SessionState::Failed { error: SendError::ResolutionError }));
    assert!(matches!(act, SessionAction::Finish { result: Err(SendError::ResolutionError) }));

    let (s, _) = session_new(&url("http", Some("example.test"), None));
    let (s2, _) = session_step(&mut client, s, SessionEvent::Resolved { addrs: Some(vec![]) });
    assert!(matches!(s2, SessionState::Failed { error: SendError::ResolutionError }));
}

#[test]
fn sequential_sends_reuse_one_connection() {
    // Sequential healthy sends to one address keep reusing the one
    // connection: the pool never grows past one.
    let mut client = H1Client::new();
    let a = addr(1);
    let first = run_send_one_addr(&mut client, a);
    for _ in 0..5 {
        let id = run_send_one_addr(&mut client, a);
        assert_eq!(id, first);
        let st = client.status_of(Scheme::Http, &a).unwrap();
        assert_eq!((st.size, st.available), (1, 1));
    }
}

#[test]
fn failover_uses_second_address_then_forgets_the_failure() {
    // Scenario: the host resolves to two addresses; the first refuses the
    // connection, the second succeeds. The send succeeds over the second,
    // and a later independent send tries the first address afresh.
    let mut client = H1Client::new();
    let (a1, a2) = (addr(1), addr(2));
    let (s, _) = session_new(&url("http", Some("example.test"), None));
    let (s, act) =
        session_step(&mut client, s, SessionEvent::Resolved { addrs: Some(vec![a1, a2]) });
    match &act {
        SessionAction::Dial { addr, .. } => assert_eq!(*addr, a1),
        other => panic!("expected Dial, got {}", action_name(other)),
    }
    let (s, act) = session_step(
        &mut client,
        s,
        SessionEvent::DialDone { result: Err(CreateFailure::ConnectError) },
    );
    match &act {
        SessionAction::Dial { addr, .. } => assert_eq!(*addr, a2),
        other => panic!("expected Dial to the second address, got {}", action_name(other)),
    }
    let (s, act) = session_step(&mut client, s, SessionEvent::DialDone { result: Ok(()) });
    assert!(matches!(act, SessionAction::Exchange { .. }));
    let (s, act) = session_step(&mut client, s, SessionEvent::ExchangeDone { ok: true });
    assert!(matches!(s, SessionState::Done));
    assert!(matches!(act, SessionAction::Finish { result: Ok(()) }));

    // Next send: the failed address is tried again, not remembered as bad.
    let (s, _) = session_new(&url("http", Some("example.test"), None));
    let (_, act) =
        session_step(&mut client, s, SessionEvent::Resolved { addrs: Some(vec![a1, a2]) });
    match &act {
        SessionAction::Dial { addr, .. } => assert_eq!(*addr, a1),
        other => panic!("expected Dial to the first address, got {}", action_name(other)),
    }
}

#[test]
fn exhausting_all_addresses_fails_with_no_usable_address() {
    let mut client = H1Client::new();
    let (s, _) = session_new(&url("http", Some("example.test"), None));
    let (s, _) =
        session_step(&mut client, s, SessionEvent::Resolved { addrs: Some(vec![addr(1), addr(2)]) });
    let (s, _) = session_step(
        &mut client,
        s,
        SessionEvent::DialDone { result: Err(CreateFailure::ConnectError) },
    );
    let (s, act) = session_step(
        &mut client,
        s,
        SessionEvent::DialDone { result: Err(CreateFailure::TlsError) },
    );
    assert!(matches!(s, SessionState::Failed { error: SendError::NoUsableAddress }));
    assert!(matches!(act, SessionAction::Finish { result: Err(SendError::NoUsableAddress) }));
}

#[test]
fn protocol_failure_is_not_retried_and_connection_returns() {
    // A protocol-level failure after the connection was obtained is
    // surfaced at once, even though another candidate remained; the
    // connection still goes back to the pool.
    let mut client = H1Client::new();
    let (s, _) = session_new(&url("http", Some("example.test"), None));
    let (s, _) =
        session_step(&mut client, s, SessionEvent::Resolved { addrs: Some(vec![addr(1), addr(2)]) });
    let (s, _) = session_step(&mut client, s, SessionEvent::DialDone { result: Ok(()) });
    let (s, act) = session_step(&mut client, s, SessionEvent::ExchangeDone { ok: false });
    assert!(matches!(s, SessionState::Failed { error: SendError::ProtocolError }));
    assert!(matches!(act, SessionAction::Finish { result: Err(SendError::ProtocolError) }));
    let st = client.status_of(Scheme::Http, &addr(1)).unwrap();
    assert_eq!((st.size, st.available), (1, 1));
}

#[test]
fn unhealthy_idle_connection_is_replaced_on_same_address() {
    // An idle connection whose peer closed it is discarded at the probe
    // and the same candidate is asked again, which dials a replacement.
    let mut client = H1Client::new();
    let a = addr(1);
    let first = run_send_one_addr(&mut client, a);
    let (s, _) = session_new(&url("http", Some("example.test"), None));
    let (s, act) = session_step(&mut client, s, SessionEvent::Resolved { addrs: Some(vec![a]) });
    match &act {
        SessionAction::Probe { id, .. } => assert_eq!(*id, first),
        other => panic!("expected Probe, got {}", action_name(other)),
    }
    let (_, act) =
        session_step(&mut client, s, SessionEvent::Probed { outcome: ProbeOutcome::Closed });
    match &act {
        SessionAction::Dial { addr, .. } => assert_eq!(*addr, a),
        other => panic!("expected a replacement Dial, got {}", action_name(other)),
    }
    let st = client.status_of(Scheme::Http, &a).unwrap();
    assert_eq!(st.available, 0);
}

#[test]
fn bounded_pool_serializes_concurrent_sends() {
    // Scenario: one connection per host, two sends racing. The second must
    // wait until the first releases, then reuses the same connection:
    // strictly sequential connection use.
    let mut client = H1Client::with_max_connections(1);
    let a = addr(1);

    let (sa, _) = session_new(&url("http", Some("example.test"), None));
    let (sa, act_a) = session_step(&mut client, sa, SessionEvent::Resolved { addrs: Some(vec![a]) });
    assert!(matches!(act_a, SessionAction::Dial { .. }));
    let (sa, _) = session_step(&mut client, sa, SessionEvent::DialDone { result: Ok(()) });

    let (sb, _) = session_new(&url("http", Some("example.test"), None));
    let (sb, act_b) = session_step(&mut client, sb, SessionEvent::Resolved { addrs: Some(vec![a]) });
    assert!(matches!(act_b, SessionAction::WaitForPool));

    let (sa, act_a) = session_step(&mut client, sa, SessionEvent::ExchangeDone { ok: true });
    assert!(matches!(sa, SessionState::Done));
    assert!(matches!(act_a, SessionAction::Finish { result: Ok(()) }));

    let (sb, act_b) = session_step(&mut client, sb, SessionEvent::PoolFreed);
    match &act_b {
        SessionAction::Probe { id, .. } => assert_eq!(*id, 0),
        other => panic!("expected reuse of the released connection, got {}", action_name(other)),
    }
    let (sb, act_b) =
        session_step(&mut client, sb, SessionEvent::Probed { outcome: ProbeOutcome::NoActivity });
    assert!(matches!(act_b, SessionAction::Exchange { .. }));
    let (sb, _) = session_step(&mut client, sb, SessionEvent::ExchangeDone { ok: true });
    assert!(matches!(sb, SessionState::Done));
    let st = client.status_of(Scheme::Http, &a).unwrap();
    assert_eq!((st.size, st.max_size), (1, 1));
}

#[test]
fn abandoning_a_wait_leaves_the_pool_untouched() {
    // Scenario: a send suspended waiting for the pool is cancelled. The
    // wait had no side effect, so the pool's outstanding count is exactly
    // what it was.
    let mut client = H1Client::with_max_connections(1);
    let a = addr(1);
    let (sa, _) = session_new(&url("http", Some("example.test"), None));
    let (sa, _) = session_step(&mut client, sa, SessionEvent::Resolved { addrs: Some(vec![a]) });
    let (_sa, _) = session_step(&mut client, sa, SessionEvent::DialDone { result: Ok(()) });

    let before = client.status_of(Scheme::Http, &a).unwrap();
    let (sb, act_b) = {
        let (s, _) = session_new(&url("http", Some("example.test"), None));
        session_step(&mut client, s, SessionEvent::Resolved { addrs: Some(vec![a]) })
    };
    assert!(matches!(act_b, SessionAction::WaitForPool));
    // The caller abandons the wait here: the session is simply dropped.
    drop(sb);
    let after = client.status_of(Scheme::Http, &a).unwrap();
    assert_eq!(before, after);
}

#[test]
fn configuration_drives_dial_parameters() {
    let mut client = H1Client::with_max_connections(5);
    assert!(client.config().is_none());
    let cfg = Config::new()
        .set_tcp_no_delay(true)
        .set_timeout(Some(1234))
        .set_max_connections_per_host(2)
        .set_tls_config(Some(TlsConfig::new()));
    client.override_config(cfg.clone());
    assert_eq!(client.config(), Some(&cfg));

    let a = RemoteAddress { ip: Ip::V4(5), port: 443 };
    let (s, _) = session_new(&url("https", Some("secure.test"), None));
    let (s, act) = session_step(&mut client, s, SessionEvent::Resolved { addrs: Some(vec![a]) });
    match act {
        SessionAction::Dial { no_delay, timeout, tls, .. } => {
            assert!(no_delay);
            assert_eq!(timeout, Some(1234));
            assert!(tls.expect("https dial carries TLS parameters").use_custom_config);
        }
        other => panic!("expected Dial, got {}", action_name(&other)),
    }
    let (_s, _) = session_step(&mut client, s, SessionEvent::DialDone { result: Ok(()) });

    // The configuration's bound (2), not the constructor's (5), limits the
    // pool: a third concurrent checkout must wait.
    let (s2, _) = session_new(&url("https", Some("secure.test"), None));
    let (_s2, act2) = session_step(&mut client, s2, SessionEvent::Resolved { addrs: Some(vec![a]) });
    assert!(matches!(act2, SessionAction::Dial { .. }));
    let (s3, _) = session_new(&url("https", Some("secure.test"), None));
    let (_s3, act3) = session_step(&mut client, s3, SessionEvent::Resolved { addrs: Some(vec![a]) });
    assert!(matches!(act3, SessionAction::WaitForPool));
}

#[test]
fn abandoned_checkout_frees_its_slot() {
    // A send abandoned after the pool granted it a new connection reports
    // the abandonment; the slot is freed and a later send dials afresh.
    let mut client = H1Client::new();
    let a = addr(3);
    let (s, act) = {
        let (s, _) = session_new(&url("http", Some("example.test"), None));
        session_step(&mut client, s, SessionEvent::Resolved { addrs: Some(vec![a]) })
    };
    let id = match act {
        SessionAction::Dial { id, .. } => id,
        other => panic!("expected Dial, got {}", action_name(&other)),
    };
    assert_eq!(client.status_of(Scheme::Http, &a).unwrap().size, 1);
    drop(s);
    assert!(client.abandon(Scheme::Http, &a, id));
    assert_eq!(client.status_of(Scheme::Http, &a).unwrap().size, 0);
    assert!(!client.abandon(Scheme::Http, &a, id));

    let (_, act) = {
        let (s, _) = session_new(&url("http", Some("example.test"), None));
        session_step(&mut client, s, SessionEvent::Resolved { addrs: Some(vec![a]) })
    };
    match act {
        SessionAction::Dial { id: id2, .. } => assert_ne!(id2, id),
        other => panic!("expected a fresh Dial, got {}", action_name(&other)),
    }
}

#[test]
fn https_dial_carries_tls_parameters() {
    let mut client = H1Client::new();
    let a = RemoteAddress { ip: Ip::V4(7), port: 443 };
    let (s, _) = session_new(&url("https", Some("secure.test"), None));
    let (_, act) = session_step(&mut client, s, SessionEvent::Resolved { addrs: Some(vec![a]) });
    match act {
        SessionAction::Dial { addr, tls, .. } => {
            assert_eq!(addr, a);
            let tls = tls.expect("an https dial must carry TLS parameters");
            assert_eq!(tls.host, "secure.test");
            assert!(!tls.use_custom_config);
        }
        other => panic!("expected Dial, got {}", action_name(&other)),
    }
    // And the plaintext scheme carries none.
    let (s, _) = session_new(&url("http", Some("plain.test"), None));
    let (_, act) = session_step(&mut client, s, SessionEvent::Resolved { addrs: Some(vec![addr(8)]) });
    match act {
        SessionAction::Dial { tls, .. } => assert!(tls.is_none()),
        other => panic!("expected Dial, got {}", action_name(&other)),
    }
}
