use email_tester::address::check_address_format;
use email_tester::diagnose::diagnose_error;
use email_tester::smtp::TlsMode;

#[test]
fn implicit_tls_on_submission_port() {
    let h = diagnose_error("tls handshake eof", "mx", 587, &TlsMode::Tls, false);
    assert_eq!(
        h,
        vec![
            "Server rejected implicit TLS on port 587. Port 587 does not wrap connections in SSL from the start.".to_string(),
            "Fix: use --tls starttls (for port 587) or --tls none (for port 25 relay).".to_string(),
        ]
    );
}

#[test]
fn plain_on_smtps_port() {
    let h = diagnose_error("wrong version number", "mx", 465, &TlsMode::Plain, false);
    assert_eq!(h, vec!["Port 465 requires implicit TLS. Fix: add --tls tls".to_string()]);
}

#[test]
fn generic_tls_disagreement() {
    let h = diagnose_error("record layer failure", "mx", 2525, &TlsMode::StartTls, false);
    assert_eq!(
        h,
        vec![
            "TLS negotiation failed — the server and client disagree on the TLS mode.".to_string(),
            "Try: --tls none   (port 2525)".to_string(),
            "     --tls starttls  (port 587)".to_string(),
            "     --tls tls        (port 465)".to_string(),
        ]
    );
}

#[test]
fn authentication_advice_depends_on_credentials_and_tls() {
    let without = diagnose_error("535 5.7.8 Authentication failed", "mx", 25, &TlsMode::StartTls, false);
    assert_eq!(without, vec!["SMTP authentication failed or is not available on this server/port.".to_string()]);
    let with = diagnose_error("535 5.7.8 Authentication failed", "mx", 25, &TlsMode::Plain, true);
    assert_eq!(
        with,
        vec![
            "SMTP authentication failed or is not available on this server/port.".to_string(),
            "If this is an internal relay server, try removing -u/-P (no auth needed).".to_string(),
            "Check that Dovecot/auth backend is running on the mail server.".to_string(),
            "Many servers refuse PLAIN/LOGIN auth without TLS. Try --tls starttls.".to_string(),
        ]
    );
}

#[test]
fn refused_and_timeout_advice_names_server_and_port() {
    let h = diagnose_error("Connection refused", "mail.example.com", 2525, &TlsMode::Plain, false);
    assert_eq!(
        h,
        vec![
            "Port 2525 is not accepting connections on mail.example.com.".to_string(),
            "Check firewall rules and that the SMTP service is listening.".to_string(),
            "Typical ports: 25 (relay), 465 (SMTPS), 587 (submission)".to_string(),
        ]
    );
    let t = diagnose_error("Connection error: timed out", "10.0.0.1", 25, &TlsMode::Plain, false);
    assert_eq!(
        t,
        vec![
            "Connection to 10.0.0.1:25 timed out.".to_string(),
            "Check network routing, firewall, and that the server is up.".to_string(),
            "Increase timeout with --timeout <seconds> if on a slow link.".to_string(),
        ]
    );
}

#[test]
fn certificate_advice() {
    let h = diagnose_error("certificate verify failed", "mx", 465, &TlsMode::Tls, false);
    assert_eq!(h.len(), 3);
    assert_eq!(h[0], "TLS certificate verification failed.");
}

#[test]
fn several_symptoms_in_fixed_order() {
    let h = diagnose_error("tls handshake: Certificate expired; Connection refused", "mx", 25, &TlsMode::Plain, false);
    assert_eq!(h.len(), 4 + 3 + 3);
    assert!(h[0].starts_with("TLS negotiation failed"));
    assert!(h[4].starts_with("Port 25 is not accepting"));
    assert!(h[7].starts_with("TLS certificate verification failed"));
}

#[test]
fn unknown_errors_get_no_advice() {
    assert!(diagnose_error("something else", "mx", 25, &TlsMode::Plain, true).is_empty());
    assert!(diagnose_error("", "mx", 25, &TlsMode::Tls, false).is_empty());
}

#[test]
fn valid_address_parts() {
    let p = check_address_format("john.doe@mail.example.com").unwrap();
    assert_eq!(p.local, "john.doe");
    assert_eq!(p.domain, "mail.example.com");
    assert!(p.local_has_dot);
    assert_eq!(p.tld_len, 3);
    let q = check_address_format("x@y.z").unwrap();
    assert!(!q.local_has_dot);
    assert_eq!(q.tld_len, 1);
}

#[test]
fn tld_length_counts_bytes() {
    let p = check_address_format("a@b.ü").unwrap();
    assert_eq!(p.tld_len, 2);
    let q = check_address_format("a@b.").unwrap();
    assert_eq!(q.tld_len, 0);
}

#[test]
fn invalid_addresses() {
    assert!(check_address_format("").is_none());
    assert!(check_address_format("user.example.com").is_none());
    assert!(check_address_format("@example.com").is_none());
    assert!(check_address_format("a@b@c.com").is_none());
    assert!(check_address_format("user@localhost").is_none());
    assert!(check_address_format("us.er@localhost").is_none());
}

#[test]
fn credentials_add_exactly_two_auth_hints() {
    for tls in [TlsMode::Plain, TlsMode::StartTls, TlsMode::Tls] {
        let a = diagnose_error("454 4.7.0 TLS not available", "mx", 25, &tls, true);
        let b = diagnose_error("454 4.7.0 TLS not available", "mx", 25, &tls, false);
        assert_eq!(a.len(), b.len() + 2);
    }
}
