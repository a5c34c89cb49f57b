use email_tester::mail::{message_body, message_headers, message_layout, MessageError, MessageLayout};
use email_tester::probe::{address_rows, invalid_address_result, port_rows, probe_notes, probe_result, Probe, ProbeKind};
use email_tester::address::check_address_format;
use email_tester::diagnose::diagnose_error;
use email_tester::logger::NoteKind;
use email_tester::send::{backoff_secs, header_note, parse_extra_header, AttemptOutcome, SendParams, SendSession};
use email_tester::smtp::{AuthMech, TlsMode};
use email_tester::transport::{build_transport, plan_debug_line, plan_transport, PlanError, Relay};

fn params() -> SendParams {
    SendParams {
        server: "mx.example.com".into(),
        port: 25,
        tls: TlsMode::Plain,
        timeout: 30,
        creds: None,
        mech: AuthMech::Plain,
        to: vec!["alice@example.com".into(), "bob@example.com".into()],
        cc: vec![],
        bcc: vec![],
        from: "noreply@example.com".into(),
        from_name: "Email Tester".into(),
        subject: "SMTP Test Email".into(),
        body: "hello".into(),
        html: None,
        attachments: vec![],
        reply_to: None,
        headers: vec![],
        retries: 1,
    }
}

#[test]
fn backoff_doubles() {
    assert_eq!(backoff_secs(1), 1);
    assert_eq!(backoff_secs(2), 2);
    assert_eq!(backoff_secs(3), 4);
    assert_eq!(backoff_secs(11), 1024);
    assert_eq!(backoff_secs(64), 1u64 << 63);
}

#[test]
fn session_retries_then_delivers() {
    let mut s = SendSession::new("mx", 25, TlsMode::Plain, false, 3);
    assert_eq!(s.next_attempt(), Some(1));
    let r1 = s.record(AttemptOutcome::TransportError("boom".into()));
    assert_eq!(r1.wait_secs, Some(2));
    assert_eq!(r1.notes[0].text, "Transport error: boom");
    assert_eq!(r1.notes.len(), 1);
    assert_eq!(s.next_attempt(), Some(2));
    let r2 = s.record(AttemptOutcome::SendError { ms: 12, error: "Connection refused".into() });
    assert_eq!(r2.notes[0].text, "Send failed (12 ms): Connection refused");
    assert_eq!(r2.notes[1].kind, NoteKind::Hint);
    assert_eq!(r2.notes[1].text, "Port 25 is not accepting connections on mx.");
    assert_eq!(r2.notes.last().unwrap().text, "Back-off: retrying in 2 s…");
    assert_eq!(r2.wait_secs, Some(2));
    let r3 = s.record(AttemptOutcome::Delivered { code: "250".into(), ms: 5, reply: Some("OK queued".into()) });
    assert_eq!(r3.notes[0].text, "Delivered  SMTP 250  in 5 ms");
    assert_eq!(r3.notes[1].kind, NoteKind::Info);
    assert_eq!((r3.notes[1].label.as_str(), r3.notes[1].text.as_str()), ("Server reply", "OK queued"));
    assert_eq!(r3.wait_secs, None);
    assert_eq!(s.next_attempt(), None);
    assert!(s.success);
    let res = s.finish("ts".into(), 99, &vec!["a@x".to_string(), "b@x".to_string()]);
    assert_eq!(res.message, "Email delivered to 2 recipient(s) in 99 ms");
    assert_eq!(res.action, "send");
    assert_eq!(res.server_response.as_deref(), Some("OK queued"));
    assert_eq!(res.error.as_deref(), Some("Connection refused"));
    assert_eq!(res.recipients, vec!["a@x".to_string(), "b@x".to_string()]);
    assert_eq!(res.tls_mode, "Plain (no encryption)");
    let refused = diagnose_error("Connection refused", &s.server, s.port, &s.tls, s.has_auth);
    assert!(!refused.is_empty());
    assert_eq!(res.hints, refused);
}

#[test]
fn session_gives_up_after_all_attempts() {
    let mut s = SendSession::new("mx", 587, TlsMode::StartTls, true, 2);
    let r1 = s.record(AttemptOutcome::SendError { ms: 1, error: "x".into() });
    assert_eq!(r1.wait_secs, Some(1));
    let r2 = s.record(AttemptOutcome::SendError { ms: 1, error: "y".into() });
    assert_eq!(r2.wait_secs, None);
    assert_eq!(r2.notes.len(), 1);
    assert_eq!(s.next_attempt(), None);
    assert_eq!(s.attempts, 2);
    let res = s.finish("ts".into(), 7, &vec!["a@x".to_string()]);
    assert!(!res.success);
    assert_eq!(res.message, "Delivery failed after 2 attempt(s)");
    assert_eq!(res.error.as_deref(), Some("y"));
}

#[test]
fn session_with_no_attempts_allowed() {
    let s = SendSession::new("mx", 25, TlsMode::Plain, false, 0);
    assert_eq!(s.next_attempt(), None);
    assert_eq!(s.finish("t".into(), 0, &vec![]).message, "Delivery failed after 0 attempt(s)");
    assert!(s.finish("t".into(), 0, &vec![]).hints.is_empty());
}

#[test]
fn extra_headers() {
    assert_eq!(parse_extra_header("  X-Key :  value:with:colons  "), Some(("X-Key".into(), "value:with:colons".into())));
    assert_eq!(parse_extra_header("NoColon"), None);
    assert_eq!(parse_extra_header(":"), Some((String::new(), String::new())));
    let n = header_note("X-A: 1");
    assert_eq!((n.kind, n.text.as_str()), (NoteKind::Debug, "Extra header: 'X-A' = '1'"));
    let m = header_note("broken");
    assert_eq!((m.kind, m.text.as_str()), (NoteKind::Warn, "Ignoring malformed header: 'broken'"));
}

#[test]
fn summary_texts() {
    let mut p = params();
    assert_eq!(p.auth_summary(), "No (open relay)");
    p.creds = Some(("u".into(), "p".into()));
    p.mech = AuthMech::Login;
    assert_eq!(p.auth_summary(), "Yes (LOGIN)");
    assert_eq!(p.from_full(), "Email Tester <noreply@example.com>");
}

#[test]
fn message_address_checks_in_order() {
    assert!(message_headers(&params()).is_ok());
    let mut p = params();
    p.to.push("not an address".into());
    p.cc.push("also bad".into());
    match message_headers(&p) {
        Err(MessageError::InvalidTo(a, _)) => assert_eq!(a, "not an address"),
        other => panic!("unexpected {:?}", other.is_ok()),
    }
    let mut q = params();
    q.cc = vec!["ok@example.com".into(), "bad cc".into()];
    let e = message_headers(&q).err().unwrap();
    assert_eq!(e.message(), "Invalid CC: bad cc");
    assert!(!e.cause().is_empty());
    let mut r = params();
    r.bcc = vec!["@@".into()];
    assert_eq!(message_headers(&r).err().unwrap().message(), "Invalid BCC: @@");
    let mut t = params();
    t.reply_to = Some("nope".into());
    assert_eq!(message_headers(&t).err().unwrap().message(), "Invalid Reply-To");
    let mut f = params();
    f.from = "bad from".into();
    assert_eq!(message_headers(&f).err().unwrap().message(), "Invalid From address");
}

#[test]
fn message_layouts_and_bodies() {
    let mut p = params();
    assert_eq!(message_layout(&p, false), MessageLayout::Text);
    assert_eq!(message_layout(&p, true), MessageLayout::Mixed);
    p.html = Some("<b>hi</b>".into());
    assert_eq!(message_layout(&p, false), MessageLayout::Alternative);

    let plain = message_body(message_headers(&params()).ok().unwrap(), &params(), &vec![]).ok().unwrap().into_message();
    let text = String::from_utf8(plain.formatted()).unwrap();
    assert!(text.contains("Subject: SMTP Test Email"));
    assert!(text.contains("hello"));

    let alt = message_body(message_headers(&p).ok().unwrap(), &p, &vec![]).ok().unwrap().into_message();
    let text = String::from_utf8(alt.formatted()).unwrap();
    assert!(text.contains("multipart/alternative"));
    assert!(text.contains("<b>hi</b>"));

    let att = vec![("notes.txt".to_string(), b"abc".to_vec())];
    let mixed = message_body(message_headers(&p).ok().unwrap(), &p, &att).ok().unwrap().into_message();
    let text = String::from_utf8(mixed.formatted()).unwrap();
    assert!(text.contains("multipart/mixed"));
    assert!(text.contains("notes.txt"));
    assert!(text.contains("multipart/alternative"));
    assert!(text.contains("hello"));
    assert!(text.contains("<b>hi</b>"));
}

#[test]
fn transport_plans() {
    let p = plan_transport("mx", 587, TlsMode::StartTls, 10, Some(("u".into(), "p".into())), AuthMech::Login, None).unwrap();
    assert_eq!(p.relay, Relay::StartTls);
    assert_eq!(p.hello_name, "localhost");
    assert_eq!(p.credentials, Some(("u".to_string(), "p".to_string())));
    assert_eq!((p.port, p.timeout_secs, p.pool_max_size, p.accept_invalid_certs), (587, 10, 1, true));
    let q = plan_transport("mx", 25, TlsMode::Plain, 10, None, AuthMech::CramMd5, Some("host1".into())).unwrap();
    assert_eq!((q.relay, q.hello_name.as_str()), (Relay::Unencrypted, "host1"));
    assert_eq!(plan_transport("mx", 465, TlsMode::Tls, 1, None, AuthMech::Plain, None).unwrap().relay, Relay::Wrapped);
    let e = plan_transport("mx", 25, TlsMode::Plain, 1, Some(("u".into(), "p".into())), AuthMech::CramMd5, None).unwrap_err();
    assert_eq!(e, PlanError::UnsupportedMechanism);
    assert_eq!(e.message(), "CRAM-MD5 authentication is not supported by the SMTP transport");
    assert_eq!(
        plan_debug_line("mx", 25, TlsMode::Tls, true),
        "Building transport  mx:25  [TLS/SSL (SMTPS)]  auth=true"
    );
    assert_eq!(
        plan_debug_line("mx", 25, TlsMode::Plain, false),
        "Building transport  mx:25  [Plain (no encryption)]  auth=false"
    );
}

#[test]
fn probe_reports() {
    let n = probe_notes(ProbeKind::Ping { seq: 2 }, 15, &Probe::Answered, "mx", 25, TlsMode::Plain);
    assert_eq!((n[0].kind, n[0].text.as_str()), (NoteKind::Success, "seq=2  time=15 ms"));
    let n = probe_notes(ProbeKind::Ping { seq: 1 }, 3, &Probe::NoAnswer, "mx", 25, TlsMode::Plain);
    assert_eq!(n[0].text, "seq=1  time=3 ms  No response");
    let n = probe_notes(ProbeKind::Info, 3, &Probe::Failed("Connection refused".into()), "mx", 25, TlsMode::Plain);
    assert_eq!(n[0].text, "Error: Connection refused");
    assert_eq!(n.len(), 4);
    assert_eq!(n[1].kind, NoteKind::Hint);
    assert_eq!(probe_notes(ProbeKind::Info, 8, &Probe::Answered, "mx", 25, TlsMode::Plain)[0].text, "Connected in 8 ms");
    assert_eq!(probe_notes(ProbeKind::Info, 8, &Probe::NoAnswer, "mx", 25, TlsMode::Plain)[0].text, "Connection refused");
    assert_eq!(
        probe_notes(ProbeKind::Verify, 8, &Probe::Answered, "mx", 25, TlsMode::Plain)[0].text,
        "MX/SMTP server reachable  (8 ms)"
    );
    assert_eq!(
        probe_notes(ProbeKind::Verify, 8, &Probe::NoAnswer, "mx", 2525, TlsMode::Plain)[0].text,
        "Server mx:2525 refused connection"
    );
    assert_eq!(
        probe_notes(ProbeKind::Verify, 8, &Probe::Failed("odd".into()), "mx", 25, TlsMode::Plain)[0].text,
        "Connect error: odd"
    );
}

#[test]
fn summary_rows() {
    let r = port_rows(587);
    let marked: Vec<bool> = r.iter().map(|x| x.ok).collect();
    assert_eq!(marked, vec![false, false, true, false]);
    assert_eq!(r[2].label, "587  Submission");
    assert!(port_rows(26).iter().all(|x| !x.ok));
    let a = address_rows(&check_address_format("a.b@c.de"));
    let v: Vec<(String, String, bool)> = a.into_iter().map(|x| (x.label, x.value, x.ok)).collect();
    assert_eq!(v, vec![
        ("Format".into(), "Valid".into(), true),
        ("Local has dot".into(), "Yes".into(), true),
        ("TLD length".into(), "2".into(), true),
    ]);
    let b = address_rows(&check_address_format("a@c.d"));
    assert!(!b[2].ok);
    let c = address_rows(&check_address_format("nope"));
    assert_eq!((c.len(), c[0].value.as_str(), c[0].ok), (1, "Invalid", false));
}

#[test]
fn unencrypted_transport_builds_without_network() {
    let p = plan_transport("127.0.0.1", 2525, TlsMode::Plain, 1, Some(("u".into(), "p".into())), AuthMech::Login,
                           Some("tester".into())).unwrap();
    assert!(build_transport(&p).is_ok());
    let q = plan_transport("127.0.0.1", 2525, TlsMode::Plain, 1, None, AuthMech::Plain, None).unwrap();
    assert!(build_transport(&q).is_ok());
}

#[test]
fn send_record_matches_documented_example() {
    let mut s = SendSession::new("mail.example.com", 587, TlsMode::StartTls, true, 1);
    s.record(AttemptOutcome::Delivered { code: "250".into(), ms: 300, reply: Some("OK: queued as ABCD1234".into()) });
    let to = vec!["alice@example.com".to_string(), "bob@example.com".to_string()];
    let r = s.finish("2025-01-01T12:00:00+00:00".into(), 312, &to);
    assert_eq!(r.action, "send");
    assert_eq!(r.server, "mail.example.com");
    assert_eq!(r.port, 587);
    assert_eq!(r.tls_mode, "STARTTLS");
    assert!(r.success);
    assert_eq!(r.duration_ms, 312);
    assert_eq!(r.message, "Email delivered to 2 recipient(s) in 312 ms");
    assert_eq!(r.server_response.as_deref(), Some("OK: queued as ABCD1234"));
    assert_eq!(r.recipients, to);
    assert!(r.error.is_none());
}

#[test]
fn address_parts_rebuild_the_address() {
    for e in ["a@b.c", "first.last@sub.domain.org", "ü@ñ.es"] {
        let p = check_address_format(e).unwrap();
        assert_eq!(format!("{}@{}", p.local, p.domain), e);
        assert!(!p.local.is_empty());
    }
}

#[test]
fn message_without_recipients_is_refused_by_lettre() {
    let mut p = params();
    p.to.clear();
    let b = message_headers(&p).ok().unwrap();
    match message_body(b, &p, &vec![]) {
        Err(MessageError::Build(why)) => assert_eq!(why, "missing destination address, invalid envelope"),
        _ => panic!("expected a build error"),
    }
}

#[test]
fn extra_headers_are_added_to_the_message() {
    let mut p = params();
    p.headers = vec!["X-Test: 1".to_string(), "To: mallory@example.com".to_string(), "Bad Name: v".to_string(), "junk".to_string()];
    let m = message_body(message_headers(&p).ok().unwrap(), &p, &vec![]).ok().unwrap().into_message();
    let text = String::from_utf8(m.formatted()).unwrap();
    assert!(text.contains("X-Test: 1"));
    assert!(!text.contains("mallory"));
    assert!(!text.contains("Bad Name"));
    let n = header_note("To: mallory@example.com");
    assert_eq!((n.kind, n.text.as_str()), (NoteKind::Warn, "Ignoring header that cannot be set: 'To'"));
    let n = header_note("Bad Name: v");
    assert_eq!((n.kind, n.text.as_str()), (NoteKind::Warn, "Ignoring header that cannot be set: 'Bad Name'"));
    let n = header_note("content-transfer-encoding: 7bit");
    assert_eq!(n.kind, NoteKind::Warn);
}

#[test]
fn message_keeps_recipients_in_their_fields() {
    let mut p = params();
    p.cc = vec!["carol@example.com".to_string()];
    p.bcc = vec!["dave@example.com".to_string()];
    p.reply_to = Some("replies@example.com".to_string());
    let m = message_body(message_headers(&p).ok().unwrap(), &p, &vec![]).ok().unwrap().into_message();
    let text = String::from_utf8(m.formatted()).unwrap();
    assert!(text.contains("Cc: carol@example.com"));
    assert!(!text.contains("dave@example.com"));
    assert!(text.contains("Reply-To: replies@example.com"));
    let to: Vec<String> = m.envelope().to().iter().map(|a| a.to_string()).collect();
    assert_eq!(to, vec!["alice@example.com", "bob@example.com", "carol@example.com", "dave@example.com"]);
}

#[test]
fn extra_header_values_are_trimmed_of_unicode_white_space() {
    assert_eq!(parse_extra_header("\u{3000}X-A\t:\u{a0} v \u{2009}"), Some(("X-A".into(), "v".into())));
}

#[test]
fn info_and_verify_records() {
    let r = probe_result("t".into(), ProbeKind::Info, "mx", 25, TlsMode::Plain, 12, &Probe::Answered, vec![]);
    assert_eq!((r.action.as_str(), r.success, r.duration_ms, r.message.as_str()), ("info", true, 12, "Connected in 12 ms"));
    assert_eq!(r.error, None);
    let r = probe_result("t".into(), ProbeKind::Verify, "mx", 25, TlsMode::StartTls, 5,
                         &Probe::Failed("Connection refused".into()), vec!["a@b.c".into()]);
    assert_eq!((r.action.as_str(), r.success, r.message.as_str()), ("verify", false, "Connect error: Connection refused"));
    assert_eq!(r.error.as_deref(), Some("Connection refused"));
    assert_eq!(r.tls_mode, "STARTTLS");
    assert_eq!(r.recipients, vec!["a@b.c".to_string()]);
    let r = invalid_address_result("t".into(), "mx", 25, TlsMode::Plain, "nope".into());
    assert_eq!((r.success, r.message.as_str(), r.recipients.len()), (false, "Address format is invalid", 1));
}
