use email_tester::smtp::{AuthMech, ModeError, TlsMode};
use email_tester::text::{chars_of, pad_right, push_decimal, repeat_str, seq_contains, str_eq};

fn decimal_string(n: u128) -> String {
    let mut s = String::new();
    push_decimal(&mut s, n);
    s
}

fn str_contains(hay: &str, needle: &str) -> bool {
    seq_contains(&chars_of(hay), &chars_of(needle))
}

#[test]
fn decimal_renders_exact_digits() {
    assert_eq!(decimal_string(0), "0");
    assert_eq!(decimal_string(7), "7");
    assert_eq!(decimal_string(10), "10");
    assert_eq!(decimal_string(12345), "12345");
    assert_eq!(decimal_string(u128::MAX), u128::MAX.to_string());
    let mut s = String::from("n=");
    push_decimal(&mut s, 42);
    assert_eq!(s, "n=42");
}

#[test]
fn contains_finds_infixes() {
    assert!(str_contains("Connection refused (os error 111)", "refused"));
    assert!(str_contains("abc", ""));
    assert!(str_contains("abc", "abc"));
    assert!(!str_contains("ab", "abc"));
    assert!(!str_contains("timed-out", "timed out"));
    assert!(str_contains("ü-timed out", "timed out"));
}

#[test]
fn equality_and_chars() {
    assert!(str_eq("tls", "tls"));
    assert!(!str_eq("tls", "tl"));
    assert!(!str_eq("tls", "ssl"));
    assert_eq!(chars_of("aü€"), vec!['a', 'ü', '€']);
}

#[test]
fn padding_counts_characters() {
    assert_eq!(pad_right("ab", 5), "ab   ");
    assert_eq!(pad_right("ünï", 5), "ünï  ");
    assert_eq!(pad_right("abcdef", 3), "abcdef");
    assert_eq!(pad_right("Duration", 26), format!("{:26}", "Duration"));
}

#[test]
fn repeat_matches_std() {
    assert_eq!(repeat_str("─", 60), "─".repeat(60));
    assert_eq!(repeat_str("ab", 0), "");
    assert_eq!(repeat_str("ab", 3), "ababab");
}

#[test]
fn tls_mode_aliases_parse_case_insensitively() {
    for s in ["none", "plain", "no", "off", "NONE", "Off"] {
        assert_eq!(TlsMode::parse(s), Ok(TlsMode::Plain), "{s}");
    }
    for s in ["starttls", "start", "opportunistic", "STARTTLS", "StartTls"] {
        assert_eq!(TlsMode::parse(s), Ok(TlsMode::StartTls), "{s}");
    }
    for s in ["tls", "ssl", "smtps", "implicit", "TLS", "Implicit"] {
        assert_eq!(TlsMode::parse(s), Ok(TlsMode::Tls), "{s}");
    }
    assert_eq!("SSL".parse::<TlsMode>(), Ok(TlsMode::Tls));
}

#[test]
fn tls_mode_unknown_reports_lowercased_text() {
    let e = TlsMode::parse("BoGuS").unwrap_err();
    assert_eq!(e, ModeError::UnknownTlsMode("bogus".to_string()));
    assert_eq!(e.message(), "Unknown TLS mode 'bogus'. Valid values: none, starttls, tls");
    assert!(TlsMode::parse("").is_err());
    assert!(TlsMode::parse(" tls").is_err());
}

#[test]
fn tls_mode_from_lowercase_is_exact() {
    assert_eq!(TlsMode::from_lowercase("tls"), Ok(TlsMode::Tls));
    assert_eq!(TlsMode::from_lowercase("TLS"), Err(ModeError::UnknownTlsMode("TLS".to_string())));
}

#[test]
fn keywords_round_trip() {
    for m in [TlsMode::Plain, TlsMode::StartTls, TlsMode::Tls] {
        assert_eq!(TlsMode::parse(m.keyword()), Ok(m));
    }
}

#[test]
fn tls_mode_texts() {
    assert_eq!(TlsMode::Plain.describe(), "Plain (no encryption)");
    assert_eq!(TlsMode::StartTls.describe(), "STARTTLS");
    assert_eq!(TlsMode::Tls.describe(), "TLS/SSL (SMTPS)");
    assert_eq!(TlsMode::Plain.typical_port(), "25 or 2525");
    assert_eq!(TlsMode::StartTls.typical_port(), "587");
    assert_eq!(TlsMode::Tls.typical_port(), "465");
}

#[test]
fn port_mismatch_hints() {
    assert_eq!(
        TlsMode::Tls.port_mismatch_hint(587).unwrap(),
        "Using --tls tls (implicit SSL) on port 587 is unusual. Port 465 is standard for SMTPS. For port 25/587 try --tls none or --tls starttls."
    );
    assert_eq!(
        TlsMode::Tls.port_mismatch_hint(25).unwrap(),
        "Using --tls tls (implicit SSL) on port 25 is unusual. Port 465 is standard for SMTPS. For port 25/587 try --tls none or --tls starttls."
    );
    assert_eq!(
        TlsMode::StartTls.port_mismatch_hint(465).unwrap(),
        "Using --tls starttls on port 465 is unusual. Port 465 normally uses implicit TLS (--tls tls). For STARTTLS use port 587."
    );
    assert_eq!(
        TlsMode::Plain.port_mismatch_hint(465).unwrap(),
        "Port 465 usually requires implicit TLS. Try --tls tls instead of --tls none."
    );
    assert_eq!(TlsMode::Tls.port_mismatch_hint(465), None);
    assert_eq!(TlsMode::StartTls.port_mismatch_hint(587), None);
    assert_eq!(TlsMode::Plain.port_mismatch_hint(25), None);
    assert_eq!(TlsMode::Plain.port_mismatch_hint(2525), None);
}

#[test]
fn auth_mechanisms_parse_case_insensitively() {
    assert_eq!(AuthMech::parse("plain"), Ok(AuthMech::Plain));
    assert_eq!(AuthMech::parse("Login"), Ok(AuthMech::Login));
    assert_eq!(AuthMech::parse("cram-md5"), Ok(AuthMech::CramMd5));
    assert_eq!(AuthMech::parse("CRAMMD5"), Ok(AuthMech::CramMd5));
    assert_eq!("login".parse::<AuthMech>(), Ok(AuthMech::Login));
}

#[test]
fn auth_mechanism_uses_full_unicode_case_mapping() {
    // U+0131 (dotless i) upper-cases to ASCII 'I'.
    assert_eq!(AuthMech::parse("pla\u{131}n"), Ok(AuthMech::Plain));
}

#[test]
fn auth_mechanism_unknown_reports_uppercased_text() {
    let e = AuthMech::parse("xoauth2").unwrap_err();
    assert_eq!(e, ModeError::UnknownAuthMech("XOAUTH2".to_string()));
    assert_eq!(e.message(), "Unknown auth mechanism 'XOAUTH2'. Valid values: PLAIN, LOGIN, CRAM-MD5");
}

#[test]
fn auth_labels() {
    assert_eq!(AuthMech::Plain.label(), "PLAIN");
    assert_eq!(AuthMech::Login.label(), "LOGIN");
    assert_eq!(AuthMech::CramMd5.label(), "CRAM-MD5");
}

#[test]
fn modes_parse_through_from_str_reports_unknown_names() {
    assert_eq!("Implicit".parse::<TlsMode>(), Ok(TlsMode::Tls));
    assert_eq!("BoGuS".parse::<TlsMode>(), Err(ModeError::UnknownTlsMode("bogus".to_string())));
    assert_eq!("Cram-Md5".parse::<AuthMech>(), Ok(AuthMech::CramMd5));
    assert_eq!("xoauth2".parse::<AuthMech>(), Err(ModeError::UnknownAuthMech("XOAUTH2".to_string())));
}

#[test]
fn every_mode_and_mechanism_name_parses_back() {
    for m in [TlsMode::Plain, TlsMode::StartTls, TlsMode::Tls] {
        assert_eq!(TlsMode::parse(m.keyword()), Ok(m));
    }
    for m in [AuthMech::Plain, AuthMech::Login, AuthMech::CramMd5] {
        assert_eq!(AuthMech::parse(m.label()), Ok(m));
        assert_eq!(m.label().parse::<AuthMech>(), Ok(m));
    }
    assert_eq!(TlsMode::parse("StartTLS"), Ok(TlsMode::StartTls));
    assert_eq!(AuthMech::parse("login"), Ok(AuthMech::Login));
}
