use email_tester::cli::{config_action, credentials, log_level, password_prompt, password_source, resolve_body,
                        resolve_sender, resolve_settings, Cli, Commands, ConfigAction, PasswordSource};
use email_tester::config::{config_path, load_config, AppConfig, AuthConfig, DefaultsConfig, ServerConfig, DEFAULT_PORT, DEFAULT_SERVER,
                           DEFAULT_TIMEOUT};
use email_tester::ping::{ping_result, ping_stats, PingRun, PingStats};
use email_tester::probe::Probe;
use email_tester::smtp::{AuthMech, ModeError, TlsMode};

#[test]
fn ping_statistics() {
    let r = vec![(true, 10u128), (false, 30), (true, 20)];
    let s = ping_stats(3, &r);
    assert_eq!(s, PingStats { transmitted: 3, received: 2, lost: 1, min_ms: 10, avg_ms: 20, max_ms: 30 });
    let one = ping_stats(1, &vec![(false, 7u128)]);
    assert_eq!(one, PingStats { transmitted: 1, received: 0, lost: 1, min_ms: 7, avg_ms: 7, max_ms: 7 });
    let none = ping_stats(0, &vec![]);
    assert_eq!(none, PingStats { transmitted: 0, received: 0, lost: 0, min_ms: 0, avg_ms: 0, max_ms: 0 });
    let rounding = ping_stats(2, &vec![(true, 1u128), (true, 2)]);
    assert_eq!(rounding.avg_ms, 1);
    assert!(rounding.min_ms <= rounding.avg_ms && rounding.avg_ms <= rounding.max_ms);
}

#[test]
fn ping_json_record() {
    let s = PingStats { transmitted: 3, received: 2, lost: 1, min_ms: 10, avg_ms: 20, max_ms: 30 };
    let r = ping_result("2025-01-01T00:00:00+00:00".into(), "mx", 25, TlsMode::StartTls, s);
    assert_eq!(r.action, "ping");
    assert_eq!(r.server, "mx");
    assert_eq!(r.tls_mode, "STARTTLS");
    assert!(!r.success);
    assert_eq!(r.duration_ms, 20);
    assert_eq!(r.message, "2/3 pings successful");
    assert_eq!(r.error.as_deref(), Some("1 probe(s) failed"));
    assert!(r.recipients.is_empty() && r.server_response.is_none());
    let all = PingStats { transmitted: 2, received: 2, lost: 0, min_ms: 1, avg_ms: 1, max_ms: 1 };
    let ok = ping_result("t".into(), "mx", 25, TlsMode::Plain, all);
    assert!(ok.success);
    assert!(ok.error.is_none());
}

#[test]
fn configuration_defaults() {
    let c = AppConfig::default();
    assert_eq!(c.server.host, DEFAULT_SERVER);
    assert_eq!(c.server.host, "222.222.222.5");
    assert_eq!((c.server.port, c.server.timeout), (25, 30));
    assert_eq!((DEFAULT_PORT, DEFAULT_TIMEOUT), (25, 30));
    assert!(c.auth.username.is_none() && c.auth.password.is_none() && c.auth.mechanism.is_none());
    assert_eq!(c.defaults.from, None);
    assert_eq!(c.defaults.from_name.as_deref(), Some("Email Tester"));
    assert_eq!(c.defaults.subject, "SMTP Test Email");
    assert_eq!(c.defaults.body, "This is a test email sent by email-tester.\nhttps://github.com/cumulus13/email-tester");
    assert_eq!(ServerConfig::default().port, 25);
    assert!(AuthConfig::default().password.is_none());
    assert_eq!(DefaultsConfig::default().subject, "SMTP Test Email");
}

#[test]
fn saved_configuration_never_holds_a_password() {
    let mut d = DefaultsConfig::default();
    d.from = Some("me@example.com".into());
    let c = AppConfig::for_save("mx".into(), 587, 10, Some("me".into()), "LOGIN".into(), d);
    assert_eq!(c.server.host, "mx");
    assert_eq!((c.server.port, c.server.timeout), (587, 10));
    assert_eq!(c.auth.username.as_deref(), Some("me"));
    assert_eq!(c.auth.password, None);
    assert_eq!(c.auth.mechanism.as_deref(), Some("LOGIN"));
    assert_eq!(c.defaults.from.as_deref(), Some("me@example.com"));
}

#[test]
fn load_config_falls_back_to_defaults() {
    let mut c = AppConfig::default();
    c.server.host = "loaded".into();
    assert_eq!(load_config(Some(c)).server.host, "loaded");
    assert_eq!(load_config(None).server.host, "222.222.222.5");
}

#[test]
fn configuration_path() {
    assert_eq!(config_path(Some("/etc/x.toml".into()), Some("/home/u".into())), "/etc/x.toml");
    assert_eq!(config_path(None, Some("/home/u".into())), "/home/u/.email-tester.toml");
    assert_eq!(config_path(None, Some("/home/u/".into())), "/home/u/.email-tester.toml");
    assert_eq!(config_path(None, None), "./.email-tester.toml");
}

fn cli(server: Option<&str>, port: Option<u16>, tls: &str, mech: &str) -> Cli {
    Cli {
        server: server.map(|s| s.to_string()),
        port,
        username: None,
        password: None,
        tls: tls.into(),
        timeout: 12,
        auth_mech: mech.into(),
        no_auth: false,
        insecure: false,
        config: None,
        verbose: 0,
        json: false,
        no_color: false,
        log_file: None,
        command: Commands::Info,
    }
}

#[test]
fn settings_prefer_command_line_over_config() {
    let cfg = AppConfig::default();
    let s = resolve_settings(&cli(Some("mx"), Some(587), "STARTTLS", "login"), &cfg).unwrap();
    assert_eq!((s.server.as_str(), s.port, s.timeout), ("mx", 587, 12));
    assert_eq!((s.tls, s.mech), (TlsMode::StartTls, AuthMech::Login));
    let d = resolve_settings(&cli(None, None, "none", "PLAIN"), &cfg).unwrap();
    assert_eq!((d.server.as_str(), d.port), ("222.222.222.5", 25));
}

#[test]
fn settings_report_the_first_bad_name() {
    let cfg = AppConfig::default();
    assert_eq!(
        resolve_settings(&cli(None, None, "quic", "nope"), &cfg).unwrap_err(),
        ModeError::UnknownTlsMode("quic".into())
    );
    assert_eq!(
        resolve_settings(&cli(None, None, "tls", "nope"), &cfg).unwrap_err(),
        ModeError::UnknownAuthMech("NOPE".into())
    );
}

#[test]
fn sender_fallbacks() {
    let s = |a: Option<&str>, b: Option<&str>, c: Option<&str>| {
        resolve_sender(&a.map(String::from), &b.map(String::from), &c.map(String::from), "mx.local")
    };
    assert_eq!(s(Some("a@x"), Some("b@x"), Some("c")), "a@x");
    assert_eq!(s(None, Some("b@x"), Some("c")), "b@x");
    assert_eq!(s(None, None, Some("c")), "c");
    assert_eq!(s(None, None, None), "noreply@mx.local");
}

#[test]
fn password_handling() {
    let u = Some("me".to_string());
    assert_eq!(password_source(&u, &None, true, false), PasswordSource::Prompt);
    assert_eq!(password_source(&u, &None, false, false), PasswordSource::Environment);
    assert_eq!(password_source(&u, &Some("pw".into()), true, false), PasswordSource::Given);
    assert_eq!(password_source(&None, &None, true, false), PasswordSource::Given);
    assert_eq!(password_source(&u, &None, true, true), PasswordSource::Given);
    assert_eq!(password_prompt(&u), "  Password for me: ");
    assert_eq!(password_prompt(&None), "  Password for user: ");
    assert_eq!(credentials(&u, &Some("pw".into()), false), Some(("me".to_string(), "pw".to_string())));
    assert_eq!(credentials(&u, &Some("pw".into()), true), None);
    assert_eq!(credentials(&u, &None, false), None);
    assert_eq!(credentials(&None, &Some("pw".into()), false), None);
}

#[test]
fn body_and_config_action_and_level() {
    let cfg = AppConfig::default();
    assert_eq!(resolve_body(&Some("hi".into()), &cfg), "hi");
    assert_eq!(resolve_body(&None, &cfg), cfg.defaults.body);
    assert_eq!(config_action(true, true, true), ConfigAction::Reset);
    assert_eq!(config_action(true, true, false), ConfigAction::Save);
    assert_eq!(config_action(false, true, false), ConfigAction::Show);
    assert_eq!(config_action(false, false, false), ConfigAction::Usage);
    assert_eq!([log_level(0), log_level(1), log_level(2), log_level(3), log_level(200)],
               ["warn", "info", "debug", "trace", "trace"]);
}

#[test]
fn ping_run_counts_probes_and_pauses_between_them() {
    let mut run = PingRun::new("mx", 25, TlsMode::Plain, 3);
    assert_eq!(run.next_probe(), Some(1));
    let r1 = run.record(10, Probe::Answered);
    assert_eq!(r1.wait_ms, Some(500));
    assert_eq!(r1.notes[0].text, "seq=1  time=10 ms");
    let r2 = run.record(30, Probe::Failed("Connection refused".into()));
    assert_eq!(r2.notes[0].text, "seq=2  time=30 ms  Connection refused");
    assert_eq!(r2.notes.len(), 4);
    assert_eq!(run.next_probe(), Some(3));
    let r3 = run.record(20, Probe::NoAnswer);
    assert_eq!(r3.wait_ms, None);
    assert_eq!(run.next_probe(), None);
    let st = run.stats();
    assert_eq!(st, PingStats { transmitted: 3, received: 1, lost: 2, min_ms: 10, avg_ms: 20, max_ms: 30 });
}
