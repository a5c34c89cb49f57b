use email_tester::logger::{Emission, Logger, Note, NoteKind, ResultOutput, Stream, Style, TestResult};

fn text(e: &Emission) -> Vec<String> {
    e.lines.iter().map(|l| l.spans.iter().map(|s| s.text.as_str()).collect::<String>()).collect()
}

fn plain(log: bool) -> Logger {
    Logger::new(0, false, false, if log { Some("/tmp/x.log".to_string()) } else { None })
}

#[test]
fn ok_line_plain_and_logged() {
    let e = plain(true).ok("2025-01-01 00:00:00.000", "done");
    assert_eq!(text(&e), vec!["  [OK]   [2025-01-01 00:00:00.000] done"]);
    assert_eq!(e.log_entry.as_deref(), Some("[OK]    [2025-01-01 00:00:00.000] done"));
    assert!(matches!(e.lines[0].stream, Stream::Stdout));
}

#[test]
fn ok_line_coloured() {
    let l = Logger::new(0, false, true, None);
    let e = l.ok("T", "done");
    assert_eq!(text(&e), vec!["  ✓ [T] done"]);
    let styles: Vec<Style> = e.lines[0].spans.iter().map(|s| s.style).collect();
    assert_eq!(styles, vec![Style::Plain, Style::GreenBold, Style::Plain, Style::BrightBlack, Style::Plain, Style::Green]);
    assert!(e.log_entry.is_none());
}

#[test]
fn fail_goes_to_stderr_and_log_even_in_json_mode() {
    let e = plain(true).fail("T", "boom");
    assert_eq!(text(&e), vec!["  [FAIL] [T] boom"]);
    assert!(matches!(e.lines[0].stream, Stream::Stderr));
    let j = Logger::new(0, true, false, Some("f".to_string())).fail("T", "boom");
    assert!(j.lines.is_empty());
    assert_eq!(j.log_entry.as_deref(), Some("[FAIL]  [T] boom"));
}

#[test]
fn json_mode_is_quiet() {
    let l = Logger::new(3, true, true, Some("f".to_string()));
    for e in [l.ok("T", "m"), l.warn("T", "m"), l.debug("T", "m"), l.hint("m"), l.header("h"), l.section("s"),
              l.info_kv("a", "b"), l.status_kv("a", "b", true), l.step(1, 2, "m"), l.sep(), l.banner("1.0"),
              l.info_line("T", "m")] {
        assert!(e.lines.is_empty());
        assert!(e.log_entry.is_none());
    }
}

#[test]
fn warn_debug_info_lines() {
    let l = Logger::new(2, false, false, Some("f".to_string()));
    assert_eq!(text(&l.warn("T", "careful")), vec!["  [WARN] [T] careful"]);
    assert_eq!(l.warn("T", "careful").log_entry.as_deref(), Some("[WARN]  [T] careful"));
    assert_eq!(text(&l.debug("T", "d")), vec!["  [DBG]  [T] d"]);
    assert!(l.debug("T", "d").log_entry.is_none());
    assert_eq!(text(&l.info_line("T", "i")), vec!["  [INFO] [T] i"]);
    let quiet = Logger::new(1, false, false, None);
    assert!(quiet.debug("T", "d").lines.is_empty());
    assert_eq!(quiet.info_line("T", "i").lines.len(), 1);
    let silent = Logger::new(0, false, false, None);
    assert!(silent.info_line("T", "i").lines.is_empty());
}

#[test]
fn header_section_hint() {
    let l = plain(true);
    let bar = "═".repeat(64);
    assert_eq!(text(&l.header("Title")), vec![format!("\n{}\n  {}\n{}\n", bar, "Title", bar)]);
    assert_eq!(l.header("Title").log_entry.as_deref(), Some("=== Title ==="));
    assert_eq!(text(&l.section("Part")), vec!["\n  >> Part"]);
    assert_eq!(text(&l.hint("try this")), vec!["  [HINT] try this"]);
    assert_eq!(l.hint("try this").log_entry.as_deref(), Some("[HINT]  try this"));
    let c = Logger::new(0, false, true, None);
    assert_eq!(text(&c.header("Title")), vec![format!("\n{}", bar), "  Title".to_string(), format!("{}\n", bar)]);
}

#[test]
fn key_value_rows_pad_labels() {
    let l = plain(true);
    let e = l.info_kv("Server", "mx.example.com");
    assert_eq!(text(&e), vec![format!("    {:26} {}", "Server", "mx.example.com")]);
    assert_eq!(e.log_entry.unwrap(), format!("[INFO]  {:26} {}", "Server", "mx.example.com"));
    assert_eq!(text(&l.status_kv("Port", "25", true)), vec![format!("    [ok] {:24} 25", "Port")]);
    assert_eq!(text(&l.status_kv("Lost", "3", false)), vec![format!("    [!!] {:24} 3", "Lost")]);
    let c = Logger::new(0, false, true, None);
    let s = c.status_kv("Lost", "3", false);
    assert_eq!(s.lines[0].spans[1].text, "✗");
    assert_eq!(s.lines[0].spans[1].style, Style::Red);
}

#[test]
fn step_and_sep() {
    let l = plain(false);
    assert_eq!(text(&l.step(2, 10, "Connecting...")), vec!["  [2/10] Connecting..."]);
    assert_eq!(text(&l.sep()), vec![format!("  {}", "─".repeat(60))]);
}

#[test]
fn banner_plain_and_colour() {
    assert_eq!(
        text(&plain(false).banner("0.1.0")),
        vec![
            "\n  EMAIL-TESTER v0.1.0".to_string(),
            "  Hadi Cahyadi <cumulus13@gmail.com>".to_string(),
            "  https://github.com/cumulus13/email-tester\n".to_string(),
        ]
    );
    let c = Logger::new(0, false, true, None).banner("0.1.0");
    assert_eq!(c.lines.len(), 2);
    assert_eq!(text(&c)[1], "  v0.1.0  ·  Hadi Cahyadi <cumulus13@gmail.com>  ·  github.com/cumulus13/email-tester\n");
}

fn result(success: bool) -> TestResult {
    TestResult {
        timestamp: "now".into(),
        action: "send".into(),
        server: "mx".into(),
        port: 25,
        tls_mode: "Plain (no encryption)".into(),
        success,
        duration_ms: 42,
        message: if success { "delivered".into() } else { "failed".into() },
        server_response: Some("250 OK".into()),
        error: if success { None } else { Some("oops".into()) },
        hints: vec![],
        recipients: vec![],
    }
}

#[test]
fn result_report() {
    let l = Logger::new(1, false, false, None);
    match l.print_result(&result(false), "T") {
        ResultOutput::Lines(v) => {
            let all: Vec<String> = v.iter().flat_map(|e| text(e)).collect();
            assert_eq!(all, vec![
                format!("  {}", "─".repeat(60)),
                "  [FAIL] [T] failed".to_string(),
                "  [FAIL] [T]   Detail : oops".to_string(),
                format!("    {:26} {}", "Duration", "42 ms"),
                format!("    {:26} {}", "Server reply", "250 OK"),
                format!("  {}", "─".repeat(60)),
            ]);
        }
        ResultOutput::Json => panic!("expected lines"),
    }
    match Logger::new(0, false, false, None).print_result(&result(true), "T") {
        ResultOutput::Lines(v) => assert_eq!(v.len(), 3),
        ResultOutput::Json => panic!("expected lines"),
    }
    assert!(matches!(Logger::new(0, true, false, None).print_result(&result(true), "T"), ResultOutput::Json));
}

#[test]
fn result_report_ends_with_hints() {
    let mut r = result(false);
    r.hints = vec!["try 587".into(), "check auth".into()];
    match Logger::new(0, false, false, None).print_result(&r, "T") {
        ResultOutput::Lines(v) => {
            let all: Vec<String> = v.iter().flat_map(|e| text(e)).collect();
            assert_eq!(all, vec![
                format!("  {}", "─".repeat(60)),
                "  [FAIL] [T] failed".to_string(),
                "  [FAIL] [T]   Detail : oops".to_string(),
                String::new(),
                "  [HINT] try 587".to_string(),
                "  [HINT] check auth".to_string(),
                format!("  {}", "─".repeat(60)),
            ]);
        }
        ResultOutput::Json => panic!("expected lines"),
    }
}

#[test]
fn notes_show_as_their_kind() {
    let l = Logger::new(2, false, false, None);
    let n = |kind, label: &str, t: &str| Note { kind, label: label.into(), text: t.into() };
    assert_eq!(text(&l.show_note("T", &n(NoteKind::Success, "", "yes"))), vec!["  [OK]   [T] yes"]);
    assert_eq!(text(&l.show_note("T", &n(NoteKind::Fail, "", "no"))), vec!["  [FAIL] [T] no"]);
    assert_eq!(text(&l.show_note("T", &n(NoteKind::Warn, "", "hm"))), vec!["  [WARN] [T] hm"]);
    assert_eq!(text(&l.show_note("T", &n(NoteKind::Hint, "", "do"))), vec!["  [HINT] do"]);
    assert_eq!(text(&l.show_note("T", &n(NoteKind::Debug, "", "dbg"))), vec!["  [DBG]  [T] dbg"]);
    assert_eq!(text(&l.show_note("T", &n(NoteKind::Info, "Server reply", "250"))),
               vec![format!("    {:26} 250", "Server reply")]);
}
