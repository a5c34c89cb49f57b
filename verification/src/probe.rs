//! What `ping`, `info` and `verify` report about a connection probe, and
//! the rows of their summaries.

use vstd::prelude::*;
use crate::address::AddressParts;
use crate::diagnose::{diagnose_error, diagnosis};
use crate::logger::{hint_notes, note, note_views, push_hints, push_note, Note, NoteKind, NoteView, TestResult};
use crate::smtp::{tls_description, TlsMode};
use crate::text::{decimal, push_decimal};

verus! {

/// The result of a connection probe.
#[derive(Debug, Clone)]
pub enum Probe {
    /// The server answered.
    Answered,
    /// The connection was made but the server did not answer.
    NoAnswer,
    /// The probe failed with this error text.
    Failed(String),
}

/// Which command probes.
#[derive(Debug, Clone, Copy, PartialEq, Eq, Structural)]
pub enum ProbeKind {
    /// Probe number `seq` of a ping run.
    Ping { seq: u32 },
    Info,
    Verify,
}

/// A summary row with a success or failure mark.
#[derive(Debug, Clone)]
pub struct Row {
    pub label: String,
    pub value: String,
    pub ok: bool,
}

pub type RowView = (Seq<char>, Seq<char>, bool);

impl View for Row {
    type V = RowView;

    open spec fn view(&self) -> RowView {
        (self.label@, self.value@, self.ok)
    }
}

pub open spec fn row_views(s: Seq<Row>) -> Seq<RowView> {
    s.map_values(|r: Row| r@)
}

pub open spec fn seq_time(seq: u32, ms: u128) -> Seq<char> {
    "seq="@ + decimal(seq as nat) + "  time="@ + decimal(ms as nat) + " ms"@
}

/// The line reported for a probe that took `ms` milliseconds, followed by
/// advice when it failed with an error.
pub open spec fn probe_notes_spec(kind: ProbeKind, ms: u128, p: Probe, server: Seq<char>, port: u16, tls: TlsMode) -> Seq<NoteView> {
    match p {
        Probe::Answered => seq![
            (
                NoteKind::Success,
                Seq::empty(),
                match kind {
                    ProbeKind::Ping { seq } => seq_time(seq, ms),
                    ProbeKind::Info => "Connected in "@ + decimal(ms as nat) + " ms"@,
                    ProbeKind::Verify => "MX/SMTP server reachable  ("@ + decimal(ms as nat) + " ms)"@,
                },
            ),
        ],
        Probe::NoAnswer => seq![
            (
                NoteKind::Fail,
                Seq::empty(),
                match kind {
                    ProbeKind::Ping { seq } => seq_time(seq, ms) + "  No response"@,
                    ProbeKind::Info => "Connection refused"@,
                    ProbeKind::Verify => "Server "@ + server + ":"@ + decimal(port as nat) + " refused connection"@,
                },
            ),
        ],
        Probe::Failed(e) => seq![
            (
                NoteKind::Fail,
                Seq::empty(),
                match kind {
                    ProbeKind::Ping { seq } => seq_time(seq, ms) + "  "@ + e@,
                    ProbeKind::Info => "Error: "@ + e@,
                    ProbeKind::Verify => "Connect error: "@ + e@,
                },
            ),
        ] + hint_notes(diagnosis(e@, server, port, tls, false)),
    }
}

fn seq_time_text(seq: u32, ms: u128) -> (res: String)
    ensures
        res@ == seq_time(seq, ms),
{
    let mut t = String::from_str("seq=");
    push_decimal(&mut t, seq as u128);
    t.append("  time=");
    push_decimal(&mut t, ms);
    t.append(" ms");
    t
}

/// What to report for a probe (see `probe_notes_spec`).
pub fn probe_notes(kind: ProbeKind, ms: u128, p: &Probe, server: &str, port: u16, tls: TlsMode) -> (res: Vec<Note>)
    ensures
        note_views(res@) == probe_notes_spec(kind, ms, *p, server@, port, tls),
{
    let mut notes: Vec<Note> = Vec::new();
    assert(note_views(notes@) =~= Seq::<NoteView>::empty());
    proof {
        reveal_strlit("");
        assert(""@ =~= Seq::<char>::empty());
    }
    match p {
        Probe::Answered => {
            let t = match kind {
                ProbeKind::Ping { seq } => seq_time_text(seq, ms),
                ProbeKind::Info => {
                    let mut t = String::from_str("Connected in ");
                    push_decimal(&mut t, ms);
                    t.append(" ms");
                    t
                },
                ProbeKind::Verify => {
                    let mut t = String::from_str("MX/SMTP server reachable  (");
                    push_decimal(&mut t, ms);
                    t.append(" ms)");
                    t
                },
            };
            push_note(&mut notes, note(NoteKind::Success, "", t));
        },
        Probe::NoAnswer => {
            let t = match kind {
                ProbeKind::Ping { seq } => {
                    let mut t = seq_time_text(seq, ms);
                    t.append("  No response");
                    t
                },
                ProbeKind::Info => String::from_str("Connection refused"),
                ProbeKind::Verify => {
                    let mut t = String::from_str("Server ");
                    t.append(server);
                    t.append(":");
                    push_decimal(&mut t, port as u128);
                    t.append(" refused connection");
                    t
                },
            };
            push_note(&mut notes, note(NoteKind::Fail, "", t));
        },
        Probe::Failed(e) => {
            let t = match kind {
                ProbeKind::Ping { seq } => {
                    let mut t = seq_time_text(seq, ms);
                    t.append("  ");
                    t.append(e.as_str());
                    t
                },
                ProbeKind::Info => {
                    let mut t = String::from_str("Error: ");
                    t.append(e.as_str());
                    t
                },
                ProbeKind::Verify => {
                    let mut t = String::from_str("Connect error: ");
                    t.append(e.as_str());
                    t
                },
            };
            push_note(&mut notes, note(NoteKind::Fail, "", t));
            let hints = diagnose_error(e.as_str(), server, port, &tls, false);
            push_hints(&mut notes, hints);
        },
    }
    assert(note_views(notes@) =~= probe_notes_spec(kind, ms, *p, server@, port, tls));
    notes
}

/// The line reported first for a probe (see `probe_notes_spec`).
pub open spec fn probe_line(kind: ProbeKind, ms: u128, p: Probe, server: Seq<char>, port: u16, tls: TlsMode) -> Seq<char> {
    probe_notes_spec(kind, ms, p, server, port, tls)[0].2
}

pub open spec fn probe_action(kind: ProbeKind) -> Seq<char> {
    match kind {
        ProbeKind::Ping { .. } => "ping"@,
        ProbeKind::Info => "info"@,
        ProbeKind::Verify => "verify"@,
    }
}

/// The record of an `info` or `verify` run (or of one ping probe): the
/// probe's first line as message, success when the server answered, the
/// probe's time, the error text of a failed probe, and the addresses it
/// was about.
pub fn probe_result(
    timestamp: String,
    kind: ProbeKind,
    server: &str,
    port: u16,
    tls: TlsMode,
    ms: u128,
    p: &Probe,
    recipients: Vec<String>,
) -> (res: TestResult)
    ensures
        res.timestamp == timestamp,
        res.action@ == probe_action(kind),
        res.server@ == server@,
        res.port == port,
        res.tls_mode@ == tls_description(tls),
        res.success == (*p is Answered),
        res.duration_ms == ms,
        res.message@ == probe_line(kind, ms, *p, server@, port, tls),
        res.server_response is None,
        match *p {
            Probe::Failed(e) => res.error matches Some(x) && x@ == e@,
            _ => res.error is None,
        },
        res.hints@.len() == 0,
        res.recipients@ == recipients@,
{
    let notes = probe_notes(kind, ms, p, server, port, tls);
    assert(probe_notes_spec(kind, ms, *p, server@, port, tls).len() > 0);
    assert(note_views(notes@).len() == notes@.len());
    assert(note_views(notes@)[0] == notes@[0]@);
    let message = notes[0].text.clone();
    let action = match kind {
        ProbeKind::Ping { .. } => String::from_str("ping"),
        ProbeKind::Info => String::from_str("info"),
        ProbeKind::Verify => String::from_str("verify"),
    };
    let error = match p {
        Probe::Failed(e) => Some(e.clone()),
        _ => None,
    };
    TestResult {
        timestamp,
        action,
        server: String::from_str(server),
        port,
        tls_mode: String::from_str(tls.describe()),
        success: match p {
            Probe::Answered => true,
            _ => false,
        },
        duration_ms: ms,
        message,
        server_response: None,
        error,
        hints: Vec::new(),
        recipients,
    }
}

pub open spec fn invalid_address_text() -> Seq<char> {
    "Address format is invalid"@
}

/// The record of a `verify` run on an address that is not well formed: no
/// probe is made, so it is a failure that took no time.
pub fn invalid_address_result(timestamp: String, server: &str, port: u16, tls: TlsMode, email: String) -> (res: TestResult)
    ensures
        res.timestamp == timestamp,
        res.action@ == "verify"@,
        res.server@ == server@,
        res.port == port,
        res.tls_mode@ == tls_description(tls),
        !res.success,
        res.duration_ms == 0,
        res.message@ == invalid_address_text(),
        res.server_response is None,
        res.error matches Some(x) && x@ == invalid_address_text(),
        res.hints@.len() == 0,
        res.recipients@ == seq![email],
{
    let mut recipients: Vec<String> = Vec::new();
    recipients.push(email);
    TestResult {
        timestamp,
        action: String::from_str("verify"),
        server: String::from_str(server),
        port,
        tls_mode: String::from_str(tls.describe()),
        success: false,
        duration_ms: 0,
        message: String::from_str("Address format is invalid"),
        server_response: None,
        error: Some(String::from_str("Address format is invalid")),
        hints: Vec::new(),
        recipients,
    }
}

fn row(label: &str, value: String, ok: bool) -> (res: Row)
    ensures
        res@ == (label@, value@, ok),
{
    Row { label: String::from_str(label), value, ok }
}

fn push_row(rows: &mut Vec<Row>, r: Row)
    ensures
        row_views(final(rows)@) == row_views(old(rows)@).push(r@),
{
    let ghost before = rows@;
    let ghost rv = r@;
    rows.push(r);
    assert(row_views(rows@) =~= row_views(before).push(rv));
}

/// The well-known SMTP ports, the one in use marked.
pub open spec fn port_rows_spec(port: u16) -> Seq<RowView> {
    seq![
        ("25   SMTP"@, "Server-to-server relay (no encryption)"@, port == 25),
        ("465  SMTPS"@, "Implicit TLS from connect (legacy)"@, port == 465),
        ("587  Submission"@, "STARTTLS client submission"@, port == 587),
        ("2525 Alt SMTP"@, "Alternative submission port"@, port == 2525),
    ]
}

/// The port reference of `info`, marking the port in use.
pub fn port_rows(port: u16) -> (res: Vec<Row>)
    ensures
        row_views(res@) == port_rows_spec(port),
{
    let mut rows: Vec<Row> = Vec::new();
    assert(row_views(rows@) =~= Seq::<RowView>::empty());
    push_row(&mut rows, row("25   SMTP", String::from_str("Server-to-server relay (no encryption)"), port == 25));
    push_row(&mut rows, row("465  SMTPS", String::from_str("Implicit TLS from connect (legacy)"), port == 465));
    push_row(&mut rows, row("587  Submission", String::from_str("STARTTLS client submission"), port == 587));
    push_row(&mut rows, row("2525 Alt SMTP", String::from_str("Alternative submission port"), port == 2525));
    assert(row_views(rows@) =~= port_rows_spec(port));
    rows
}

/// The rows of the address check: its verdict, then for a valid address
/// whether the local part has a dot and the length of the top-level label
/// (marked bad below two bytes).
pub open spec fn address_rows_spec(check: Option<AddressParts>) -> Seq<RowView> {
    match check {
        None => seq![("Format"@, "Invalid"@, false)],
        Some(p) => seq![
            ("Format"@, "Valid"@, true),
            ("Local has dot"@, if p.local_has_dot { "Yes"@ } else { "No"@ }, true),
            ("TLD length"@, decimal(p.tld_len as nat), p.tld_len >= 2),
        ],
    }
}

/// The rows `verify` shows for an address check.
pub fn address_rows(check: &Option<AddressParts>) -> (res: Vec<Row>)
    ensures
        row_views(res@) == address_rows_spec(*check),
        check matches Some(p) ==> res@.len() == 3 && res@[2].label@ == "TLD length"@ && (res@[2].ok <==> p.tld_len
            >= 2),
{
    let mut rows: Vec<Row> = Vec::new();
    assert(row_views(rows@) =~= Seq::<RowView>::empty());
    match check {
        None => {
            push_row(&mut rows, row("Format", String::from_str("Invalid"), false));
        },
        Some(p) => {
            push_row(&mut rows, row("Format", String::from_str("Valid"), true));
            push_row(
                &mut rows,
                row("Local has dot", String::from_str(if p.local_has_dot { "Yes" } else { "No" }), true),
            );
            let mut n = String::new();
            push_decimal(&mut n, p.tld_len as u128);
            push_row(&mut rows, row("TLD length", n, p.tld_len >= 2));
        },
    }
    assert(row_views(rows@) =~= address_rows_spec(*check));
    rows
}

/// The rows `verify` shows: for an invalid address one failed "Format" row;
/// for a valid one a passed "Format" row, a "Local has dot" row that never
/// fails, and a "TLD length" row with the length, passed exactly when the
/// top-level domain has at least two bytes (so `info`, `email` and longer
/// ones pass).
pub proof fn lemma_address_rows(check: Option<AddressParts>)
    ensures
        check is None ==> address_rows_spec(check) == seq![("Format"@, "Invalid"@, false)],
        check matches Some(p) ==> ({
            let rows = address_rows_spec(check);
            &&& rows.len() == 3
            &&& rows[0] == ("Format"@, "Valid"@, true)
            &&& rows[1].0 == "Local has dot"@
            &&& rows[1].1 == (if p.local_has_dot { "Yes"@ } else { "No"@ })
            &&& rows[1].2
            &&& rows[2].0 == "TLD length"@
            &&& rows[2].1 == decimal(p.tld_len as nat)
            &&& (rows[2].2 <==> p.tld_len >= 2)
        }),
{
}

} // verus!
