//! What the console and the log file receive for each kind of message.
//!
//! Every method returns the lines to print, as styled segments, and the
//! entry to append to the log file; printing, colouring and file access are
//! left to the caller.

use vstd::prelude::*;
use crate::text::{decimal, padded, push_decimal, repeated, pad_right, repeat_str, views};

verus! {

/// The look of a segment of console text when colour is on.
#[derive(Debug, Clone, Copy, PartialEq, Eq, Structural)]
pub enum Style {
    Plain,
    CyanBold,
    YellowBold,
    Yellow,
    GreenBold,
    Green,
    RedBold,
    Red,
    BrightBlack,
    BrightWhite,
    BrightWhiteBold,
    White,
    BrightBlue,
    BrightBlueBold,
    BrightYellow,
}

/// Which console stream a line goes to.
#[derive(Debug, Clone, Copy, PartialEq, Eq, Structural)]
pub enum Stream {
    Stdout,
    Stderr,
}

/// A piece of console text with its style.
#[derive(Debug, Clone)]
pub struct Span {
    pub text: String,
    pub style: Style,
}

/// One console line (printed with a trailing newline).
#[derive(Debug, Clone)]
pub struct Line {
    pub stream: Stream,
    pub spans: Vec<Span>,
}

/// Everything one logger call produces.
#[derive(Debug, Clone)]
pub struct Emission {
    /// Lines for the console, in order.
    pub lines: Vec<Line>,
    /// Entry for the log file (present only when a log file is configured).
    pub log_entry: Option<String>,
}

pub type SpanView = (Seq<char>, Style);

pub type LineView = (Stream, Seq<SpanView>);

pub type EmissionView = (Seq<LineView>, Option<Seq<char>>);

impl View for Span {
    type V = SpanView;

    open spec fn view(&self) -> SpanView {
        (self.text@, self.style)
    }
}

pub open spec fn span_views(s: Seq<Span>) -> Seq<SpanView> {
    s.map_values(|x: Span| x@)
}

impl View for Line {
    type V = LineView;

    open spec fn view(&self) -> LineView {
        (self.stream, span_views(self.spans@))
    }
}

pub open spec fn line_views(s: Seq<Line>) -> Seq<LineView> {
    s.map_values(|x: Line| x@)
}

pub open spec fn opt_view(o: Option<String>) -> Option<Seq<char>> {
    match o {
        Some(s) => Some(s@),
        None => None,
    }
}

impl View for Emission {
    type V = EmissionView;

    open spec fn view(&self) -> EmissionView {
        (line_views(self.lines@), opt_view(self.log_entry))
    }
}

/// The kind of a progress note (shown with the logger method of that kind).
#[derive(Debug, Clone, Copy, PartialEq, Eq, Structural)]
pub enum NoteKind {
    Success,
    Fail,
    Warn,
    Hint,
    Debug,
    /// A key-value row; the label is in `Note::label`.
    Info,
}

/// A progress note for the user; `label` is empty except for `Info`.
#[derive(Debug, Clone)]
pub struct Note {
    pub kind: NoteKind,
    pub label: String,
    pub text: String,
}

pub type NoteView = (NoteKind, Seq<char>, Seq<char>);

impl View for Note {
    type V = NoteView;

    open spec fn view(&self) -> NoteView {
        (self.kind, self.label@, self.text@)
    }
}

pub open spec fn note_views(s: Seq<Note>) -> Seq<NoteView> {
    s.map_values(|n: Note| n@)
}

/// Advice lines as hint notes.
pub open spec fn hint_notes(hs: Seq<Seq<char>>) -> Seq<NoteView> {
    hs.map_values(|h: Seq<char>| (NoteKind::Hint, Seq::<char>::empty(), h))
}

pub(crate) fn note(kind: NoteKind, label: &str, text: String) -> (res: Note)
    ensures
        res@ == (kind, label@, text@),
{
    Note { kind, label: String::from_str(label), text }
}

pub(crate) fn push_note(notes: &mut Vec<Note>, n: Note)
    ensures
        note_views(final(notes)@) == note_views(old(notes)@).push(n@),
{
    let ghost before = notes@;
    let ghost nv = n@;
    notes.push(n);
    assert(note_views(notes@) =~= note_views(before).push(nv));
}

pub(crate) fn push_hints(notes: &mut Vec<Note>, hints: Vec<String>)
    ensures
        note_views(final(notes)@) == note_views(old(notes)@) + hint_notes(views(hints@)),
{
    let ghost before = note_views(notes@);
    let mut i: usize = 0;
    while i < hints.len()
        invariant
            i <= hints@.len(),
            note_views(notes@) == before + hint_notes(views(hints@).subrange(0, i as int)),
        decreases hints@.len() - i,
    {
        let h = hints[i].clone();
        push_note(notes, note(NoteKind::Hint, "", h));
        proof {
            reveal_strlit("");
            assert(""@ =~= Seq::<char>::empty());
        }
        assert(hint_notes(views(hints@).subrange(0, i + 1)) =~= hint_notes(views(hints@).subrange(0, i as int)).push(
            (NoteKind::Hint, Seq::<char>::empty(), hints@[i as int]@),
        ));
        assert(note_views(notes@) =~= before + hint_notes(views(hints@).subrange(0, i + 1)));
        i = i + 1;
    }
    assert(views(hints@).subrange(0, hints@.len() as int) =~= views(hints@));
}

/// Outcome of one test, as reported to the user or printed as JSON.
#[derive(Debug, Clone)]
pub struct TestResult {
    pub timestamp: String,
    pub action: String,
    pub server: String,
    pub port: u16,
    pub tls_mode: String,
    pub success: bool,
    pub duration_ms: u128,
    pub message: String,
    pub server_response: Option<String>,
    pub error: Option<String>,
    /// Advice on the error.
    pub hints: Vec<String>,
    pub recipients: Vec<String>,
}

/// Console and log-file settings.
#[derive(Debug, Clone)]
pub struct Logger {
    pub verbose: u8,
    pub json: bool,
    pub color: bool,
    pub log_file: Option<String>,
}

/// How a final result is shown.
#[derive(Debug, Clone)]
pub enum ResultOutput {
    /// Print the result as JSON and nothing else.
    Json,
    /// Print these emissions, in order.
    Lines(Vec<Emission>),
}

pub open spec fn sp(t: Seq<char>, s: Style) -> SpanView {
    (t, s)
}

pub open spec fn plain_line(stream: Stream, t: Seq<char>) -> LineView {
    (stream, seq![sp(t, Style::Plain)])
}

pub open spec fn nothing() -> EmissionView {
    (Seq::empty(), None)
}

pub open spec fn bracket(t: Seq<char>) -> Seq<char> {
    "["@ + t + "]"@
}

pub open spec fn bar() -> Seq<char> {
    repeated("═"@, 64)
}

pub open spec fn rule() -> Seq<char> {
    repeated("─"@, 60)
}

pub open spec fn banner_art() -> Seq<char> {
    BANNER_ART@
}

/// The banner art shown at start-up.
pub const BANNER_ART: &'static str = "\n  ███████╗███╗   ███╗ █████╗ ██╗██╗      ████████╗███████╗███████╗████████╗███████╗██████╗ \n  ██╔════╝████╗ ████║██╔══██╗██║██║      ╚══██╔══╝██╔════╝██╔════╝╚══██╔══╝██╔════╝██╔══██╗\n  █████╗  ██╔████╔██║███████║██║██║         ██║   █████╗  ███████╗   ██║   █████╗  ██████╔╝\n  ██╔══╝  ██║╚██╔╝██║██╔══██║██║██║         ██║   ██╔══╝  ╚════██║   ██║   ██╔══╝  ██╔══██╗\n  ███████╗██║ ╚═╝ ██║██║  ██║██║███████╗    ██║   ███████╗███████║   ██║   ███████╗██║  ██║\n  ╚══════╝╚═╝     ╚═╝╚═╝  ╚═╝╚═╝╚══════╝   ╚═╝   ╚══════╝╚══════╝   ╚═╝   ╚══════╝╚═╝  ╚═╝";

impl Logger {
    pub open spec fn log_line(self, t: Seq<char>) -> Option<Seq<char>> {
        if self.log_file is Some {
            Some(t)
        } else {
            None
        }
    }

    pub open spec fn banner_out(self, version: Seq<char>) -> EmissionView {
        if self.json {
            nothing()
        } else if self.color {
            (
                seq![
                    (Stream::Stdout, seq![sp(banner_art(), Style::CyanBold)]),
                    (
                        Stream::Stdout,
                        seq![
                            sp("  "@, Style::Plain),
                            sp("v"@ + version, Style::BrightWhiteBold),
                            sp("  ·  "@, Style::Plain),
                            sp("Hadi Cahyadi <cumulus13@gmail.com>"@, Style::BrightBlack),
                            sp("  ·  "@, Style::Plain),
                            sp("github.com/cumulus13/email-tester"@, Style::BrightBlack),
                            sp("\n"@, Style::Plain),
                        ],
                    ),
                ],
                None,
            )
        } else {
            (
                seq![
                    plain_line(Stream::Stdout, "\n  EMAIL-TESTER v"@ + version),
                    plain_line(Stream::Stdout, "  Hadi Cahyadi <cumulus13@gmail.com>"@),
                    plain_line(Stream::Stdout, "  https://github.com/cumulus13/email-tester\n"@),
                ],
                None,
            )
        }
    }

    pub open spec fn header_out(self, text: Seq<char>) -> EmissionView {
        if self.json {
            nothing()
        } else if self.color {
            (
                seq![
                    (Stream::Stdout, seq![sp("\n"@, Style::Plain), sp(bar(), Style::CyanBold)]),
                    (Stream::Stdout, seq![sp("  "@, Style::Plain), sp(text, Style::CyanBold)]),
                    (Stream::Stdout, seq![sp(bar(), Style::CyanBold), sp("\n"@, Style::Plain)]),
                ],
                self.log_line("=== "@ + text + " ==="@),
            )
        } else {
            (
                seq![plain_line(Stream::Stdout, "\n"@ + bar() + "\n  "@ + text + "\n"@ + bar() + "\n"@)],
                self.log_line("=== "@ + text + " ==="@),
            )
        }
    }

    pub open spec fn section_out(self, text: Seq<char>) -> EmissionView {
        if self.json {
            nothing()
        } else if self.color {
            (
                seq![
                    (
                        Stream::Stdout,
                        seq![
                            sp("\n  "@, Style::Plain),
                            sp("▶"@, Style::YellowBold),
                            sp(" "@, Style::Plain),
                            sp(text, Style::YellowBold),
                        ],
                    ),
                ],
                None,
            )
        } else {
            (seq![plain_line(Stream::Stdout, "\n  >> "@ + text)], None)
        }
    }

    /// A time-stamped status line: icon and message styles for colour, the
    /// plain tag, and the log tag.
    pub open spec fn stamped_line(
        self,
        stream: Stream,
        icon: Seq<char>,
        icon_style: Style,
        msg_style: Style,
        tag: Seq<char>,
        ts: Seq<char>,
        msg: Seq<char>,
    ) -> LineView {
        if self.color {
            (
                stream,
                seq![
                    sp("  "@, Style::Plain),
                    sp(icon, icon_style),
                    sp(" "@, Style::Plain),
                    sp(bracket(ts), Style::BrightBlack),
                    sp(" "@, Style::Plain),
                    sp(msg, msg_style),
                ],
            )
        } else {
            plain_line(stream, "  "@ + tag + " "@ + bracket(ts) + " "@ + msg)
        }
    }

    pub open spec fn ok_out(self, ts: Seq<char>, msg: Seq<char>) -> EmissionView {
        if self.json {
            nothing()
        } else {
            (
                seq![self.stamped_line(Stream::Stdout, "✓"@, Style::GreenBold, Style::Green, "[OK]  "@, ts, msg)],
                self.log_line("[OK]    "@ + bracket(ts) + " "@ + msg),
            )
        }
    }

    pub open spec fn fail_out(self, ts: Seq<char>, msg: Seq<char>) -> EmissionView {
        (
            if self.json {
                Seq::empty()
            } else {
                seq![self.stamped_line(Stream::Stderr, "✗"@, Style::RedBold, Style::RedBold, "[FAIL]"@, ts, msg)]
            },
            self.log_line("[FAIL]  "@ + bracket(ts) + " "@ + msg),
        )
    }

    pub open spec fn warn_out(self, ts: Seq<char>, msg: Seq<char>) -> EmissionView {
        if self.json {
            nothing()
        } else {
            (
                seq![self.stamped_line(Stream::Stdout, "⚠"@, Style::YellowBold, Style::Yellow, "[WARN]"@, ts, msg)],
                self.log_line("[WARN]  "@ + bracket(ts) + " "@ + msg),
            )
        }
    }

    pub open spec fn debug_out(self, ts: Seq<char>, msg: Seq<char>) -> EmissionView {
        if self.verbose < 2 || self.json {
            nothing()
        } else {
            (
                seq![self.stamped_line(Stream::Stdout, "·"@, Style::BrightBlack, Style::BrightBlack, "[DBG] "@, ts, msg)],
                None,
            )
        }
    }

    pub open spec fn info_line_out(self, ts: Seq<char>, msg: Seq<char>) -> EmissionView {
        if self.verbose < 1 || self.json {
            nothing()
        } else {
            (
                seq![self.stamped_line(Stream::Stdout, "ℹ"@, Style::BrightBlueBold, Style::White, "[INFO]"@, ts, msg)],
                self.log_line("[INFO]  "@ + bracket(ts) + " "@ + msg),
            )
        }
    }

    pub open spec fn hint_out(self, msg: Seq<char>) -> EmissionView {
        if self.json {
            nothing()
        } else if self.color {
            (
                seq![
                    (
                        Stream::Stdout,
                        seq![
                            sp("  "@, Style::Plain),
                            sp("💡"@, Style::BrightYellow),
                            sp(" "@, Style::Plain),
                            sp(msg, Style::BrightYellow),
                        ],
                    ),
                ],
                self.log_line("[HINT]  "@ + msg),
            )
        } else {
            (seq![plain_line(Stream::Stdout, "  [HINT] "@ + msg)], self.log_line("[HINT]  "@ + msg))
        }
    }

    pub open spec fn info_kv_out(self, label: Seq<char>, value: Seq<char>) -> EmissionView {
        if self.json {
            nothing()
        } else if self.color {
            (
                seq![
                    (
                        Stream::Stdout,
                        seq![
                            sp("    "@, Style::Plain),
                            sp(padded(label, 26), Style::BrightWhite),
                            sp(" "@, Style::Plain),
                            sp(value, Style::White),
                        ],
                    ),
                ],
                self.log_line("[INFO]  "@ + padded(label, 26) + " "@ + value),
            )
        } else {
            (
                seq![plain_line(Stream::Stdout, "    "@ + padded(label, 26) + " "@ + value)],
                self.log_line("[INFO]  "@ + padded(label, 26) + " "@ + value),
            )
        }
    }

    pub open spec fn status_kv_out(self, label: Seq<char>, value: Seq<char>, ok: bool) -> EmissionView {
        if self.json {
            nothing()
        } else if self.color {
            (
                seq![
                    (
                        Stream::Stdout,
                        seq![
                            sp("    "@, Style::Plain),
                            sp(if ok { "✓"@ } else { "✗"@ }, if ok { Style::Green } else { Style::Red }),
                            sp(" "@, Style::Plain),
                            sp(padded(label, 24), Style::BrightWhite),
                            sp(" "@, Style::Plain),
                            sp(value, if ok { Style::Green } else { Style::Red }),
                        ],
                    ),
                ],
                None,
            )
        } else {
            (
                seq![
                    plain_line(
                        Stream::Stdout,
                        "    ["@ + (if ok { "ok"@ } else { "!!"@ }) + "] "@ + padded(label, 24) + " "@ + value,
                    ),
                ],
                None,
            )
        }
    }

    pub open spec fn step_out(self, i: u32, total: u32, msg: Seq<char>) -> EmissionView {
        if self.json {
            nothing()
        } else if self.color {
            (
                seq![
                    (
                        Stream::Stdout,
                        seq![
                            sp("  "@, Style::Plain),
                            sp("→"@, Style::BrightBlueBold),
                            sp(" ["@, Style::Plain),
                            sp(decimal(i as nat), Style::BrightBlue),
                            sp("/"@, Style::Plain),
                            sp(decimal(total as nat), Style::BrightBlue),
                            sp("] "@, Style::Plain),
                            sp(msg, Style::White),
                        ],
                    ),
                ],
                None,
            )
        } else {
            (
                seq![
                    plain_line(
                        Stream::Stdout,
                        "  ["@ + decimal(i as nat) + "/"@ + decimal(total as nat) + "] "@ + msg,
                    ),
                ],
                None,
            )
        }
    }

    pub open spec fn sep_out(self) -> EmissionView {
        if self.json {
            nothing()
        } else if self.color {
            (seq![(Stream::Stdout, seq![sp("  "@, Style::Plain), sp(rule(), Style::BrightBlack)])], None)
        } else {
            (seq![plain_line(Stream::Stdout, "  "@ + rule())], None)
        }
    }

    /// The emissions of the final report, in order.
    pub open spec fn result_out(self, r: TestResult, ts: Seq<char>) -> Seq<EmissionView> {
        seq![self.sep_out()]
            + (if r.success {
                seq![self.ok_out(ts, r.message@)]
            } else {
                seq![self.fail_out(ts, r.message@)] + match r.error {
                    Some(e) => seq![self.fail_out(ts, "  Detail : "@ + e@)],
                    None => Seq::empty(),
                }
            })
            + (if self.verbose > 0 {
                seq![self.info_kv_out("Duration"@, decimal(r.duration_ms as nat) + " ms"@)] + match r.server_response {
                    Some(rsp) => seq![self.info_kv_out("Server reply"@, rsp@)],
                    None => Seq::empty(),
                }
            } else {
                Seq::empty()
            })
            + self.hints_out(views(r.hints@))
            + seq![self.sep_out()]
    }

    /// An empty console line.
    pub open spec fn blank_out(self) -> EmissionView {
        if self.json {
            nothing()
        } else {
            (seq![(Stream::Stdout, Seq::<SpanView>::empty())], None)
        }
    }

    /// The advice at the end of a result: an empty line, then each hint;
    /// nothing without hints.
    pub open spec fn hints_out(self, hs: Seq<Seq<char>>) -> Seq<EmissionView> {
        if hs.len() == 0 {
            Seq::empty()
        } else {
            seq![self.blank_out()] + hs.map_values(|h: Seq<char>| self.hint_out(h))
        }
    }
}

pub open spec fn emission_views(s: Seq<Emission>) -> Seq<EmissionView> {
    s.map_values(|x: Emission| x@)
}

fn push_emission(v: &mut Vec<Emission>, e: Emission)
    ensures
        emission_views(final(v)@) == emission_views(old(v)@).push(e@),
{
    let ghost before = v@;
    let ghost ev = e@;
    v.push(e);
    assert(emission_views(v@) =~= emission_views(before).push(ev));
}

fn s(t: &str) -> (res: String)
    ensures
        res@ == t@,
{
    String::from_str(t)
}

fn new_spans() -> (res: Vec<Span>)
    ensures
        span_views(res@) == Seq::<SpanView>::empty(),
{
    let v: Vec<Span> = Vec::new();
    assert(span_views(v@) =~= Seq::<SpanView>::empty());
    v
}

fn new_lines() -> (res: Vec<Line>)
    ensures
        line_views(res@) == Seq::<LineView>::empty(),
{
    let v: Vec<Line> = Vec::new();
    assert(line_views(v@) =~= Seq::<LineView>::empty());
    v
}

fn push_span(spans: &mut Vec<Span>, text: String, style: Style)
    ensures
        span_views(final(spans)@) == span_views(old(spans)@).push((text@, style)),
{
    let ghost before = spans@;
    spans.push(Span { text, style });
    assert(span_views(spans@) =~= span_views(before).push((text@, style)));
}

fn push_line_to(lines: &mut Vec<Line>, stream: Stream, spans: Vec<Span>)
    ensures
        line_views(final(lines)@) == line_views(old(lines)@).push((stream, span_views(spans@))),
{
    let ghost before = lines@;
    let ghost sv = span_views(spans@);
    lines.push(Line { stream, spans });
    assert(line_views(lines@) =~= line_views(before).push((stream, sv)));
}

fn push_plain(lines: &mut Vec<Line>, stream: Stream, text: String)
    ensures
        line_views(final(lines)@) == line_views(old(lines)@).push(plain_line(stream, text@)),
{
    let mut spans = new_spans();
    push_span(&mut spans, text, Style::Plain);
    assert(span_views(spans@) =~= seq![sp(text@, Style::Plain)]);
    push_line_to(lines, stream, spans);
}

fn bracketed(ts: &str) -> (res: String)
    ensures
        res@ == bracket(ts@),
{
    let mut b = s("[");
    b.append(ts);
    b.append("]");
    b
}

fn empty_emission() -> (res: Emission)
    ensures
        res@ == nothing(),
{
    let lines = new_lines();
    let e = Emission { lines, log_entry: None };
    e
}

impl Logger {
    pub fn new(verbose: u8, json: bool, color: bool, log_file: Option<String>) -> (res: Logger)
        ensures
            res.verbose == verbose,
            res.json == json,
            res.color == color,
            res.log_file == log_file,
    {
        Logger { verbose, json, color, log_file }
    }

    fn entry(&self, t: String) -> (res: Option<String>)
        ensures
            opt_view(res) == self.log_line(t@),
    {
        if self.log_file.is_some() {
            Some(t)
        } else {
            None
        }
    }

    fn stamped(
        &self,
        lines: &mut Vec<Line>,
        stream: Stream,
        icon: &str,
        icon_style: Style,
        msg_style: Style,
        tag: &str,
        ts: &str,
        msg: &str,
    )
        ensures
            line_views(final(lines)@) == line_views(old(lines)@).push(
                self.stamped_line(stream, icon@, icon_style, msg_style, tag@, ts@, msg@),
            ),
    {
        if self.color {
            let mut spans = new_spans();
            push_span(&mut spans, s("  "), Style::Plain);
            push_span(&mut spans, s(icon), icon_style);
            push_span(&mut spans, s(" "), Style::Plain);
            push_span(&mut spans, bracketed(ts), Style::BrightBlack);
            push_span(&mut spans, s(" "), Style::Plain);
            push_span(&mut spans, s(msg), msg_style);
            assert(span_views(spans@) =~~= self.stamped_line(stream, icon@, icon_style, msg_style, tag@, ts@, msg@).1);
            push_line_to(lines, stream, spans);
        } else {
            let mut t = s("  ");
            t.append(tag);
            t.append(" ");
            t.append(bracketed(ts).as_str());
            t.append(" ");
            t.append(msg);
            assert(t@ =~= "  "@ + tag@ + " "@ + bracket(ts@) + " "@ + msg@);
            push_plain(lines, stream, t);
        }
    }

    /// Log entry `tag + [ts] + " " + msg`.
    fn stamped_entry(&self, tag: &str, ts: &str, msg: &str) -> (res: Option<String>)
        ensures
            opt_view(res) == self.log_line(tag@ + bracket(ts@) + " "@ + msg@),
    {
        let mut t = s(tag);
        t.append(bracketed(ts).as_str());
        t.append(" ");
        t.append(msg);
        self.entry(t)
    }

    /// Banner shown at start-up (nothing in JSON mode).
    pub fn banner(&self, version: &str) -> (res: Emission)
        ensures
            res@ == self.banner_out(version@),
    {
        if self.json {
            return empty_emission();
        }
        let mut lines = new_lines();
        if self.color {
            let mut art = new_spans();
            push_span(&mut art, s(BANNER_ART), Style::CyanBold);
            push_line_to(&mut lines, Stream::Stdout, art);
            let mut v = s("v");
            v.append(version);
            let mut spans = new_spans();
            push_span(&mut spans, s("  "), Style::Plain);
            push_span(&mut spans, v, Style::BrightWhiteBold);
            push_span(&mut spans, s("  ·  "), Style::Plain);
            push_span(&mut spans, s("Hadi Cahyadi <cumulus13@gmail.com>"), Style::BrightBlack);
            push_span(&mut spans, s("  ·  "), Style::Plain);
            push_span(&mut spans, s("github.com/cumulus13/email-tester"), Style::BrightBlack);
            push_span(&mut spans, s("\n"), Style::Plain);
            push_line_to(&mut lines, Stream::Stdout, spans);
        } else {
            let mut first = s("\n  EMAIL-TESTER v");
            first.append(version);
            push_plain(&mut lines, Stream::Stdout, first);
            push_plain(&mut lines, Stream::Stdout, s("  Hadi Cahyadi <cumulus13@gmail.com>"));
            push_plain(&mut lines, Stream::Stdout, s("  https://github.com/cumulus13/email-tester\n"));
        }
        let e = Emission { lines, log_entry: None };
        assert(e@ =~~= self.banner_out(version@));
        e
    }

    /// Section header between two double rules.
    pub fn header(&self, text: &str) -> (res: Emission)
        ensures
            res@ == self.header_out(text@),
    {
        if self.json {
            return empty_emission();
        }
        let bar = repeat_str("═", 64);
        let mut lines = new_lines();
        if self.color {
            let mut a = new_spans();
            push_span(&mut a, s("\n"), Style::Plain);
            push_span(&mut a, bar.clone(), Style::CyanBold);
            push_line_to(&mut lines, Stream::Stdout, a);
            let mut b = new_spans();
            push_span(&mut b, s("  "), Style::Plain);
            push_span(&mut b, s(text), Style::CyanBold);
            push_line_to(&mut lines, Stream::Stdout, b);
            let mut c = new_spans();
            push_span(&mut c, bar.clone(), Style::CyanBold);
            push_span(&mut c, s("\n"), Style::Plain);
            push_line_to(&mut lines, Stream::Stdout, c);
        } else {
            let mut t = s("\n");
            t.append(bar.as_str());
            t.append("\n  ");
            t.append(text);
            t.append("\n");
            t.append(bar.as_str());
            t.append("\n");
            push_plain(&mut lines, Stream::Stdout, t);
        }
        let mut en = s("=== ");
        en.append(text);
        en.append(" ===");
        let e = Emission { lines, log_entry: self.entry(en) };
        assert(e@ =~~= self.header_out(text@));
        e
    }

    /// Sub-section marker.
    pub fn section(&self, text: &str) -> (res: Emission)
        ensures
            res@ == self.section_out(text@),
    {
        if self.json {
            return empty_emission();
        }
        let mut lines = new_lines();
        if self.color {
            let mut a = new_spans();
            push_span(&mut a, s("\n  "), Style::Plain);
            push_span(&mut a, s("▶"), Style::YellowBold);
            push_span(&mut a, s(" "), Style::Plain);
            push_span(&mut a, s(text), Style::YellowBold);
            push_line_to(&mut lines, Stream::Stdout, a);
        } else {
            let mut t = s("\n  >> ");
            t.append(text);
            push_plain(&mut lines, Stream::Stdout, t);
        }
        let e = Emission { lines, log_entry: None };
        assert(e@ =~~= self.section_out(text@));
        e
    }

    /// Success line.
    pub fn ok(&self, ts: &str, msg: &str) -> (res: Emission)
        ensures
            res@ == self.ok_out(ts@, msg@),
    {
        if self.json {
            return empty_emission();
        }
        let mut lines = new_lines();
        self.stamped(&mut lines, Stream::Stdout, "✓", Style::GreenBold, Style::Green, "[OK]  ", ts, msg);
        let e = Emission { lines, log_entry: self.stamped_entry("[OK]    ", ts, msg) };
        assert(e@ =~~= self.ok_out(ts@, msg@));
        e
    }

    /// Failure line, on standard error; always written to the log file.
    pub fn fail(&self, ts: &str, msg: &str) -> (res: Emission)
        ensures
            res@ == self.fail_out(ts@, msg@),
    {
        let mut lines = new_lines();
        if !self.json {
            self.stamped(&mut lines, Stream::Stderr, "✗", Style::RedBold, Style::RedBold, "[FAIL]", ts, msg);
        }
        let e = Emission { lines, log_entry: self.stamped_entry("[FAIL]  ", ts, msg) };
        assert(e@ =~~= self.fail_out(ts@, msg@));
        e
    }

    /// Warning line.
    pub fn warn(&self, ts: &str, msg: &str) -> (res: Emission)
        ensures
            res@ == self.warn_out(ts@, msg@),
    {
        if self.json {
            return empty_emission();
        }
        let mut lines = new_lines();
        self.stamped(&mut lines, Stream::Stdout, "⚠", Style::YellowBold, Style::Yellow, "[WARN]", ts, msg);
        let e = Emission { lines, log_entry: self.stamped_entry("[WARN]  ", ts, msg) };
        assert(e@ =~~= self.warn_out(ts@, msg@));
        e
    }

    /// Debug line, shown from verbosity 2 on; never logged to the file.
    pub fn debug(&self, ts: &str, msg: &str) -> (res: Emission)
        ensures
            res@ == self.debug_out(ts@, msg@),
    {
        if self.verbose < 2 || self.json {
            return empty_emission();
        }
        let mut lines = new_lines();
        self.stamped(&mut lines, Stream::Stdout, "·", Style::BrightBlack, Style::BrightBlack, "[DBG] ", ts, msg);
        let e = Emission { lines, log_entry: None };
        assert(e@ =~~= self.debug_out(ts@, msg@));
        e
    }

    /// Informational line, shown from verbosity 1 on.
    pub fn info_line(&self, ts: &str, msg: &str) -> (res: Emission)
        ensures
            res@ == self.info_line_out(ts@, msg@),
    {
        if self.verbose < 1 || self.json {
            return empty_emission();
        }
        let mut lines = new_lines();
        self.stamped(&mut lines, Stream::Stdout, "ℹ", Style::BrightBlueBold, Style::White, "[INFO]", ts, msg);
        let e = Emission { lines, log_entry: self.stamped_entry("[INFO]  ", ts, msg) };
        assert(e@ =~~= self.info_line_out(ts@, msg@));
        e
    }

    /// Advice line.
    pub fn hint(&self, msg: &str) -> (res: Emission)
        ensures
            res@ == self.hint_out(msg@),
    {
        if self.json {
            return empty_emission();
        }
        let mut lines = new_lines();
        if self.color {
            let mut a = new_spans();
            push_span(&mut a, s("  "), Style::Plain);
            push_span(&mut a, s("💡"), Style::BrightYellow);
            push_span(&mut a, s(" "), Style::Plain);
            push_span(&mut a, s(msg), Style::BrightYellow);
            push_line_to(&mut lines, Stream::Stdout, a);
        } else {
            let mut t = s("  [HINT] ");
            t.append(msg);
            push_plain(&mut lines, Stream::Stdout, t);
        }
        let mut en = s("[HINT]  ");
        en.append(msg);
        let e = Emission { lines, log_entry: self.entry(en) };
        assert(e@ =~~= self.hint_out(msg@));
        e
    }

    /// Key-value row, label padded to 26 columns.
    pub fn info_kv(&self, label: &str, value: &str) -> (res: Emission)
        ensures
            res@ == self.info_kv_out(label@, value@),
    {
        if self.json {
            return empty_emission();
        }
        let pl = pad_right(label, 26);
        let mut lines = new_lines();
        if self.color {
            let mut a = new_spans();
            push_span(&mut a, s("    "), Style::Plain);
            push_span(&mut a, pl.clone(), Style::BrightWhite);
            push_span(&mut a, s(" "), Style::Plain);
            push_span(&mut a, s(value), Style::White);
            push_line_to(&mut lines, Stream::Stdout, a);
        } else {
            let mut t = s("    ");
            t.append(pl.as_str());
            t.append(" ");
            t.append(value);
            push_plain(&mut lines, Stream::Stdout, t);
        }
        let mut en = s("[INFO]  ");
        en.append(pl.as_str());
        en.append(" ");
        en.append(value);
        let e = Emission { lines, log_entry: self.entry(en) };
        assert(e@ =~~= self.info_kv_out(label@, value@));
        e
    }

    /// Key-value row with a success or failure mark, label padded to 24 columns.
    pub fn status_kv(&self, label: &str, value: &str, ok: bool) -> (res: Emission)
        ensures
            res@ == self.status_kv_out(label@, value@, ok),
    {
        if self.json {
            return empty_emission();
        }
        let pl = pad_right(label, 24);
        let mut lines = new_lines();
        if self.color {
            let style = if ok { Style::Green } else { Style::Red };
            let mut a = new_spans();
            push_span(&mut a, s("    "), Style::Plain);
            push_span(&mut a, if ok { s("✓") } else { s("✗") }, style);
            push_span(&mut a, s(" "), Style::Plain);
            push_span(&mut a, pl, Style::BrightWhite);
            push_span(&mut a, s(" "), Style::Plain);
            push_span(&mut a, s(value), style);
            push_line_to(&mut lines, Stream::Stdout, a);
        } else {
            let mut t = s("    [");
            t.append(if ok { "ok" } else { "!!" });
            t.append("] ");
            t.append(pl.as_str());
            t.append(" ");
            t.append(value);
            push_plain(&mut lines, Stream::Stdout, t);
        }
        let e = Emission { lines, log_entry: None };
        assert(e@ =~~= self.status_kv_out(label@, value@, ok));
        e
    }

    /// Numbered step indicator `[i/total]`.
    pub fn step(&self, i: u32, total: u32, msg: &str) -> (res: Emission)
        ensures
            res@ == self.step_out(i, total, msg@),
    {
        if self.json {
            return empty_emission();
        }
        let mut lines = new_lines();
        if self.color {
            let mut ist = String::new();
            push_decimal(&mut ist, i as u128);
            let mut tst = String::new();
            push_decimal(&mut tst, total as u128);
            let mut a = new_spans();
            push_span(&mut a, s("  "), Style::Plain);
            push_span(&mut a, s("→"), Style::BrightBlueBold);
            push_span(&mut a, s(" ["), Style::Plain);
            push_span(&mut a, ist, Style::BrightBlue);
            push_span(&mut a, s("/"), Style::Plain);
            push_span(&mut a, tst, Style::BrightBlue);
            push_span(&mut a, s("] "), Style::Plain);
            push_span(&mut a, s(msg), Style::White);
            push_line_to(&mut lines, Stream::Stdout, a);
        } else {
            let mut t = s("  [");
            push_decimal(&mut t, i as u128);
            t.append("/");
            push_decimal(&mut t, total as u128);
            t.append("] ");
            t.append(msg);
            push_plain(&mut lines, Stream::Stdout, t);
        }
        let e = Emission { lines, log_entry: None };
        assert(e@ =~~= self.step_out(i, total, msg@));
        e
    }

    /// Thin horizontal rule.
    pub fn sep(&self) -> (res: Emission)
        ensures
            res@ == self.sep_out(),
    {
        if self.json {
            return empty_emission();
        }
        let r = repeat_str("─", 60);
        let mut lines = new_lines();
        if self.color {
            let mut a = new_spans();
            push_span(&mut a, s("  "), Style::Plain);
            push_span(&mut a, r, Style::BrightBlack);
            push_line_to(&mut lines, Stream::Stdout, a);
        } else {
            let mut t = s("  ");
            t.append(r.as_str());
            push_plain(&mut lines, Stream::Stdout, t);
        }
        let e = Emission { lines, log_entry: None };
        assert(e@ =~~= self.sep_out());
        e
    }

    /// What a progress note shows: the logger line of its kind (`Info` as a
    /// key-value row).
    pub open spec fn note_out(self, ts: Seq<char>, n: NoteView) -> EmissionView {
        match n.0 {
            NoteKind::Success => self.ok_out(ts, n.2),
            NoteKind::Fail => self.fail_out(ts, n.2),
            NoteKind::Warn => self.warn_out(ts, n.2),
            NoteKind::Hint => self.hint_out(n.2),
            NoteKind::Debug => self.debug_out(ts, n.2),
            NoteKind::Info => self.info_kv_out(n.1, n.2),
        }
    }

    /// Shows a progress note (see `note_out`).
    pub fn show_note(&self, ts: &str, n: &Note) -> (res: Emission)
        ensures
            res@ == self.note_out(ts@, n@),
    {
        match n.kind {
            NoteKind::Success => self.ok(ts, n.text.as_str()),
            NoteKind::Fail => self.fail(ts, n.text.as_str()),
            NoteKind::Warn => self.warn(ts, n.text.as_str()),
            NoteKind::Hint => self.hint(n.text.as_str()),
            NoteKind::Debug => self.debug(ts, n.text.as_str()),
            NoteKind::Info => self.info_kv(n.label.as_str(), n.text.as_str()),
        }
    }

    /// The final report: `Json` in JSON mode, otherwise the lines around
    /// the result's message, its error detail, (verbose) its timing and
    /// reply, and its hints.
    pub fn print_result(&self, r: &TestResult, ts: &str) -> (res: ResultOutput)
        ensures
            self.json ==> res is Json,
            !self.json ==> (res matches ResultOutput::Lines(v) && emission_views(v@) =~~= self.result_out(*r, ts@)),
    {
        if self.json {
            return ResultOutput::Json;
        }
        let mut out: Vec<Emission> = Vec::new();
        assert(emission_views(out@) =~= Seq::<EmissionView>::empty());
        push_emission(&mut out, self.sep());
        if r.success {
            push_emission(&mut out, self.ok(ts, r.message.as_str()));
        } else {
            push_emission(&mut out, self.fail(ts, r.message.as_str()));
            match &r.error {
                Some(e) => {
                    let mut d = s("  Detail : ");
                    d.append(e.as_str());
                    push_emission(&mut out, self.fail(ts, d.as_str()));
                },
                None => {},
            }
        }
        if self.verbose > 0 {
            let mut dur = String::new();
            push_decimal(&mut dur, r.duration_ms);
            dur.append(" ms");
            push_emission(&mut out, self.info_kv("Duration", dur.as_str()));
            match &r.server_response {
                Some(rsp) => {
                    push_emission(&mut out, self.info_kv("Server reply", rsp.as_str()));
                },
                None => {},
            }
        }
        let ghost before = emission_views(out@);
        if r.hints.len() > 0 {
            push_emission(&mut out, self.blank());
            let mut i: usize = 0;
            while i < r.hints.len()
                invariant
                    !self.json,
                    i <= r.hints@.len(),
                    emission_views(out@) =~~= before + seq![self.blank_out()] + views(r.hints@).take(i as int).map_values(
                        |h: Seq<char>| self.hint_out(h),
                    ),
                decreases r.hints@.len() - i,
            {
                push_emission(&mut out, self.hint(r.hints[i].as_str()));
                assert(views(r.hints@).take(i + 1) =~= views(r.hints@).take(i as int).push(r.hints@[i as int]@));
                i = i + 1;
            }
            assert(views(r.hints@).take(i as int) =~= views(r.hints@));
        }
        assert(emission_views(out@) =~~= before + self.hints_out(views(r.hints@)));
        push_emission(&mut out, self.sep());
        assert(emission_views(out@) =~~= self.result_out(*r, ts@));
        ResultOutput::Lines(out)
    }

    /// An empty console line (see `blank_out`).
    pub fn blank(&self) -> (res: Emission)
        ensures
            res@ == self.blank_out(),
    {
        if self.json {
            return empty_emission();
        }
        let mut lines = new_lines();
        push_line_to(&mut lines, Stream::Stdout, new_spans());
        let e = Emission { lines, log_entry: None };
        assert(e@ =~~= self.blank_out());
        e
    }
}


/// In JSON mode no message reaches the console, and only failures are still
/// written to the log file.
pub proof fn lemma_json_mode_is_quiet(
    l: Logger,
    ts: Seq<char>,
    msg: Seq<char>,
    label: Seq<char>,
    value: Seq<char>,
    ok: bool,
    i: u32,
    total: u32,
    version: Seq<char>,
)
    requires
        l.json,
    ensures
        l.banner_out(version) == nothing(),
        l.header_out(msg) == nothing(),
        l.section_out(msg) == nothing(),
        l.ok_out(ts, msg) == nothing(),
        l.warn_out(ts, msg) == nothing(),
        l.debug_out(ts, msg) == nothing(),
        l.info_line_out(ts, msg) == nothing(),
        l.hint_out(msg) == nothing(),
        l.info_kv_out(label, value) == nothing(),
        l.status_kv_out(label, value, ok) == nothing(),
        l.step_out(i, total, msg) == nothing(),
        l.sep_out() == nothing(),
        l.fail_out(ts, msg).0.len() == 0,
        l.fail_out(ts, msg).1 == l.log_line("[FAIL]  "@ + bracket(ts) + " "@ + msg),
{
}

/// Without a log file nothing is logged; with one, failures always are.
pub proof fn lemma_log_file_gates_entries(l: Logger, ts: Seq<char>, msg: Seq<char>, label: Seq<char>, value: Seq<char>)
    ensures
        l.log_file is None ==> {
            &&& l.header_out(msg).1 is None
            &&& l.ok_out(ts, msg).1 is None
            &&& l.fail_out(ts, msg).1 is None
            &&& l.warn_out(ts, msg).1 is None
            &&& l.info_line_out(ts, msg).1 is None
            &&& l.hint_out(msg).1 is None
            &&& l.info_kv_out(label, value).1 is None
        },
        l.log_file is Some ==> l.fail_out(ts, msg).1 is Some,
        l.debug_out(ts, msg).1 is None,
{
}

} // verus!
