//! Sending: parameters, the retry rules of the delivery loop, and the final record.

use vstd::prelude::*;
use vstd::arithmetic::power2::{lemma2_to64, lemma_pow2_strictly_increases, lemma_pow2_unfold, pow2};
use crate::diagnose::{diagnose_error, diagnosis};
use crate::logger::{hint_notes, note, note_views, push_hints, push_note, Note, NoteKind, NoteView, TestResult};
use crate::smtp::{auth_label, tls_description, AuthMech, TlsMode};
use crate::text::{ascii_lower, is_ascii_text, chars_of, decimal, push_decimal, push_line, str_eq, to_lowercase, trim, trimmed_of, views};

verus! {

/// All parameters needed for a send operation.
#[derive(Debug, Clone)]
pub struct SendParams {
    pub server: String,
    pub port: u16,
    pub tls: TlsMode,
    pub timeout: u64,
    pub creds: Option<(String, String)>,
    pub mech: AuthMech,
    pub to: Vec<String>,
    pub cc: Vec<String>,
    pub bcc: Vec<String>,
    pub from: String,
    pub from_name: String,
    pub subject: String,
    pub body: String,
    pub html: Option<String>,
    /// Attachment paths, as given.
    pub attachments: Vec<String>,
    pub reply_to: Option<String>,
    pub headers: Vec<String>,
    pub retries: u32,
}

/// What happened in one delivery attempt.
#[derive(Debug, Clone)]
pub enum AttemptOutcome {
    /// The transport could not be set up; holds the error text.
    TransportError(String),
    /// The server accepted the message: reply code, time taken, first reply line.
    Delivered { code: String, ms: u128, reply: Option<String> },
    /// Delivery failed after `ms` milliseconds with this error text.
    SendError { ms: u128, error: String },
}

/// What the caller has to do after an attempt: show the notes, then wait
/// `wait_secs` seconds before the next attempt when it is present.
#[derive(Debug, Clone)]
pub struct AttemptReport {
    pub notes: Vec<Note>,
    pub wait_secs: Option<u64>,
}

/// The state of the delivery loop.
#[derive(Debug, Clone)]
pub struct SendSession {
    pub server: String,
    pub port: u16,
    pub tls: TlsMode,
    pub has_auth: bool,
    /// How many attempts are allowed.
    pub retries: u32,
    /// How many attempts have been made.
    pub attempts: u32,
    pub success: bool,
    pub last_err: Option<String>,
    pub server_response: Option<String>,
}

impl SendSession {
    pub open spec fn wf(self) -> bool {
        self.attempts <= self.retries
    }

    /// Another attempt is due.
    pub open spec fn may_attempt(self) -> bool {
        !self.success && self.attempts < self.retries
    }

    /// The state after an attempt with outcome `o`.
    pub open spec fn after(self, o: AttemptOutcome) -> SendSession {
        let n = (self.attempts + 1) as u32;
        match o {
            AttemptOutcome::TransportError(e) => SendSession { attempts: n, last_err: Some(e), ..self },
            AttemptOutcome::Delivered { code, ms, reply } => SendSession {
                attempts: n,
                success: true,
                server_response: reply,
                ..self
            },
            AttemptOutcome::SendError { ms, error } => SendSession { attempts: n, last_err: Some(error), ..self },
        }
    }

    /// The wait before the next attempt after an attempt with outcome `o`:
    /// two seconds after a transport error, `2^(k-1)` seconds after the
    /// `k`-th attempt failed to deliver, and none after the last attempt or
    /// a delivery.
    pub open spec fn wait_after(self, o: AttemptOutcome) -> Option<u64> {
        let k = self.attempts + 1;
        if k >= self.retries {
            None
        } else {
            match o {
                AttemptOutcome::TransportError(_) => Some(2),
                AttemptOutcome::Delivered { .. } => None,
                AttemptOutcome::SendError { .. } => Some(pow2((k - 1) as nat) as u64),
            }
        }
    }

    /// The notes shown after an attempt with outcome `o`.
    pub open spec fn notes_after(self, o: AttemptOutcome) -> Seq<NoteView> {
        match o {
            AttemptOutcome::TransportError(e) => seq![(NoteKind::Fail, Seq::empty(), "Transport error: "@ + e@)]
                + hint_notes(diagnosis(e@, self.server@, self.port, self.tls, self.has_auth)),
            AttemptOutcome::Delivered { code, ms, reply } => seq![
                (NoteKind::Success, Seq::empty(), "Delivered  SMTP "@ + code@ + "  in "@ + decimal(ms as nat) + " ms"@),
            ] + match reply {
                Some(m) => seq![(NoteKind::Info, "Server reply"@, m@)],
                None => Seq::empty(),
            },
            AttemptOutcome::SendError { ms, error } => seq![
                (NoteKind::Fail, Seq::empty(), "Send failed ("@ + decimal(ms as nat) + " ms): "@ + error@),
            ] + hint_notes(diagnosis(error@, self.server@, self.port, self.tls, self.has_auth)) + match self.wait_after(o) {
                Some(w) => seq![(NoteKind::Warn, Seq::empty(), "Back-off: retrying in "@ + decimal(w as nat) + " s…"@)],
                None => Seq::empty(),
            },
        }
    }

    /// Replays a list of outcomes from this state, one per attempt, until
    /// the loop stops.
    pub open spec fn run(self, os: Seq<AttemptOutcome>) -> SendSession
        decreases os.len(),
    {
        if os.len() == 0 || !self.may_attempt() {
            self
        } else {
            self.after(os[0]).run(os.drop_first())
        }
    }
}

/// `2^(k-1)` seconds, the back-off after the `k`-th failed delivery.
pub fn backoff_secs(k: u32) -> (res: u64)
    requires
        1 <= k <= 64,
    ensures
        res as nat == pow2((k - 1) as nat),
{
    let mut r: u64 = 1;
    let mut i: u32 = 0;
    proof {
        lemma2_to64();
    }
    while i < k - 1
        invariant
            i <= k - 1,
            k <= 64,
            r as nat == pow2(i as nat),
        decreases k - 1 - i,
    {
        proof {
            lemma_pow2_unfold((i + 1) as nat);
            lemma_pow2_strictly_increases((i + 1) as nat, 64);
            lemma2_to64();
        }
        r = r * 2;
        i = i + 1;
    }
    r
}

impl SendSession {
    /// A fresh delivery loop allowing `retries` attempts.
    pub fn new(server: &str, port: u16, tls: TlsMode, has_auth: bool, retries: u32) -> (res: SendSession)
        ensures
            res.wf(),
            res.server@ == server@,
            res.port == port,
            res.tls == tls,
            res.has_auth == has_auth,
            res.retries == retries,
            res.attempts == 0,
            !res.success,
            res.last_err is None,
            res.server_response is None,
    {
        SendSession {
            server: String::from_str(server),
            port,
            tls,
            has_auth,
            retries,
            attempts: 0,
            success: false,
            last_err: None,
            server_response: None,
        }
    }

    /// The number of the next attempt, if one is due.
    pub fn next_attempt(&self) -> (res: Option<u32>)
        requires
            self.wf(),
        ensures
            self.may_attempt() ==> res == Some((self.attempts + 1) as u32),
            !self.may_attempt() ==> res is None,
    {
        if !self.success && self.attempts < self.retries {
            Some(self.attempts + 1)
        } else {
            None
        }
    }

    /// Records the outcome of the next attempt and says what to show and
    /// how long to wait.
    pub fn record(&mut self, outcome: AttemptOutcome) -> (res: AttemptReport)
        requires
            old(self).wf(),
            old(self).may_attempt(),
            (outcome is SendError && old(self).attempts + 1 < old(self).retries) ==> old(self).attempts < 64,
        ensures
            *final(self) == old(self).after(outcome),
            final(self).wf(),
            res.wait_secs == old(self).wait_after(outcome),
            note_views(res.notes@) == old(self).notes_after(outcome),
            final(self).attempts == old(self).attempts + 1,
            match outcome {
                AttemptOutcome::TransportError(e) => !final(self).success && final(self).last_err == Some(e),
                AttemptOutcome::SendError { error, .. } => !final(self).success && final(self).last_err == Some(error),
                AttemptOutcome::Delivered { reply, .. } => final(self).success && final(self).server_response == reply
                    && final(self).last_err == old(self).last_err,
            },
    {
        let ghost pre = *self;
        let k = self.attempts + 1;
        let mut notes: Vec<Note> = Vec::new();
        assert(note_views(notes@) =~= Seq::<NoteView>::empty());
        let mut wait: Option<u64> = None;
        proof {
            reveal_strlit("");
            assert(""@ =~= Seq::<char>::empty());
        }
        match outcome {
            AttemptOutcome::TransportError(e) => {
                let mut t = String::from_str("Transport error: ");
                t.append(e.as_str());
                push_note(&mut notes, note(NoteKind::Fail, "", t));
                let hints = diagnose_error(e.as_str(), self.server.as_str(), self.port, &self.tls, self.has_auth);
                push_hints(&mut notes, hints);
                if k < self.retries {
                    wait = Some(2);
                }
                self.attempts = k;
                self.last_err = Some(e);
            },
            AttemptOutcome::Delivered { code, ms, reply } => {
                let mut t = String::from_str("Delivered  SMTP ");
                t.append(code.as_str());
                t.append("  in ");
                push_decimal(&mut t, ms);
                t.append(" ms");
                push_note(&mut notes, note(NoteKind::Success, "", t));
                match &reply {
                    Some(m) => {
                        push_note(&mut notes, note(NoteKind::Info, "Server reply", m.clone()));
                    },
                    None => {},
                }
                self.attempts = k;
                self.success = true;
                self.server_response = reply;
            },
            AttemptOutcome::SendError { ms, error } => {
                let mut t = String::from_str("Send failed (");
                push_decimal(&mut t, ms);
                t.append(" ms): ");
                t.append(error.as_str());
                push_note(&mut notes, note(NoteKind::Fail, "", t));
                let hints = diagnose_error(error.as_str(), self.server.as_str(), self.port, &self.tls, self.has_auth);
                push_hints(&mut notes, hints);
                if k < self.retries {
                    let w = backoff_secs(k);
                    let mut m = String::from_str("Back-off: retrying in ");
                    push_decimal(&mut m, w as u128);
                    m.append(" s…");
                    push_note(&mut notes, note(NoteKind::Warn, "", m));
                    wait = Some(w);
                }
                self.attempts = k;
                self.last_err = Some(error);
            },
        }
        assert(note_views(notes@) =~= pre.notes_after(outcome));
        AttemptReport { notes, wait_secs: wait }
    }
}


pub open spec fn send_message(s: SendSession, recipients: nat, total_ms: u128) -> Seq<char> {
    if s.success {
        "Email delivered to "@ + decimal(recipients) + " recipient(s) in "@ + decimal(total_ms as nat) + " ms"@
    } else {
        "Delivery failed after "@ + decimal(s.retries as nat) + " attempt(s)"@
    }
}

fn copy_strings(v: &Vec<String>) -> (res: Vec<String>)
    ensures
        views(res@) == views(v@),
{
    let mut out: Vec<String> = Vec::new();
    let mut i: usize = 0;
    while i < v.len()
        invariant
            i <= v@.len(),
            views(out@) =~= views(v@.subrange(0, i as int)),
        decreases v@.len() - i,
    {
        let x = v[i].clone();
        push_line(&mut out, x);
        assert(v@.subrange(0, i + 1) =~= v@.subrange(0, i as int).push(v@[i as int]));
        i = i + 1;
        assert(views(out@) =~= views(v@.subrange(0, i as int)));
    }
    assert(v@.subrange(0, v@.len() as int) =~= v@);
    out
}

impl SendSession {
    /// The record of the whole send: delivered or not, after how long, the
    /// server's reply, the last error with its advice, and the recipients.
    pub fn finish(&self, timestamp: String, total_ms: u128, to: &Vec<String>) -> (res: TestResult)
        ensures
            res.timestamp == timestamp,
            res.action@ == "send"@,
            res.server@ == self.server@,
            res.port == self.port,
            res.tls_mode@ == tls_description(self.tls),
            res.success == self.success,
            res.duration_ms == total_ms,
            res.message@ == send_message(*self, to@.len(), total_ms),
            res.server_response == self.server_response,
            res.error == self.last_err,
            views(res.hints@) == match self.last_err {
                Some(e) => diagnosis(e@, self.server@, self.port, self.tls, self.has_auth),
                None => Seq::empty(),
            },
            views(res.recipients@) == views(to@),
    {
        let message = if self.success {
            let mut m = String::from_str("Email delivered to ");
            push_decimal(&mut m, to.len() as u128);
            m.append(" recipient(s) in ");
            push_decimal(&mut m, total_ms);
            m.append(" ms");
            m
        } else {
            let mut m = String::from_str("Delivery failed after ");
            push_decimal(&mut m, self.retries as u128);
            m.append(" attempt(s)");
            m
        };
        let hints = match &self.last_err {
            Some(e) => diagnose_error(e.as_str(), self.server.as_str(), self.port, &self.tls, self.has_auth),
            None => {
                let v: Vec<String> = Vec::new();
                assert(views(v@) =~= Seq::<Seq<char>>::empty());
                v
            },
        };
        TestResult {
            timestamp,
            action: String::from_str("send"),
            server: self.server.clone(),
            port: self.port,
            tls_mode: String::from_str(self.tls.describe()),
            success: self.success,
            duration_ms: total_ms,
            message,
            server_response: self.server_response.clone(),
            error: self.last_err.clone(),
            hints,
            recipients: copy_strings(to),
        }
    }
}

/// A delivery loop never makes more attempts than it allows, nor more
/// than there were outcomes to record.
pub proof fn lemma_run_bounded(s: SendSession, os: Seq<AttemptOutcome>)
    requires
        s.wf(),
    ensures
        s.run(os).wf(),
        s.run(os).attempts <= s.attempts + os.len(),
        s.run(os).retries == s.retries,
    decreases os.len(),
{
    if os.len() > 0 && s.may_attempt() {
        lemma_run_bounded(s.after(os[0]), os.drop_first());
    }
}

/// A delivery loop that has not yet delivered succeeds exactly when one of
/// the outcomes of its remaining attempts is a delivery; it stops at the
/// first delivery.
pub proof fn lemma_run_success(s: SendSession, os: Seq<AttemptOutcome>)
    requires
        s.wf(),
        !s.success,
    ensures
        s.run(os).success <==> exists|i: int|
            0 <= i < os.len() && i < s.retries - s.attempts && #[trigger] os[i] is Delivered
                && forall|j: int| 0 <= j < i ==> !(os[j] is Delivered),
    decreases os.len(),
{
    if os.len() == 0 || !s.may_attempt() {
    } else {
        let t = s.after(os[0]);
        if os[0] is Delivered {
            assert(t.run(os.drop_first()) == t);
            assert(os[0] is Delivered);
        } else {
            lemma_run_success(t, os.drop_first());
            let rest = os.drop_first();
            if t.run(rest).success {
                let i = choose|i: int|
                    0 <= i < rest.len() && i < t.retries - t.attempts && #[trigger] rest[i] is Delivered
                        && forall|j: int| 0 <= j < i ==> !(rest[j] is Delivered);
                assert(os[i + 1] is Delivered);
                assert forall|j: int| 0 <= j < i + 1 implies !(os[j] is Delivered) by {
                    if j > 0 {
                        assert(os[j] == rest[j - 1]);
                    }
                }
            } else {
                if exists|i: int|
                    0 <= i < os.len() && i < s.retries - s.attempts && #[trigger] os[i] is Delivered
                        && forall|j: int| 0 <= j < i ==> !(os[j] is Delivered)
                {
                    let i = choose|i: int|
                        0 <= i < os.len() && i < s.retries - s.attempts && #[trigger] os[i] is Delivered
                            && forall|j: int| 0 <= j < i ==> !(os[j] is Delivered);
                    assert(i > 0);
                    assert(rest[i - 1] is Delivered);
                    assert forall|j: int| 0 <= j < i - 1 implies !(rest[j] is Delivered) by {
                        assert(rest[j] == os[j + 1]);
                    }
                    assert(false);
                }
            }
        }
    }
}

/// When no attempt delivers and there are outcomes for all of them, the
/// loop uses up every allowed attempt.
pub proof fn lemma_run_exhausts(s: SendSession, os: Seq<AttemptOutcome>)
    requires
        s.wf(),
        !s.success,
        os.len() >= s.retries - s.attempts,
        forall|i: int| 0 <= i < os.len() ==> !(#[trigger] os[i] is Delivered),
    ensures
        s.run(os).attempts == s.retries,
        !s.run(os).success,
    decreases os.len(),
{
    if os.len() > 0 && s.may_attempt() {
        let rest = os.drop_first();
        assert forall|i: int| 0 <= i < rest.len() implies !(#[trigger] rest[i] is Delivered) by {
            assert(rest[i] == os[i + 1]);
        }
        lemma_run_exhausts(s.after(os[0]), rest);
    }
}


/// `h` has its first `:` at position `p`.
pub open spec fn first_colon_at(h: Seq<char>, p: int) -> bool {
    0 <= p < h.len() && h[p] == ':' && forall|q: int| 0 <= q < p ==> h[q] != ':'
}

/// How an extra `KEY:VALUE` header is split: at the first `:`, both sides
/// trimmed; `None` when there is no `:`.
pub open spec fn header_split(h: Seq<char>, res: Option<(String, String)>) -> bool {
    match res {
        None => !h.contains(':'),
        Some((k, v)) => exists|p: int|
            first_colon_at(h, p) && k@ == trimmed_of(h.subrange(0, p)) && v@ == trimmed_of(h.subrange(p + 1, h.len() as int)),
    }
}

/// Splits an extra header given as `KEY:VALUE`.
pub fn parse_extra_header(h: &str) -> (res: Option<(String, String)>)
    ensures
        header_split(h@, res),
{
    let v = crate::text::chars_of(h);
    let n = v.len();
    let mut i: usize = 0;
    while i < n
        invariant
            n == h@.len(),
            v@ == h@,
            i <= n,
            forall|q: int| 0 <= q < i ==> h@[q] != ':',
        decreases n - i,
    {
        if v[i] == ':' {
            let key = trim(h.substring_char(0, i));
            let value = trim(h.substring_char(i + 1, n));
            assert(first_colon_at(h@, i as int));
            return Some((key, value));
        }
        i = i + 1;
    }
    None
}

/// The key and value of an extra header, split at the first `:` and
/// trimmed; `None` when there is no `:`.
pub open spec fn extra_header_of(h: Seq<char>) -> Option<(Seq<char>, Seq<char>)> {
    if exists|p: int| first_colon_at(h, p) {
        let p = choose|p: int| first_colon_at(h, p);
        Some((trimmed_of(h.subrange(0, p)), trimmed_of(h.subrange(p + 1, h.len() as int))))
    } else {
        None
    }
}

/// `header_split` describes exactly the split `extra_header_of` gives.
pub proof fn lemma_header_split_is_extra_header_of(h: Seq<char>, res: Option<(String, String)>)
    requires
        header_split(h, res),
    ensures
        match res {
            Some((k, v)) => extra_header_of(h) == Some((k@, v@)),
            None => extra_header_of(h) is None,
        },
{
    match res {
        Some((k, v)) => {
            let p = choose|p: int|
                first_colon_at(h, p) && k@ == trimmed_of(h.subrange(0, p)) && v@ == trimmed_of(
                    h.subrange(p + 1, h.len() as int),
                );
            let q = choose|q: int| first_colon_at(h, q);
            assert(first_colon_at(h, q));
            if q < p {
                assert(h[q] != ':');
            } else if p < q {
                assert(h[p] != ':');
            }
        },
        None => {
            if exists|p: int| first_colon_at(h, p) {
                let p = choose|p: int| first_colon_at(h, p);
                assert(h.contains(':')) by {
                    assert(h[p] == ':');
                }
            }
        },
    }
}

/// A header name lettre accepts (`HeaderName::new_from_ascii`): 1 to 76
/// ASCII characters, none of them `:` or a space.
pub open spec fn valid_header_name(k: Seq<char>) -> bool {
    &&& 0 < k.len() <= 76
    &&& is_ascii_text(k)
    &&& !k.contains(':')
    &&& !k.contains(' ')
}

/// A header the message builder sets itself and an extra header must not
/// replace: the addresses that make up the envelope, and the transfer
/// encoding of the body.
pub open spec fn reserved_header(k: Seq<char>) -> bool {
    let l = ascii_lower(k);
    ||| l == "from"@
    ||| l == "sender"@
    ||| l == "to"@
    ||| l == "cc"@
    ||| l == "bcc"@
    ||| l == "content-transfer-encoding"@
}

/// An extra header name that is added to the message.
pub open spec fn header_accepted(k: Seq<char>) -> bool {
    valid_header_name(k) && !reserved_header(k)
}

/// The extra headers added to the message, in the order given: each
/// well-formed `KEY:VALUE` whose key is accepted.
pub open spec fn extra_headers(hs: Seq<String>) -> Seq<(Seq<char>, Seq<char>)>
    decreases hs.len(),
{
    if hs.len() == 0 {
        Seq::empty()
    } else {
        let rest = extra_headers(hs.drop_last());
        match extra_header_of(hs.last()@) {
            Some((k, v)) => if header_accepted(k) {
                rest.push((k, v))
            } else {
                rest
            },
            None => rest,
        }
    }
}

fn is_valid_header_name(k: &str) -> (res: bool)
    ensures
        res == valid_header_name(k@),
{
    let v = chars_of(k);
    let n = v.len();
    if n == 0 || n > 76 {
        return false;
    }
    let mut i: usize = 0;
    while i < n
        invariant
            n == k@.len(),
            v@ == k@,
            i <= n,
            forall|q: int| 0 <= q < i ==> (#[trigger] k@[q] as u32) < 128 && k@[q] != ':' && k@[q] != ' ',
        decreases n - i,
    {
        let c = v[i];
        if (c as u32) >= 128 || c == ':' || c == ' ' {
            assert(k@[i as int] == c);
            if c == ':' {
                assert(k@.contains(':'));
            }
            if c == ' ' {
                assert(k@.contains(' '));
            }
            return false;
        }
        i = i + 1;
    }
    assert(!k@.contains(':')) by {
        if k@.contains(':') {
            let q = choose|q: int| 0 <= q < k@.len() && k@[q] == ':';
            assert(k@[q] != ':');
        }
    }
    assert(!k@.contains(' ')) by {
        if k@.contains(' ') {
            let q = choose|q: int| 0 <= q < k@.len() && k@[q] == ' ';
            assert(k@[q] != ' ');
        }
    }
    true
}

/// Whether an extra header with this key is added to the message.
pub fn header_key_accepted(k: &str) -> (res: bool)
    ensures
        res == header_accepted(k@),
{
    if !is_valid_header_name(k) {
        return false;
    }
    let lower = to_lowercase(k);
    let l = lower.as_str();
    !(str_eq(l, "from") || str_eq(l, "sender") || str_eq(l, "to") || str_eq(l, "cc") || str_eq(l, "bcc")
        || str_eq(l, "content-transfer-encoding"))
}

/// The note shown for an extra header: a debug line with the trimmed key
/// and value when it is added, a warning when its key cannot be set, or a
/// warning that the header is malformed and ignored.
pub open spec fn header_note_spec(h: Seq<char>, split: Option<(String, String)>) -> NoteView {
    match split {
        Some((k, v)) => if header_accepted(k@) {
            (NoteKind::Debug, Seq::empty(), "Extra header: '"@ + k@ + "' = '"@ + v@ + "'"@)
        } else {
            (NoteKind::Warn, Seq::empty(), "Ignoring header that cannot be set: '"@ + k@ + "'"@)
        },
        None => (NoteKind::Warn, Seq::empty(), "Ignoring malformed header: '"@ + h + "'"@),
    }
}

/// Checks an extra header and says what to tell the user about it.
pub fn header_note(h: &str) -> (res: Note)
    ensures
        exists|split: Option<(String, String)>| header_split(h@, split) && res@ == header_note_spec(h@, split),
{
    proof {
        reveal_strlit("");
        assert(""@ =~= Seq::<char>::empty());
    }
    let split = parse_extra_header(h);
    match &split {
        Some((k, v)) => {
            if header_key_accepted(k.as_str()) {
                let mut t = String::from_str("Extra header: '");
                t.append(k.as_str());
                t.append("' = '");
                t.append(v.as_str());
                t.append("'");
                let n = note(NoteKind::Debug, "", t);
                assert(n@ == header_note_spec(h@, split));
                n
            } else {
                let mut t = String::from_str("Ignoring header that cannot be set: '");
                t.append(k.as_str());
                t.append("'");
                let n = note(NoteKind::Warn, "", t);
                assert(n@ == header_note_spec(h@, split));
                n
            }
        },
        None => {
            let mut t = String::from_str("Ignoring malformed header: '");
            t.append(h);
            t.append("'");
            let n = note(NoteKind::Warn, "", t);
            assert(n@ == header_note_spec(h@, split));
            n
        },
    }
}

pub open spec fn auth_summary_text(has_creds: bool, mech: AuthMech) -> Seq<char> {
    if has_creds {
        "Yes ("@ + auth_label(mech) + ")"@
    } else {
        "No (open relay)"@
    }
}

pub open spec fn from_full_text(p: SendParams) -> Seq<char> {
    p.from_name@ + " <"@ + p.from@ + ">"@
}

impl SendParams {
    /// The "Auth" row of the summary: the mechanism when credentials are set.
    pub fn auth_summary(&self) -> (res: String)
        ensures
            res@ == auth_summary_text(self.creds is Some, self.mech),
    {
        if self.creds.is_some() {
            let mut t = String::from_str("Yes (");
            t.append(self.mech.label());
            t.append(")");
            t
        } else {
            String::from_str("No (open relay)")
        }
    }

    /// The sender as `NAME <ADDRESS>`.
    pub fn from_full(&self) -> (res: String)
        ensures
            res@ == from_full_text(*self),
    {
        let mut t = self.from_name.clone();
        t.append(" <");
        t.append(self.from.as_str());
        t.append(">");
        t
    }
}

/// What one attempt does to the session: it counts; a failed attempt (a
/// transport error or a refused delivery) leaves its error text as the last
/// error and does not deliver; a delivery keeps the server's reply and the
/// earlier error. The server, port, TLS mode, credentials flag and the
/// number of attempts allowed never change.
pub proof fn lemma_attempt_effect(s: SendSession, o: AttemptOutcome)
    requires
        s.wf(),
        s.may_attempt(),
    ensures
        s.after(o).attempts == s.attempts + 1,
        s.after(o).server == s.server,
        s.after(o).port == s.port,
        s.after(o).tls == s.tls,
        s.after(o).has_auth == s.has_auth,
        s.after(o).retries == s.retries,
        match o {
            AttemptOutcome::TransportError(e) => !s.after(o).success && s.after(o).last_err == Some(e)
                && s.after(o).server_response == s.server_response,
            AttemptOutcome::SendError { error, .. } => !s.after(o).success && s.after(o).last_err == Some(error)
                && s.after(o).server_response == s.server_response,
            AttemptOutcome::Delivered { reply, .. } => s.after(o).success && s.after(o).server_response == reply
                && s.after(o).last_err == s.last_err,
        },
{
}

/// The waits between attempts: two seconds after a transport error, and
/// after a refused delivery a wait that doubles from one attempt to the
/// next, starting at one second; no wait after a delivery or the last
/// attempt.
pub proof fn lemma_waits(s: SendSession, o: AttemptOutcome, ms: u128, error: String)
    requires
        s.wf(),
        s.may_attempt(),
    ensures
        s.attempts + 1 >= s.retries ==> s.wait_after(o) is None,
        o is Delivered ==> s.wait_after(o) is None,
        (o is TransportError && s.attempts + 1 < s.retries) ==> s.wait_after(o) == Some(2u64),
        (s.attempts == 0 && 1 < s.retries) ==> s.wait_after(AttemptOutcome::SendError { ms, error }) == Some(1u64),
        (s.attempts + 2 < s.retries && s.attempts < 63) ==> s.after(AttemptOutcome::SendError { ms, error }).wait_after(
            AttemptOutcome::SendError { ms, error },
        )->0 == 2 * s.wait_after(AttemptOutcome::SendError { ms, error })->0,
{
    let k = (s.attempts + 1) as nat;
    lemma2_to64();
    if s.attempts + 2 < s.retries && s.attempts < 63 {
        lemma_pow2_unfold(k);
        lemma_pow2_strictly_increases((k - 1) as nat, 63);
        lemma_pow2_strictly_increases(k, 64);
    }
}

/// The first line shown after an attempt: the transport error, the refused
/// delivery with its time and error, or the delivery with its reply code.
pub proof fn lemma_first_note(s: SendSession, o: AttemptOutcome)
    ensures
        s.notes_after(o).len() >= 1,
        match o {
            AttemptOutcome::TransportError(e) => s.notes_after(o)[0] == (NoteKind::Fail, Seq::<char>::empty(),
                "Transport error: "@ + e@),
            AttemptOutcome::SendError { ms, error } => s.notes_after(o)[0] == (NoteKind::Fail, Seq::<char>::empty(),
                "Send failed ("@ + decimal(ms as nat) + " ms): "@ + error@),
            AttemptOutcome::Delivered { code, ms, .. } => s.notes_after(o)[0] == (NoteKind::Success,
                Seq::<char>::empty(), "Delivered  SMTP "@ + code@ + "  in "@ + decimal(ms as nat) + " ms"@),
        },
{
}

} // verus!
