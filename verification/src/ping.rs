//! Statistics over a series of connection probes.

use vstd::prelude::*;
use crate::logger::{note_views, Note, TestResult};
use crate::probe::{probe_notes, probe_notes_spec, Probe, ProbeKind};
use crate::smtp::{tls_description, TlsMode};
use crate::text::{decimal, push_decimal};

verus! {

/// Summary of a ping run.
#[derive(Debug, Clone, Copy, PartialEq, Eq, Structural)]
pub struct PingStats {
    pub transmitted: u32,
    pub received: u32,
    pub lost: u32,
    pub min_ms: u128,
    pub avg_ms: u128,
    pub max_ms: u128,
}

/// Number of probes that got an answer.
pub open spec fn received_in(r: Seq<(bool, u128)>) -> nat
    decreases r.len(),
{
    if r.len() == 0 {
        0
    } else {
        received_in(r.drop_last()) + if r.last().0 { 1nat } else { 0nat }
    }
}

/// Sum of all round-trip times.
pub open spec fn total_ms(r: Seq<(bool, u128)>) -> nat
    decreases r.len(),
{
    if r.len() == 0 {
        0
    } else {
        total_ms(r.drop_last()) + r.last().1 as nat
    }
}

/// Smallest round-trip time (0 for no probes).
pub open spec fn min_ms(r: Seq<(bool, u128)>) -> nat
    decreases r.len(),
{
    if r.len() == 0 {
        0
    } else if r.len() == 1 {
        r[0].1 as nat
    } else {
        let m = min_ms(r.drop_last());
        if r.last().1 < m { r.last().1 as nat } else { m }
    }
}

/// Largest round-trip time (0 for no probes).
pub open spec fn max_ms(r: Seq<(bool, u128)>) -> nat
    decreases r.len(),
{
    if r.len() == 0 {
        0
    } else if r.len() == 1 {
        r[0].1 as nat
    } else {
        let m = max_ms(r.drop_last());
        if r.last().1 > m { r.last().1 as nat } else { m }
    }
}

/// Mean round-trip time, rounded down (0 for no probes).
pub open spec fn avg_ms(r: Seq<(bool, u128)>) -> nat {
    if r.len() == 0 {
        0
    } else {
        total_ms(r) / r.len()
    }
}

proof fn lemma_prefix_bounds(r: Seq<(bool, u128)>, i: int)
    requires
        0 <= i <= r.len(),
    ensures
        total_ms(r.subrange(0, i)) <= total_ms(r),
        received_in(r.subrange(0, i)) <= i,
    decreases r.len(),
{
    if i == r.len() {
        assert(r.subrange(0, i) =~= r);
        lemma_received_le_len(r);
    } else {
        assert(r.drop_last().subrange(0, i) =~= r.subrange(0, i));
        lemma_prefix_bounds(r.drop_last(), i);
    }
}

proof fn lemma_received_le_len(r: Seq<(bool, u128)>)
    ensures
        received_in(r) <= r.len(),
    decreases r.len(),
{
    if r.len() > 0 {
        lemma_received_le_len(r.drop_last());
    }
}

/// Counts, extremes and mean of a ping run of `count` probes.
pub fn ping_stats(count: u32, results: &Vec<(bool, u128)>) -> (res: PingStats)
    requires
        results@.len() == count,
        total_ms(results@) <= u128::MAX,
    ensures
        res.transmitted == count,
        res.received == received_in(results@),
        res.lost == count - received_in(results@),
        res.min_ms == min_ms(results@),
        res.max_ms == max_ms(results@),
        res.avg_ms == avg_ms(results@),
{
    let n = results.len();
    let mut ok: u32 = 0;
    let mut sum: u128 = 0;
    let mut lo: u128 = 0;
    let mut hi: u128 = 0;
    let mut i: usize = 0;
    while i < n
        invariant
            n == results@.len(),
            n == count,
            i <= n,
            total_ms(results@) <= u128::MAX,
            ok == received_in(results@.subrange(0, i as int)),
            sum == total_ms(results@.subrange(0, i as int)),
            lo == min_ms(results@.subrange(0, i as int)),
            hi == max_ms(results@.subrange(0, i as int)),
        decreases n - i,
    {
        let (good, ms) = results[i];
        proof {
            let pre = results@.subrange(0, i + 1);
            assert(pre.drop_last() =~= results@.subrange(0, i as int));
            lemma_prefix_bounds(results@, i + 1);
        }
        if good {
            ok = ok + 1;
        }
        sum = sum + ms;
        if i == 0 {
            lo = ms;
            hi = ms;
        } else {
            if ms < lo {
                lo = ms;
            }
            if ms > hi {
                hi = ms;
            }
        }
        i = i + 1;
    }
    assert(results@.subrange(0, n as int) =~= results@);
    proof {
        lemma_received_le_len(results@);
    }
    let avg = if n > 0 { sum / (n as u128) } else { 0 };
    PingStats { transmitted: count, received: ok, lost: count - ok, min_ms: lo, avg_ms: avg, max_ms: hi }
}

proof fn lemma_extremes(r: Seq<(bool, u128)>)
    requires
        r.len() > 0,
    ensures
        min_ms(r) * r.len() <= total_ms(r),
        total_ms(r) <= max_ms(r) * r.len(),
        min_ms(r) <= max_ms(r),
    decreases r.len(),
{
    if r.len() > 1 {
        let p = r.drop_last();
        lemma_extremes(p);
        let x = r.last().1 as nat;
        let n = p.len();
        let lo = min_ms(r);
        let hi = max_ms(r);
        assert(lo <= min_ms(p) && lo <= x);
        assert(hi >= max_ms(p) && hi >= x);
        assert(lo * n <= min_ms(p) * n) by (nonlinear_arith)
            requires
                lo <= min_ms(p),
        ;
        assert(max_ms(p) * n <= hi * n) by (nonlinear_arith)
            requires
                max_ms(p) <= hi,
        ;
        assert(lo * (n + 1) == lo * n + lo) by (nonlinear_arith);
        assert(hi * (n + 1) == hi * n + hi) by (nonlinear_arith);
    } else {
        assert(r.drop_last().len() == 0);
        assert(total_ms(r.drop_last()) == 0);
        assert(r.last() == r[0]);
        assert(total_ms(r) == r[0].1 as nat);
        assert(max_ms(r) * 1 == max_ms(r)) by (nonlinear_arith);
        assert(min_ms(r) * 1 == min_ms(r)) by (nonlinear_arith);
    }
}

/// In every non-empty ping run the mean lies between the extremes, and
/// every probe is counted as received or lost.
pub proof fn lemma_stats_consistent(r: Seq<(bool, u128)>, s: PingStats)
    requires
        r.len() > 0,
        s.transmitted == r.len(),
        s.received == received_in(r),
        s.lost == s.transmitted - received_in(r),
        s.min_ms == min_ms(r),
        s.max_ms == max_ms(r),
        s.avg_ms == avg_ms(r),
    ensures
        s.min_ms <= s.avg_ms <= s.max_ms,
        s.received + s.lost == s.transmitted,
{
    lemma_extremes(r);
    lemma_received_le_len(r);
    let n = r.len();
    let t = total_ms(r);
    let lo = min_ms(r);
    let hi = max_ms(r);
    assert(lo <= t / n) by (nonlinear_arith)
        requires
            lo * n <= t,
            n > 0,
    ;
    assert(t / n <= hi) by (nonlinear_arith)
        requires
            t <= hi * n,
            n > 0,
    ;
}

pub open spec fn ping_message(s: PingStats) -> Seq<char> {
    decimal(s.received as nat) + "/"@ + decimal(s.transmitted as nat) + " pings successful"@
}

pub open spec fn ping_error(s: PingStats) -> Option<Seq<char>> {
    if s.lost > 0 {
        Some(decimal(s.lost as nat) + " probe(s) failed"@)
    } else {
        None
    }
}

/// The JSON record of a ping run.
pub fn ping_result(timestamp: String, server: &str, port: u16, tls: TlsMode, s: PingStats) -> (res: TestResult)
    ensures
        res.timestamp == timestamp,
        res.action@ == "ping"@,
        res.server@ == server@,
        res.port == port,
        res.tls_mode@ == tls_description(tls),
        res.success == (s.received == s.transmitted),
        res.duration_ms == s.avg_ms,
        res.message@ == ping_message(s),
        res.server_response is None,
        match ping_error(s) {
            Some(e) => res.error matches Some(x) && x@ == e,
            None => res.error is None,
        },
        res.hints@.len() == 0,
        res.recipients@.len() == 0,
{
    let mut message = String::new();
    push_decimal(&mut message, s.received as u128);
    message.append("/");
    push_decimal(&mut message, s.transmitted as u128);
    message.append(" pings successful");
    let error = if s.lost > 0 {
        let mut e = String::new();
        push_decimal(&mut e, s.lost as u128);
        e.append(" probe(s) failed");
        Some(e)
    } else {
        None
    };
    TestResult {
        timestamp,
        action: String::from_str("ping"),
        server: String::from_str(server),
        port,
        tls_mode: String::from_str(tls.describe()),
        success: s.received == s.transmitted,
        duration_ms: s.avg_ms,
        message,
        server_response: None,
        error,
        hints: Vec::new(),
        recipients: Vec::new(),
    }
}


/// A ping run in progress: the probes made so far.
#[derive(Debug, Clone)]
pub struct PingRun {
    pub server: String,
    pub port: u16,
    pub tls: TlsMode,
    /// How many probes to make.
    pub count: u32,
    /// Answered or not, and the round-trip time, of each probe made.
    pub results: Vec<(bool, u128)>,
}

/// What to show after a probe, and how long to pause before the next one.
#[derive(Debug, Clone)]
pub struct ProbeReport {
    pub notes: Vec<Note>,
    pub wait_ms: Option<u64>,
}

impl PingRun {
    pub open spec fn wf(self) -> bool {
        self.results@.len() <= self.count
    }

    /// A run of `count` probes against `server:port`.
    pub fn new(server: &str, port: u16, tls: TlsMode, count: u32) -> (res: PingRun)
        ensures
            res.wf(),
            res.server@ == server@,
            res.port == port,
            res.tls == tls,
            res.count == count,
            res.results@.len() == 0,
    {
        PingRun { server: String::from_str(server), port, tls, count, results: Vec::new() }
    }

    /// The sequence number of the next probe, while probes remain.
    pub fn next_probe(&self) -> (res: Option<u32>)
        requires
            self.wf(),
        ensures
            self.results@.len() < self.count ==> res == Some((self.results@.len() + 1) as u32),
            self.results@.len() >= self.count ==> res is None,
    {
        if self.results.len() < self.count as usize {
            Some(self.results.len() as u32 + 1)
        } else {
            None
        }
    }

    /// Records a probe that took `ms` milliseconds: it counts as received
    /// only when the server answered; half a second passes before the next.
    pub fn record(&mut self, ms: u128, p: Probe) -> (res: ProbeReport)
        requires
            old(self).wf(),
            old(self).results@.len() < old(self).count,
        ensures
            final(self).wf(),
            final(self).server == old(self).server,
            final(self).port == old(self).port,
            final(self).tls == old(self).tls,
            final(self).count == old(self).count,
            final(self).results@ == old(self).results@.push((p is Answered, ms)),
            note_views(res.notes@) == probe_notes_spec(
                ProbeKind::Ping { seq: (old(self).results@.len() + 1) as u32 },
                ms,
                p,
                old(self).server@,
                old(self).port,
                old(self).tls,
            ),
            res.wait_ms == (if old(self).results@.len() + 1 < old(self).count { Some(500u64) } else { None::<u64> }),
    {
        let seq = self.results.len() as u32 + 1;
        let notes = probe_notes(ProbeKind::Ping { seq }, ms, &p, self.server.as_str(), self.port, self.tls);
        let answered = match p {
            Probe::Answered => true,
            _ => false,
        };
        self.results.push((answered, ms));
        let wait_ms = if seq < self.count { Some(500u64) } else { None };
        ProbeReport { notes, wait_ms }
    }

    /// The statistics of a finished run.
    pub fn stats(&self) -> (res: PingStats)
        requires
            self.results@.len() == self.count,
            total_ms(self.results@) <= u128::MAX,
        ensures
            res.transmitted == self.count,
            res.received == received_in(self.results@),
            res.lost == self.count - received_in(self.results@),
            res.min_ms == min_ms(self.results@),
            res.max_ms == max_ms(self.results@),
            res.avg_ms == avg_ms(self.results@),
    {
        ping_stats(self.count, &self.results)
    }
}

} // verus!
