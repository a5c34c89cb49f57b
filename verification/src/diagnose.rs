//! Turning a transport or delivery error message into advice for the user.

use vstd::prelude::*;
use crate::smtp::TlsMode;
use crate::text::{chars_of, decimal, has_infix, push_decimal, push_line, seq_contains, views};

verus! {

/// The error text points at a TLS handshake problem.
pub open spec fn tls_trigger(e: Seq<char>) -> bool {
    ||| has_infix(e, "improper command pipelining"@)
    ||| has_infix(e, "The token supplied to the function is invalid"@)
    ||| has_infix(e, "os error -2146893048"@)
    ||| has_infix(e, "wrong version number"@)
    ||| has_infix(e, "tls handshake"@)
    ||| has_infix(e, "record layer failure"@)
}

/// The error text points at an authentication problem.
pub open spec fn sasl_trigger(e: Seq<char>) -> bool {
    ||| has_infix(e, "SASL"@)
    ||| has_infix(e, "no SASL authentication mechanisms"@)
    ||| has_infix(e, "Authentication"@)
    ||| has_infix(e, "535"@)
    ||| has_infix(e, "454"@)
    ||| has_infix(e, "503"@)
}

/// The error text points at a refused connection.
pub open spec fn refused_trigger(e: Seq<char>) -> bool {
    has_infix(e, "Connection refused"@)
}

/// The error text points at a time-out.
pub open spec fn timeout_trigger(e: Seq<char>) -> bool {
    has_infix(e, "timed out"@) || has_infix(e, "Connection error: timed out"@)
}

/// The error text points at certificate verification.
pub open spec fn cert_trigger(e: Seq<char>) -> bool {
    ||| has_infix(e, "certificate"@)
    ||| has_infix(e, "Certificate"@)
    ||| has_infix(e, "verify failed"@)
}

pub open spec fn tls_hints(e: Seq<char>, port: u16, tls: TlsMode) -> Seq<Seq<char>> {
    if !tls_trigger(e) {
        seq![]
    } else if tls == TlsMode::Tls && (port == 25 || port == 587) {
        seq![
            "Server rejected implicit TLS on port "@ + decimal(port as nat) + ". Port "@
                + decimal(port as nat) + " does not wrap connections in SSL from the start."@,
            "Fix: use --tls starttls (for port 587) or --tls none (for port 25 relay)."@,
        ]
    } else if tls == TlsMode::Plain && port == 465 {
        seq!["Port 465 requires implicit TLS. Fix: add --tls tls"@]
    } else {
        seq![
            "TLS negotiation failed — the server and client disagree on the TLS mode."@,
            "Try: --tls none   (port "@ + decimal(port as nat) + ")"@,
            "     --tls starttls  (port 587)"@,
            "     --tls tls        (port 465)"@,
        ]
    }
}

pub open spec fn sasl_hints(e: Seq<char>, tls: TlsMode, has_auth: bool) -> Seq<Seq<char>> {
    if !sasl_trigger(e) {
        seq![]
    } else {
        seq!["SMTP authentication failed or is not available on this server/port."@]
            + (if has_auth {
                seq![
                    "If this is an internal relay server, try removing -u/-P (no auth needed)."@,
                    "Check that Dovecot/auth backend is running on the mail server."@,
                ]
            } else {
                seq![]
            })
            + (if tls == TlsMode::Plain {
                seq!["Many servers refuse PLAIN/LOGIN auth without TLS. Try --tls starttls."@]
            } else {
                seq![]
            })
    }
}

pub open spec fn refused_hints(e: Seq<char>, server: Seq<char>, port: u16) -> Seq<Seq<char>> {
    if !refused_trigger(e) {
        seq![]
    } else {
        seq![
            "Port "@ + decimal(port as nat) + " is not accepting connections on "@ + server + "."@,
            "Check firewall rules and that the SMTP service is listening."@,
            "Typical ports: 25 (relay), 465 (SMTPS), 587 (submission)"@,
        ]
    }
}

pub open spec fn timeout_hints(e: Seq<char>, server: Seq<char>, port: u16) -> Seq<Seq<char>> {
    if !timeout_trigger(e) {
        seq![]
    } else {
        seq![
            "Connection to "@ + server + ":"@ + decimal(port as nat) + " timed out."@,
            "Check network routing, firewall, and that the server is up."@,
            "Increase timeout with --timeout <seconds> if on a slow link."@,
        ]
    }
}

pub open spec fn cert_hints(e: Seq<char>) -> Seq<Seq<char>> {
    if !cert_trigger(e) {
        seq![]
    } else {
        seq![
            "TLS certificate verification failed."@,
            "The server may use a self-signed cert. email-tester accepts self-signed certs by default."@,
            "Ensure the server name matches what's in the cert, or use an IP address."@,
        ]
    }
}

/// All advice for an error text, group by group in a fixed order:
/// TLS, authentication, refused connection, time-out, certificate.
pub open spec fn diagnosis(e: Seq<char>, server: Seq<char>, port: u16, tls: TlsMode, has_auth: bool) -> Seq<Seq<char>> {
    tls_hints(e, port, tls) + sasl_hints(e, tls, has_auth) + refused_hints(e, server, port)
        + timeout_hints(e, server, port) + cert_hints(e)
}

fn has(e: &Vec<char>, needle: &str) -> (res: bool)
    ensures
        res == has_infix(e@, needle@),
{
    let n = chars_of(needle);
    seq_contains(e, &n)
}

fn text(s: &str) -> (res: String)
    ensures
        res@ == s@,
{
    String::from_str(s)
}

fn add_tls_hints(out: &mut Vec<String>, e: &Vec<char>, port: u16, tls: TlsMode)
    ensures
        views(final(out)@) == views(old(out)@) + tls_hints(e@, port, tls),
{
    let ghost before = views(out@);
    let hit = has(e, "improper command pipelining") || has(e, "The token supplied to the function is invalid")
        || has(e, "os error -2146893048") || has(e, "wrong version number") || has(e, "tls handshake")
        || has(e, "record layer failure");
    if !hit {
        assert(views(out@) =~= before + tls_hints(e@, port, tls));
        return;
    }
    if tls == TlsMode::Tls && (port == 25 || port == 587) {
        let mut a = text("Server rejected implicit TLS on port ");
        push_decimal(&mut a, port as u128);
        a.append(". Port ");
        push_decimal(&mut a, port as u128);
        a.append(" does not wrap connections in SSL from the start.");
        push_line(out, a);
        push_line(out, text("Fix: use --tls starttls (for port 587) or --tls none (for port 25 relay)."));
    } else if tls == TlsMode::Plain && port == 465 {
        push_line(out, text("Port 465 requires implicit TLS. Fix: add --tls tls"));
    } else {
        push_line(out, text("TLS negotiation failed — the server and client disagree on the TLS mode."));
        let mut b = text("Try: --tls none   (port ");
        push_decimal(&mut b, port as u128);
        b.append(")");
        push_line(out, b);
        push_line(out, text("     --tls starttls  (port 587)"));
        push_line(out, text("     --tls tls        (port 465)"));
    }
    assert(views(out@) =~= before + tls_hints(e@, port, tls));
}

fn add_sasl_hints(out: &mut Vec<String>, e: &Vec<char>, tls: TlsMode, has_auth: bool)
    ensures
        views(final(out)@) == views(old(out)@) + sasl_hints(e@, tls, has_auth),
{
    let ghost before = views(out@);
    let hit = has(e, "SASL") || has(e, "no SASL authentication mechanisms") || has(e, "Authentication")
        || has(e, "535") || has(e, "454") || has(e, "503");
    if !hit {
        assert(views(out@) =~= before + sasl_hints(e@, tls, has_auth));
        return;
    }
    push_line(out, text("SMTP authentication failed or is not available on this server/port."));
    if has_auth {
        push_line(out, text("If this is an internal relay server, try removing -u/-P (no auth needed)."));
        push_line(out, text("Check that Dovecot/auth backend is running on the mail server."));
    }
    if tls == TlsMode::Plain {
        push_line(out, text("Many servers refuse PLAIN/LOGIN auth without TLS. Try --tls starttls."));
    }
    assert(views(out@) =~= before + sasl_hints(e@, tls, has_auth));
}

fn add_connection_hints(out: &mut Vec<String>, e: &Vec<char>, server: &str, port: u16)
    ensures
        views(final(out)@) == views(old(out)@) + refused_hints(e@, server@, port) + timeout_hints(e@, server@, port),
{
    let ghost before = views(out@);
    if has(e, "Connection refused") {
        let mut a = text("Port ");
        push_decimal(&mut a, port as u128);
        a.append(" is not accepting connections on ");
        a.append(server);
        a.append(".");
        push_line(out, a);
        push_line(out, text("Check firewall rules and that the SMTP service is listening."));
        push_line(out, text("Typical ports: 25 (relay), 465 (SMTPS), 587 (submission)"));
    }
    let ghost middle = views(out@);
    assert(middle =~= before + refused_hints(e@, server@, port));
    if has(e, "timed out") || has(e, "Connection error: timed out") {
        let mut b = text("Connection to ");
        b.append(server);
        b.append(":");
        push_decimal(&mut b, port as u128);
        b.append(" timed out.");
        push_line(out, b);
        push_line(out, text("Check network routing, firewall, and that the server is up."));
        push_line(out, text("Increase timeout with --timeout <seconds> if on a slow link."));
    }
    assert(views(out@) =~= middle + timeout_hints(e@, server@, port));
}

fn add_cert_hints(out: &mut Vec<String>, e: &Vec<char>)
    ensures
        views(final(out)@) == views(old(out)@) + cert_hints(e@),
{
    let ghost before = views(out@);
    if has(e, "certificate") || has(e, "Certificate") || has(e, "verify failed") {
        push_line(out, text("TLS certificate verification failed."));
        push_line(out, text("The server may use a self-signed cert. email-tester accepts self-signed certs by default."));
        push_line(out, text("Ensure the server name matches what's in the cert, or use an IP address."));
    }
    assert(views(out@) =~= before + cert_hints(e@));
}

/// Advice for the user on an SMTP error message: what it suggests about the
/// TLS mode, authentication, reachability, time-outs and certificates.
pub fn diagnose_error(err: &str, server: &str, port: u16, tls: &TlsMode, has_auth: bool) -> (res: Vec<String>)
    ensures
        views(res@) == diagnosis(err@, server@, port, *tls, has_auth),
{
    let e = chars_of(err);
    let mut hints: Vec<String> = Vec::new();
    assert(views(hints@) =~= Seq::<Seq<char>>::empty());
    add_tls_hints(&mut hints, &e, port, *tls);
    add_sasl_hints(&mut hints, &e, *tls, has_auth);
    add_connection_hints(&mut hints, &e, server, port);
    add_cert_hints(&mut hints, &e);
    assert(views(hints@) =~= diagnosis(err@, server@, port, *tls, has_auth));
    hints
}


/// An error text that mentions none of the known symptoms gets no advice.
pub proof fn lemma_no_symptom_no_advice(e: Seq<char>, server: Seq<char>, port: u16, tls: TlsMode, has_auth: bool)
    requires
        !tls_trigger(e),
        !sasl_trigger(e),
        !refused_trigger(e),
        !timeout_trigger(e),
        !cert_trigger(e),
    ensures
        diagnosis(e, server, port, tls, has_auth).len() == 0,
{
}

/// When the error points at authentication, having credentials adds exactly
/// two lines of advice.
pub proof fn lemma_auth_adds_two_hints(e: Seq<char>, server: Seq<char>, port: u16, tls: TlsMode)
    requires
        sasl_trigger(e),
    ensures
        diagnosis(e, server, port, tls, true).len() == diagnosis(e, server, port, tls, false).len() + 2,
{
}

/// The error text names a TLS handshake failure: one of the symptoms lettre
/// and the TLS libraries report when the two sides disagree on TLS.
pub open spec fn names_tls_failure(e: Seq<char>) -> bool {
    ||| has_infix(e, "improper command pipelining"@)
    ||| has_infix(e, "The token supplied to the function is invalid"@)
    ||| has_infix(e, "os error -2146893048"@)
    ||| has_infix(e, "wrong version number"@)
    ||| has_infix(e, "tls handshake"@)
    ||| has_infix(e, "record layer failure"@)
}

/// Implicit TLS on port 25 or 587, where servers expect a plain start:
/// whatever else the error says, the advice opens with the two lines that
/// name the port and point to STARTTLS or no TLS, and both ports get
/// advice of the same length.
pub proof fn lemma_implicit_tls_on_plain_port(e: Seq<char>, server: Seq<char>, port: u16, has_auth: bool)
    requires
        names_tls_failure(e),
        port == 25 || port == 587,
    ensures
        diagnosis(e, server, port, TlsMode::Tls, has_auth).len() >= 2,
        diagnosis(e, server, port, TlsMode::Tls, has_auth)[0] == "Server rejected implicit TLS on port "@ + decimal(
            port as nat,
        ) + ". Port "@ + decimal(port as nat) + " does not wrap connections in SSL from the start."@,
        diagnosis(e, server, port, TlsMode::Tls, has_auth)[1]
            == "Fix: use --tls starttls (for port 587) or --tls none (for port 25 relay)."@,
        diagnosis(e, server, 25, TlsMode::Tls, has_auth).len() == diagnosis(e, server, 587, TlsMode::Tls, has_auth).len(),
{
}

/// No TLS on port 465, where servers expect TLS from the first byte: the
/// advice opens with the one line that asks for `--tls tls`.
pub proof fn lemma_no_tls_on_port_465(e: Seq<char>, server: Seq<char>, has_auth: bool)
    requires
        names_tls_failure(e),
    ensures
        diagnosis(e, server, 465, TlsMode::Plain, has_auth).len() >= 1,
        diagnosis(e, server, 465, TlsMode::Plain, has_auth)[0] == "Port 465 requires implicit TLS. Fix: add --tls tls"@,
{
}

/// Any other TLS failure: the advice opens with the four general lines,
/// the first alternative naming the port in use.
pub proof fn lemma_other_tls_failure(e: Seq<char>, server: Seq<char>, port: u16, tls: TlsMode, has_auth: bool)
    requires
        names_tls_failure(e),
        !(tls == TlsMode::Tls && (port == 25 || port == 587)),
        !(tls == TlsMode::Plain && port == 465),
    ensures
        diagnosis(e, server, port, tls, has_auth).len() >= 4,
        diagnosis(e, server, port, tls, has_auth)[0]
            == "TLS negotiation failed — the server and client disagree on the TLS mode."@,
        diagnosis(e, server, port, tls, has_auth)[1] == "Try: --tls none   (port "@ + decimal(port as nat) + ")"@,
        diagnosis(e, server, port, tls, has_auth)[2] == "     --tls starttls  (port 587)"@,
        diagnosis(e, server, port, tls, has_auth)[3] == "     --tls tls        (port 465)"@,
{
}

/// A refused connection that is not a TLS or authentication problem: the
/// advice opens with the line naming the port and the server.
pub proof fn lemma_refused_connection(e: Seq<char>, server: Seq<char>, port: u16, tls: TlsMode, has_auth: bool)
    requires
        has_infix(e, "Connection refused"@),
        !names_tls_failure(e),
        !sasl_trigger(e),
    ensures
        diagnosis(e, server, port, tls, has_auth).len() >= 3,
        diagnosis(e, server, port, tls, has_auth)[0] == "Port "@ + decimal(port as nat)
            + " is not accepting connections on "@ + server + "."@,
{
}

/// An authentication failure that is not a TLS problem: the advice opens
/// with the line saying so, followed by the two lines for credentials when
/// there are credentials.
pub proof fn lemma_auth_failure(e: Seq<char>, server: Seq<char>, port: u16, tls: TlsMode, has_auth: bool)
    requires
        has_infix(e, "535"@) || has_infix(e, "Authentication"@) || has_infix(e, "SASL"@),
        !names_tls_failure(e),
    ensures
        diagnosis(e, server, port, tls, has_auth).len() >= 1,
        diagnosis(e, server, port, tls, has_auth)[0]
            == "SMTP authentication failed or is not available on this server/port."@,
        has_auth ==> diagnosis(e, server, port, tls, has_auth)[1]
            == "If this is an internal relay server, try removing -u/-P (no auth needed)."@,
{
}

} // verus!
