//! TLS modes, authentication mechanisms and the rules that relate them to ports.

use vstd::prelude::*;
use crate::text::{
    ascii_lower, ascii_upper, decimal, is_ascii_text, lowercase_of, push_decimal, str_eq, to_lowercase, to_uppercase,
    uppercase_of,
};

verus! {

/// How the connection to the SMTP server is secured.
#[derive(Debug, Clone, Copy, PartialEq, Eq, Structural)]
pub enum TlsMode {
    /// Plain SMTP, no encryption.
    Plain,
    /// Plain connect, then upgrade with STARTTLS.
    StartTls,
    /// TLS from the first byte (SMTPS).
    Tls,
}

/// SASL mechanism offered to the server when credentials are given.
#[derive(Debug, Clone, Copy, PartialEq, Eq, Structural)]
pub enum AuthMech {
    Plain,
    Login,
    CramMd5,
}

/// A TLS mode or authentication mechanism name that is not recognised.
/// Each variant holds the case-folded text that was looked up.
#[derive(Debug, Clone, PartialEq, Eq)]
pub enum ModeError {
    UnknownTlsMode(String),
    UnknownAuthMech(String),
}

/// The mode that a lower-cased name stands for, if any.
pub open spec fn tls_mode_named(lower: Seq<char>) -> Option<TlsMode> {
    if lower == "none"@ || lower == "plain"@ || lower == "no"@ || lower == "off"@ {
        Some(TlsMode::Plain)
    } else if lower == "starttls"@ || lower == "start"@ || lower == "opportunistic"@ {
        Some(TlsMode::StartTls)
    } else if lower == "tls"@ || lower == "ssl"@ || lower == "smtps"@ || lower == "implicit"@ {
        Some(TlsMode::Tls)
    } else {
        None
    }
}

/// The mechanism that an upper-cased name stands for, if any.
pub open spec fn auth_mech_named(upper: Seq<char>) -> Option<AuthMech> {
    if upper == "PLAIN"@ {
        Some(AuthMech::Plain)
    } else if upper == "LOGIN"@ {
        Some(AuthMech::Login)
    } else if upper == "CRAM-MD5"@ || upper == "CRAMMD5"@ {
        Some(AuthMech::CramMd5)
    } else {
        None
    }
}

/// What a lookup of `key` in a name table `found` gives back.
pub open spec fn tls_lookup(key: Seq<char>, res: Result<TlsMode, ModeError>) -> bool {
    match tls_mode_named(key) {
        Some(m) => res == Ok::<TlsMode, ModeError>(m),
        None => res matches Err(ModeError::UnknownTlsMode(t)) && t@ == key,
    }
}

/// What a lookup of `key` among the mechanism names gives back.
pub open spec fn auth_lookup(key: Seq<char>, res: Result<AuthMech, ModeError>) -> bool {
    match auth_mech_named(key) {
        Some(m) => res == Ok::<AuthMech, ModeError>(m),
        None => res matches Err(ModeError::UnknownAuthMech(t)) && t@ == key,
    }
}

/// Human-readable description of a TLS mode.
pub open spec fn tls_description(m: TlsMode) -> Seq<char> {
    match m {
        TlsMode::Plain => "Plain (no encryption)"@,
        TlsMode::StartTls => "STARTTLS"@,
        TlsMode::Tls => "TLS/SSL (SMTPS)"@,
    }
}

/// Canonical name of a TLS mode, as accepted on the command line.
pub open spec fn tls_keyword(m: TlsMode) -> Seq<char> {
    match m {
        TlsMode::Plain => "none"@,
        TlsMode::StartTls => "starttls"@,
        TlsMode::Tls => "tls"@,
    }
}

/// Name of a mechanism as shown to the user.
pub open spec fn auth_label(m: AuthMech) -> Seq<char> {
    match m {
        AuthMech::Plain => "PLAIN"@,
        AuthMech::Login => "LOGIN"@,
        AuthMech::CramMd5 => "CRAM-MD5"@,
    }
}

/// The port(s) usually used with a TLS mode.
pub open spec fn typical_port_text(m: TlsMode) -> Seq<char> {
    match m {
        TlsMode::Plain => "25 or 2525"@,
        TlsMode::StartTls => "587"@,
        TlsMode::Tls => "465"@,
    }
}

/// The warning given for a port and TLS mode that do not usually go together.
pub open spec fn mismatch_hint(m: TlsMode, port: u16) -> Option<Seq<char>> {
    match m {
        TlsMode::Tls => if port == 25 || port == 587 {
            Some(
                "Using --tls tls (implicit SSL) on port "@ + decimal(port as nat)
                    + " is unusual. Port 465 is standard for SMTPS. For port 25/587 try --tls none or --tls starttls."@,
            )
        } else {
            None
        },
        TlsMode::StartTls => if port == 465 {
            Some(
                "Using --tls starttls on port 465 is unusual. Port 465 normally uses implicit TLS (--tls tls). For STARTTLS use port 587."@,
            )
        } else {
            None
        },
        TlsMode::Plain => if port == 465 {
            Some("Port 465 usually requires implicit TLS. Try --tls tls instead of --tls none."@)
        } else {
            None
        },
    }
}

/// The message of a refused mode name.
pub open spec fn mode_error_text(e: ModeError) -> Seq<char> {
    match e {
        ModeError::UnknownTlsMode(t) => "Unknown TLS mode '"@ + t@
            + "'. Valid values: none, starttls, tls"@,
        ModeError::UnknownAuthMech(t) => "Unknown auth mechanism '"@ + t@
            + "'. Valid values: PLAIN, LOGIN, CRAM-MD5"@,
    }
}

impl TlsMode {
    /// Looks up an already lower-cased mode name.
    pub fn from_lowercase(lower: &str) -> (res: Result<TlsMode, ModeError>)
        ensures
            tls_lookup(lower@, res),
    {
        if str_eq(lower, "none") || str_eq(lower, "plain") || str_eq(lower, "no") || str_eq(lower, "off") {
            Ok(TlsMode::Plain)
        } else if str_eq(lower, "starttls") || str_eq(lower, "start") || str_eq(lower, "opportunistic") {
            Ok(TlsMode::StartTls)
        } else if str_eq(lower, "tls") || str_eq(lower, "ssl") || str_eq(lower, "smtps") || str_eq(lower, "implicit") {
            Ok(TlsMode::Tls)
        } else {
            Err(ModeError::UnknownTlsMode(String::from_str(lower)))
        }
    }

    /// Parses a mode name, ignoring case (`str::to_lowercase` first).
    pub fn parse(s: &str) -> (res: Result<TlsMode, ModeError>)
        ensures
            tls_lookup(lowercase_of(s@), res),
            is_ascii_text(s@) ==> tls_lookup(ascii_lower(s@), res),
    {
        let lower = to_lowercase(s);
        TlsMode::from_lowercase(lower.as_str())
    }

    /// Human-readable description (what the mode prints as).
    pub fn describe(&self) -> (res: &'static str)
        ensures
            res@ == tls_description(*self),
    {
        match self {
            TlsMode::Plain => "Plain (no encryption)",
            TlsMode::StartTls => "STARTTLS",
            TlsMode::Tls => "TLS/SSL (SMTPS)",
        }
    }

    /// Canonical command-line name of the mode.
    pub fn keyword(&self) -> (res: &'static str)
        ensures
            res@ == tls_keyword(*self),
    {
        match self {
            TlsMode::Plain => "none",
            TlsMode::StartTls => "starttls",
            TlsMode::Tls => "tls",
        }
    }

    /// The port(s) typical for this mode.
    pub fn typical_port(&self) -> (res: &'static str)
        ensures
            res@ == typical_port_text(*self),
    {
        match self {
            TlsMode::Plain => "25 or 2525",
            TlsMode::StartTls => "587",
            TlsMode::Tls => "465",
        }
    }

    /// A warning when `port` is unusual for this mode.
    pub fn port_mismatch_hint(&self, port: u16) -> (res: Option<String>)
        ensures
            match mismatch_hint(*self, port) {
                Some(t) => res matches Some(r) && r@ == t,
                None => res is None,
            },
    {
        match self {
            TlsMode::Tls => {
                if port == 25 || port == 587 {
                    let mut s = String::from_str("Using --tls tls (implicit SSL) on port ");
                    push_decimal(&mut s, port as u128);
                    s.append(" is unusual. Port 465 is standard for SMTPS. For port 25/587 try --tls none or --tls starttls.");
                    Some(s)
                } else {
                    None
                }
            },
            TlsMode::StartTls => {
                if port == 465 {
                    Some(String::from_str("Using --tls starttls on port 465 is unusual. Port 465 normally uses implicit TLS (--tls tls). For STARTTLS use port 587."))
                } else {
                    None
                }
            },
            TlsMode::Plain => {
                if port == 465 {
                    Some(String::from_str("Port 465 usually requires implicit TLS. Try --tls tls instead of --tls none."))
                } else {
                    None
                }
            },
        }
    }
}

impl AuthMech {
    /// Looks up an already upper-cased mechanism name.
    pub fn from_uppercase(upper: &str) -> (res: Result<AuthMech, ModeError>)
        ensures
            auth_lookup(upper@, res),
    {
        if str_eq(upper, "PLAIN") {
            Ok(AuthMech::Plain)
        } else if str_eq(upper, "LOGIN") {
            Ok(AuthMech::Login)
        } else if str_eq(upper, "CRAM-MD5") || str_eq(upper, "CRAMMD5") {
            Ok(AuthMech::CramMd5)
        } else {
            Err(ModeError::UnknownAuthMech(String::from_str(upper)))
        }
    }

    /// Parses a mechanism name, ignoring case (`str::to_uppercase` first).
    pub fn parse(s: &str) -> (res: Result<AuthMech, ModeError>)
        ensures
            auth_lookup(uppercase_of(s@), res),
            is_ascii_text(s@) ==> auth_lookup(ascii_upper(s@), res),
    {
        let upper = to_uppercase(s);
        AuthMech::from_uppercase(upper.as_str())
    }

    /// The mechanism's name (what it prints as).
    pub fn label(&self) -> (res: &'static str)
        ensures
            res@ == auth_label(*self),
    {
        match self {
            AuthMech::Plain => "PLAIN",
            AuthMech::Login => "LOGIN",
            AuthMech::CramMd5 => "CRAM-MD5",
        }
    }
}

impl ModeError {
    /// The error message shown to the user.
    pub fn message(&self) -> (res: String)
        ensures
            res@ == mode_error_text(*self),
    {
        match self {
            ModeError::UnknownTlsMode(t) => {
                let mut s = String::from_str("Unknown TLS mode '");
                s.append(t.as_str());
                s.append("'. Valid values: none, starttls, tls");
                s
            },
            ModeError::UnknownAuthMech(t) => {
                let mut s = String::from_str("Unknown auth mechanism '");
                s.append(t.as_str());
                s.append("'. Valid values: PLAIN, LOGIN, CRAM-MD5");
                s
            },
        }
    }
}

impl std::str::FromStr for TlsMode {
    type Err = ModeError;

    fn from_str(s: &str) -> (res: Result<TlsMode, ModeError>)
        ensures
            tls_lookup(lowercase_of(s@), res),
            is_ascii_text(s@) ==> tls_lookup(ascii_lower(s@), res),
    {
        TlsMode::parse(s)
    }
}

impl std::str::FromStr for AuthMech {
    type Err = ModeError;

    fn from_str(s: &str) -> (res: Result<AuthMech, ModeError>)
        ensures
            auth_lookup(uppercase_of(s@), res),
            is_ascii_text(s@) ==> auth_lookup(ascii_upper(s@), res),
    {
        AuthMech::parse(s)
    }
}

/// Every mode's canonical name is recognised as that very mode.
pub proof fn lemma_tls_keyword_round_trip(m: TlsMode)
    ensures
        tls_mode_named(tls_keyword(m)) == Some(m),
        is_ascii_text(tls_keyword(m)),
        ascii_lower(tls_keyword(m)) == tls_keyword(m),
{
    reveal_strlit("none");
    reveal_strlit("plain");
    reveal_strlit("no");
    reveal_strlit("off");
    reveal_strlit("starttls");
    reveal_strlit("start");
    reveal_strlit("opportunistic");
    reveal_strlit("tls");
    reveal_strlit("ssl");
    reveal_strlit("smtps");
    reveal_strlit("implicit");
    match m {
        TlsMode::Plain => {},
        TlsMode::StartTls => {
            assert("starttls"@.len() == 8);
            assert("starttls"@ != "none"@ && "starttls"@ != "plain"@ && "starttls"@ != "no"@ && "starttls"@ != "off"@);
        },
        TlsMode::Tls => {
            assert("tls"@[0] == 't' && "no"@.len() == 2);
            assert("tls"@ != "none"@ && "tls"@ != "plain"@ && "tls"@ != "no"@);
            assert("tls"@[0] != "off"@[0]);
            assert("tls"@ != "starttls"@ && "tls"@ != "start"@ && "tls"@ != "opportunistic"@);
        },
    }
    assert(ascii_lower(tls_keyword(m)) =~= tls_keyword(m));
}

/// Every mechanism's name is ASCII, unchanged by upper-casing, and
/// recognised as that very mechanism; so parsing a mechanism's label gives
/// the mechanism back.
pub proof fn lemma_auth_label_round_trip(m: AuthMech)
    ensures
        is_ascii_text(auth_label(m)),
        ascii_upper(auth_label(m)) == auth_label(m),
        auth_mech_named(auth_label(m)) == Some(m),
{
    reveal_strlit("PLAIN");
    reveal_strlit("LOGIN");
    reveal_strlit("CRAM-MD5");
    reveal_strlit("CRAMMD5");
    assert(ascii_upper(auth_label(m)) =~= auth_label(m));
    match m {
        AuthMech::Plain => {},
        AuthMech::Login => {
            assert("LOGIN"@[0] != "PLAIN"@[0]);
        },
        AuthMech::CramMd5 => {
            assert("CRAM-MD5"@.len() != "PLAIN"@.len());
            assert("CRAM-MD5"@.len() != "LOGIN"@.len());
        },
    }
}


/// The port each mode is standard on: 25 for plain SMTP, 587 for STARTTLS,
/// 465 for implicit TLS.
pub open spec fn standard_port(m: TlsMode) -> u16 {
    match m {
        TlsMode::Plain => 25,
        TlsMode::StartTls => 587,
        TlsMode::Tls => 465,
    }
}

/// A mode on its standard port never gets a mismatch warning, and the
/// warning is given only for port 25, 465 or 587.
pub proof fn lemma_standard_port_has_no_hint(m: TlsMode, port: u16)
    ensures
        mismatch_hint(m, standard_port(m)) is None,
        mismatch_hint(m, port) is Some ==> (port == 25 || port == 465 || port == 587),
{
}

} // verus!
