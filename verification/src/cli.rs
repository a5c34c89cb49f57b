//! Command-line options and how they combine with the configuration file.

use vstd::prelude::*;
use crate::config::AppConfig;
use crate::smtp::{auth_lookup, tls_lookup, AuthMech, ModeError, TlsMode};
use crate::text::{lowercase_of, uppercase_of};

verus! {

/// Global options.
#[derive(Debug, Clone)]
pub struct Cli {
    pub server: Option<String>,
    pub port: Option<u16>,
    pub username: Option<String>,
    pub password: Option<String>,
    pub tls: String,
    pub timeout: u64,
    pub auth_mech: String,
    /// Send without authenticating even when a username is given.
    pub no_auth: bool,
    /// Accept invalid certificates; they are accepted in every case.
    pub insecure: bool,
    /// Path of the configuration file, when given.
    pub config: Option<String>,
    pub verbose: u8,
    pub json: bool,
    pub no_color: bool,
    /// Path of the log file, when given.
    pub log_file: Option<String>,
    pub command: Commands,
}

/// Sub-commands.
#[derive(Debug, Clone)]
pub enum Commands {
    Send {
        to: Vec<String>,
        cc: Vec<String>,
        bcc: Vec<String>,
        from: Option<String>,
        from_name: String,
        subject: String,
        body: Option<String>,
        html: Option<String>,
        /// Attachment paths.
        attachments: Vec<String>,
        reply_to: Option<String>,
        headers: Vec<String>,
        retries: u32,
        ask_password: bool,
    },
    Ping { count: u32 },
    Verify { email: String },
    Info,
    Config { save: bool, show: bool, reset: bool },
}

/// The settings in effect for a run.
#[derive(Debug, Clone)]
pub struct Settings {
    pub server: String,
    pub port: u16,
    pub timeout: u64,
    pub tls: TlsMode,
    pub mech: AuthMech,
}

/// Where the password comes from.
#[derive(Debug, Clone, Copy, PartialEq, Eq, Structural)]
pub enum PasswordSource {
    /// Use the password given on the command line (or none).
    Given,
    /// Ask the user interactively.
    Prompt,
    /// Read `SMTP_PASSWORD` from the environment.
    Environment,
}

/// What `config` does.
#[derive(Debug, Clone, Copy, PartialEq, Eq, Structural)]
pub enum ConfigAction {
    Reset,
    Save,
    Show,
    Usage,
}

pub open spec fn log_level_text(verbose: u8) -> Seq<char> {
    if verbose == 0 {
        "warn"@
    } else if verbose == 1 {
        "info"@
    } else if verbose == 2 {
        "debug"@
    } else {
        "trace"@
    }
}

/// The log filter level for a verbosity count.
pub fn log_level(verbose: u8) -> (res: &'static str)
    ensures
        res@ == log_level_text(verbose),
{
    if verbose == 0 {
        "warn"
    } else if verbose == 1 {
        "info"
    } else if verbose == 2 {
        "debug"
    } else {
        "trace"
    }
}

/// The settings in effect: server and port from the command line, else from
/// the configuration; time-out from the command line; TLS mode and mechanism
/// parsed from their names. Fails on the first name that is not recognised
/// (TLS mode first).
pub open spec fn settings_outcome(cli: Cli, cfg: AppConfig, res: Result<Settings, ModeError>) -> bool {
    let server = match cli.server {
        Some(s) => s@,
        None => cfg.server.host@,
    };
    let port = match cli.port {
        Some(p) => p,
        None => cfg.server.port,
    };
    match res {
        Ok(s) => {
            &&& s.server@ == server
            &&& s.port == port
            &&& s.timeout == cli.timeout
            &&& tls_lookup(lowercase_of(cli.tls@), Ok(s.tls))
            &&& auth_lookup(uppercase_of(cli.auth_mech@), Ok(s.mech))
        },
        Err(e) => {
            ||| tls_lookup(lowercase_of(cli.tls@), Err(e))
            ||| (exists|m: TlsMode| tls_lookup(lowercase_of(cli.tls@), Ok(m))) && auth_lookup(
                uppercase_of(cli.auth_mech@),
                Err(e),
            )
        },
    }
}

/// Resolves the settings in effect (see `settings_outcome`).
pub fn resolve_settings(cli: &Cli, cfg: &AppConfig) -> (res: Result<Settings, ModeError>)
    ensures
        settings_outcome(*cli, *cfg, res),
{
    let server = match &cli.server {
        Some(s) => s.clone(),
        None => cfg.server.host.clone(),
    };
    let port = match cli.port {
        Some(p) => p,
        None => cfg.server.port,
    };
    let tls = match TlsMode::parse(cli.tls.as_str()) {
        Ok(t) => t,
        Err(e) => {
            return Err(e);
        },
    };
    let mech = match AuthMech::parse(cli.auth_mech.as_str()) {
        Ok(m) => m,
        Err(e) => {
            return Err(e);
        },
    };
    Ok(Settings { server, port, timeout: cli.timeout, tls, mech })
}

pub open spec fn sender_text(from: Option<String>, cfg_from: Option<String>, username: Option<String>, server: Seq<char>) -> Seq<char> {
    match from {
        Some(f) => f@,
        None => match cfg_from {
            Some(f) => f@,
            None => match username {
                Some(u) => u@,
                None => "noreply@"@ + server,
            },
        },
    }
}

/// The sender address: the one given, else the configured default, else
/// the username, else `noreply@<server>`.
pub fn resolve_sender(from: &Option<String>, cfg_from: &Option<String>, username: &Option<String>, server: &str) -> (res: String)
    ensures
        res@ == sender_text(*from, *cfg_from, *username, server@),
{
    match from {
        Some(f) => f.clone(),
        None => match cfg_from {
            Some(f) => f.clone(),
            None => match username {
                Some(u) => u.clone(),
                None => {
                    let mut t = String::from_str("noreply@");
                    t.append(server);
                    t
                },
            },
        },
    }
}

/// Where the password comes from: asked for or read from the environment
/// only when a username is set, no password was given and authentication
/// is not skipped.
pub fn password_source(username: &Option<String>, password: &Option<String>, ask: bool, no_auth: bool) -> (res: PasswordSource)
    ensures
        (username is Some && password is None && !no_auth && ask) <==> res == PasswordSource::Prompt,
        (username is Some && password is None && !no_auth && !ask) <==> res == PasswordSource::Environment,
{
    if username.is_some() && password.is_none() && !no_auth {
        if ask {
            PasswordSource::Prompt
        } else {
            PasswordSource::Environment
        }
    } else {
        PasswordSource::Given
    }
}

pub open spec fn prompt_text(username: Option<String>) -> Seq<char> {
    "  Password for "@ + match username {
        Some(u) => u@,
        None => "user"@,
    } + ": "@
}

/// The interactive password prompt.
pub fn password_prompt(username: &Option<String>) -> (res: String)
    ensures
        res@ == prompt_text(*username),
{
    let mut t = String::from_str("  Password for ");
    match username {
        Some(u) => t.append(u.as_str()),
        None => t.append("user"),
    }
    t.append(": ");
    t
}

/// Credentials are used only when both a username and a password are known
/// and authentication is not skipped.
pub fn credentials(username: &Option<String>, password: &Option<String>, no_auth: bool) -> (res: Option<(String, String)>)
    ensures
        no_auth ==> res is None,
        !no_auth ==> match (*username, *password) {
            (Some(u), Some(p)) => res == Some((u, p)),
            _ => res is None,
        },
{
    if no_auth {
        return None;
    }
    match (username, password) {
        (Some(u), Some(p)) => Some((u.clone(), p.clone())),
        _ => None,
    }
}

/// The plain-text body: the one given, else the configured default.
pub fn resolve_body(body: &Option<String>, cfg: &AppConfig) -> (res: String)
    ensures
        res@ == match *body {
            Some(b) => b@,
            None => cfg.defaults.body@,
        },
{
    match body {
        Some(b) => b.clone(),
        None => cfg.defaults.body.clone(),
    }
}

/// What `config` does: reset wins over save, save over show; with no flag
/// it explains the flags.
pub fn config_action(save: bool, show: bool, reset: bool) -> (res: ConfigAction)
    ensures
        res == (if reset {
            ConfigAction::Reset
        } else if save {
            ConfigAction::Save
        } else if show {
            ConfigAction::Show
        } else {
            ConfigAction::Usage
        }),
{
    if reset {
        ConfigAction::Reset
    } else if save {
        ConfigAction::Save
    } else if show {
        ConfigAction::Show
    } else {
        ConfigAction::Usage
    }
}

} // verus!
