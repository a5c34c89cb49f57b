//! Persistent configuration: its shape, its factory defaults, and what a
//! `config --save` writes.

use vstd::prelude::*;

verus! {

pub const DEFAULT_SERVER: &'static str = "222.222.222.5";

pub const DEFAULT_PORT: u16 = 25;

pub const DEFAULT_TIMEOUT: u64 = 30;

/// The whole configuration file.
#[derive(Debug, Clone)]
pub struct AppConfig {
    pub server: ServerConfig,
    pub auth: AuthConfig,
    pub defaults: DefaultsConfig,
}

/// Where and how long to connect.
#[derive(Debug, Clone)]
pub struct ServerConfig {
    pub host: String,
    pub port: u16,
    pub timeout: u64,
}

/// Authentication settings.
#[derive(Debug, Clone)]
pub struct AuthConfig {
    pub username: Option<String>,
    /// Never written to disk by `save`; present only when loaded from a
    /// config file that the user wrote by hand.
    pub password: Option<String>,
    pub mechanism: Option<String>,
}

/// Message defaults.
#[derive(Debug, Clone)]
pub struct DefaultsConfig {
    pub from: Option<String>,
    pub from_name: Option<String>,
    pub subject: String,
    pub body: String,
}

pub open spec fn default_body() -> Seq<char> {
    "This is a test email sent by email-tester.\nhttps://github.com/cumulus13/email-tester"@
}

pub open spec fn opt_text(o: Option<String>) -> Option<Seq<char>> {
    match o {
        Some(s) => Some(s@),
        None => None,
    }
}

impl ServerConfig {
    pub open spec fn is_default(self) -> bool {
        self.host@ == DEFAULT_SERVER@ && self.port == DEFAULT_PORT && self.timeout == DEFAULT_TIMEOUT
    }
}

impl AuthConfig {
    pub open spec fn is_default(self) -> bool {
        self.username is None && self.password is None && self.mechanism is None
    }
}

impl DefaultsConfig {
    pub open spec fn is_default(self) -> bool {
        &&& self.from is None
        &&& opt_text(self.from_name) == Some("Email Tester"@)
        &&& self.subject@ == "SMTP Test Email"@
        &&& self.body@ == default_body()
    }
}

impl AppConfig {
    pub open spec fn is_default(self) -> bool {
        self.server.is_default() && self.auth.is_default() && self.defaults.is_default()
    }
}

impl Default for ServerConfig {
    fn default() -> (res: ServerConfig)
        ensures
            res.is_default(),
    {
        ServerConfig { host: String::from_str(DEFAULT_SERVER), port: DEFAULT_PORT, timeout: DEFAULT_TIMEOUT }
    }
}

impl Default for AuthConfig {
    fn default() -> (res: AuthConfig)
        ensures
            res.is_default(),
    {
        AuthConfig { username: None, password: None, mechanism: None }
    }
}

impl Default for DefaultsConfig {
    fn default() -> (res: DefaultsConfig)
        ensures
            res.is_default(),
    {
        DefaultsConfig {
            from: None,
            from_name: Some(String::from_str("Email Tester")),
            subject: String::from_str("SMTP Test Email"),
            body: String::from_str("This is a test email sent by email-tester.\nhttps://github.com/cumulus13/email-tester"),
        }
    }
}

impl Default for AppConfig {
    fn default() -> (res: AppConfig)
        ensures
            res.is_default(),
    {
        AppConfig { server: ServerConfig::default(), auth: AuthConfig::default(), defaults: DefaultsConfig::default() }
    }
}

/// The configuration that `config --save` writes: the effective server
/// settings, the username and mechanism, the loaded message defaults, and
/// never a password.
pub open spec fn saved_config_spec(
    host: String,
    port: u16,
    timeout: u64,
    username: Option<String>,
    mechanism: String,
    defaults: DefaultsConfig,
) -> AppConfig {
    AppConfig {
        server: ServerConfig { host, port, timeout },
        auth: AuthConfig { username, password: None, mechanism: Some(mechanism) },
        defaults,
    }
}

impl AppConfig {
    /// The configuration to persist for `config --save`.
    pub fn for_save(
        host: String,
        port: u16,
        timeout: u64,
        username: Option<String>,
        mechanism: String,
        defaults: DefaultsConfig,
    ) -> (res: AppConfig)
        ensures
            res == saved_config_spec(host, port, timeout, username, mechanism, defaults),
    {
        AppConfig {
            server: ServerConfig { host, port, timeout },
            auth: AuthConfig { username, password: None, mechanism: Some(mechanism) },
            defaults,
        }
    }

}

/// The configuration in effect after an attempt to read and parse the
/// configuration file: the parsed one, or the factory defaults when the file
/// is missing, unreadable or malformed (`None`).
pub fn load_config(loaded: Option<AppConfig>) -> (res: AppConfig)
    ensures
        match loaded {
            Some(c) => res == c,
            None => res.is_default(),
        },
{
    match loaded {
        Some(c) => c,
        None => AppConfig::default(),
    }
}

/// `res` is `name` adjoined to the path `base`, with or without one path
/// separator in between.
pub open spec fn joined(base: Seq<char>, name: Seq<char>, res: Seq<char>) -> bool {
    ||| res == base + name
    ||| res == base + seq!['/'] + name
    ||| res == base + seq!['\\'] + name
}

/// `res` ends with `name`.
pub open spec fn ends_with(res: Seq<char>, name: Seq<char>) -> bool {
    res.len() >= name.len() && res.subrange(res.len() - name.len(), res.len() as int) == name
}

pub open spec fn is_separator(c: char) -> bool {
    c == '/' || c == '\\'
}

/// A base that Windows reads as a verbatim path (`\\?\...`): adjoining to it
/// rewrites the whole path (`.` and `..` are resolved).
pub open spec fn verbatim_like(base: Seq<char>) -> bool {
    base.len() >= 4 && is_separator(base[0]) && is_separator(base[1]) && base[2] == '?' && is_separator(base[3])
}

/// A plain file name: not empty, not `.` or `..`, no separator and no drive
/// or prefix mark, so a relative path of one component on every platform.
pub open spec fn plain_file_name(name: Seq<char>) -> bool {
    &&& name.len() > 0
    &&& name != seq!['.']
    &&& name != seq!['.', '.']
    &&& !name.contains('/')
    &&& !name.contains('\\')
    &&& !name.contains(':')
}

/// Calls `Path::join` on `base` with a plain file name and converts the
/// result back to text (exact, as both inputs are UTF-8). The name always
/// ends the result; on a base that is not verbatim it is adjoined with at
/// most one separator (which one, and whether one is needed, is the
/// platform's). Of a verbatim base only the ending is stated, since Windows
/// rewrites such a path when it is extended.
#[verifier::external_body]
fn join_file_name(base: &str, name: &str) -> (res: String)
    requires
        plain_file_name(name@),
    ensures
        ends_with(res@, name@),
        !verbatim_like(base@) ==> joined(base@, name@, res@),
{
    std::path::Path::new(base).join(name).to_string_lossy().into_owned()
}

pub open spec fn config_file_name() -> Seq<char> {
    ".email-tester.toml"@
}

/// Path of the configuration file: the override when given, else
/// `.email-tester.toml` in the home directory, or in `.` without one.
pub fn config_path(override_path: Option<String>, home: Option<String>) -> (res: String)
    ensures
        match override_path {
            Some(p) => res == p,
            None => {
                let base = match home {
                    Some(h) => h@,
                    None => "."@,
                };
                &&& ends_with(res@, config_file_name())
                &&& !verbatim_like(base) ==> joined(base, config_file_name(), res@)
            },
        },
{
    match override_path {
        Some(p) => p,
        None => {
            let base = match home {
                Some(h) => h,
                None => String::from_str("."),
            };
            proof {
                reveal_strlit(".email-tester.toml");
                assert(config_file_name().len() > 2);
            }
            join_file_name(base.as_str(), ".email-tester.toml")
        },
    }
}

/// A saved configuration never holds a password, whatever was loaded or given.
pub proof fn lemma_save_never_stores_password(
    host: String,
    port: u16,
    timeout: u64,
    username: Option<String>,
    mechanism: String,
    defaults: DefaultsConfig,
)
    ensures
        saved_config_spec(host, port, timeout, username, mechanism, defaults).auth.password is None,
{
}

} // verus!
