//! What SMTP transport to set up for a server, a TLS mode and credentials.

use vstd::prelude::*;
use lettre::transport::smtp::authentication::{Credentials, Mechanism};
use lettre::transport::smtp::client::{Tls, TlsParameters, TlsParametersBuilder};
use lettre::transport::smtp::extension::ClientId;
use lettre::transport::smtp::{PoolConfig, SmtpTransportBuilder};
use lettre::SmtpTransport;
use crate::smtp::{tls_description, AuthMech, TlsMode};
use crate::text::{decimal, push_decimal};

verus! {

/// Which lettre transport builder to start from.
#[derive(Debug, Clone, Copy, PartialEq, Eq, Structural)]
pub enum Relay {
    /// `SmtpTransport::builder_dangerous`: no encryption at all.
    Unencrypted,
    /// `SmtpTransport::starttls_relay` with `Tls::Required`.
    StartTls,
    /// `SmtpTransport::relay` with `Tls::Wrapper` (TLS from the first byte).
    Wrapped,
}

/// Everything needed to build the transport.
#[derive(Debug, Clone)]
pub struct TransportPlan {
    pub server: String,
    pub port: u16,
    pub relay: Relay,
    pub timeout_secs: u64,
    /// Name sent in `EHLO`.
    pub hello_name: String,
    /// Username and password, when authentication is wanted.
    pub credentials: Option<(String, String)>,
    /// The only mechanism offered when authenticating.
    pub mechanism: AuthMech,
    /// Certificates and host names are not checked (self-signed servers are accepted).
    pub accept_invalid_certs: bool,
    /// At most this many pooled connections.
    pub pool_max_size: u32,
}

/// A transport that cannot be set up.
#[derive(Debug, Clone, Copy, PartialEq, Eq, Structural)]
pub enum PlanError {
    /// The SMTP transport offers no CRAM-MD5 authentication.
    UnsupportedMechanism,
}

pub open spec fn relay_for(tls: TlsMode) -> Relay {
    match tls {
        TlsMode::Plain => Relay::Unencrypted,
        TlsMode::StartTls => Relay::StartTls,
        TlsMode::Tls => Relay::Wrapped,
    }
}

pub open spec fn hello_for(hostname: Option<String>) -> Seq<char> {
    match hostname {
        Some(h) => h@,
        None => "localhost"@,
    }
}

/// The plan for `server:port`: the builder chosen by the TLS mode, the local
/// host name (or `localhost`) as `EHLO` name, credentials with the single
/// chosen mechanism, invalid certificates accepted, one pooled connection.
/// Fails only when credentials ask for CRAM-MD5.
pub open spec fn plan_outcome(
    server: Seq<char>,
    port: u16,
    tls: TlsMode,
    timeout: u64,
    creds: Option<(String, String)>,
    mech: AuthMech,
    hostname: Option<String>,
    res: Result<TransportPlan, PlanError>,
) -> bool {
    if creds is Some && mech == AuthMech::CramMd5 {
        res == Err::<TransportPlan, PlanError>(PlanError::UnsupportedMechanism)
    } else {
        res matches Ok(p) && {
            &&& p.server@ == server
            &&& p.port == port
            &&& p.relay == relay_for(tls)
            &&& p.timeout_secs == timeout
            &&& p.hello_name@ == hello_for(hostname)
            &&& p.credentials == creds
            &&& p.mechanism == mech
            &&& p.accept_invalid_certs
            &&& p.pool_max_size == 1
        }
    }
}

/// Plans the transport for `server:port` (see `plan_outcome`).
pub fn plan_transport(
    server: &str,
    port: u16,
    tls: TlsMode,
    timeout: u64,
    creds: Option<(String, String)>,
    mech: AuthMech,
    hostname: Option<String>,
) -> (res: Result<TransportPlan, PlanError>)
    ensures
        plan_outcome(server@, port, tls, timeout, creds, mech, hostname, res),
        res is Err <==> (creds is Some && mech == AuthMech::CramMd5),
        res matches Ok(p) ==> p.credentials == creds && p.mechanism == mech,
{
    if creds.is_some() && mech == AuthMech::CramMd5 {
        return Err(PlanError::UnsupportedMechanism);
    }
    let relay = match tls {
        TlsMode::Plain => Relay::Unencrypted,
        TlsMode::StartTls => Relay::StartTls,
        TlsMode::Tls => Relay::Wrapped,
    };
    let hello_name = match hostname {
        Some(h) => h,
        None => String::from_str("localhost"),
    };
    Ok(TransportPlan {
        server: String::from_str(server),
        port,
        relay,
        timeout_secs: timeout,
        hello_name,
        credentials: creds,
        mechanism: mech,
        accept_invalid_certs: true,
        pool_max_size: 1,
    })
}

pub open spec fn plan_debug_text(server: Seq<char>, port: u16, tls: TlsMode, has_creds: bool) -> Seq<char> {
    "Building transport  "@ + server + ":"@ + decimal(port as nat) + "  ["@ + tls_description(tls) + "]  auth="@
        + (if has_creds { "true"@ } else { "false"@ })
}

/// The debug line logged when a transport is built; it says only whether
/// credentials are used, never what they are.
pub fn plan_debug_line(server: &str, port: u16, tls: TlsMode, has_creds: bool) -> (res: String)
    ensures
        res@ == plan_debug_text(server@, port, tls, has_creds),
{
    let mut t = String::from_str("Building transport  ");
    t.append(server);
    t.append(":");
    push_decimal(&mut t, port as u128);
    t.append("  [");
    t.append(tls.describe());
    t.append("]  auth=");
    t.append(if has_creds { "true" } else { "false" });
    t
}

pub open spec fn plan_error_text(e: PlanError) -> Seq<char> {
    "CRAM-MD5 authentication is not supported by the SMTP transport"@
}

impl PlanError {
    pub fn message(&self) -> (res: String)
        ensures
            res@ == plan_error_text(*self),
    {
        String::from_str("CRAM-MD5 authentication is not supported by the SMTP transport")
    }
}


/// TLS settings as handed to lettre's `TlsParametersBuilder`.
pub struct TlsParamsView {
    /// The domain the server's certificate is checked against.
    pub domain: Seq<char>,
    pub accept_invalid_certs: bool,
    pub accept_invalid_hostnames: bool,
}

/// The TLS kind handed to lettre (`Tls::None`, `Tls::Required`, `Tls::Wrapper`).
pub enum TlsView {
    Off,
    Required(TlsParamsView),
    Wrapper(TlsParamsView),
}

/// What a transport builder has been given. `None` stands for a setting
/// left at lettre's default.
pub struct TransportView {
    pub server: Seq<char>,
    pub port: u16,
    pub tls: TlsView,
    pub timeout_secs: Option<u64>,
    pub hello_name: Option<Seq<char>>,
    pub pool_max_size: Option<u32>,
    /// Username and password.
    pub credentials: Option<(Seq<char>, Seq<char>)>,
    /// The mechanisms offered, in order.
    pub mechanisms: Option<Seq<AuthMech>>,
}

/// A fresh builder for `server`: port and TLS as given, everything else
/// at lettre's defaults.
pub open spec fn fresh_view(server: Seq<char>, port: u16, tls: TlsView) -> TransportView {
    TransportView {
        server,
        port,
        tls,
        timeout_secs: None,
        hello_name: None,
        pool_max_size: None,
        credentials: None,
        mechanisms: None,
    }
}

/// TLS parameters for `domain` with both checks relaxed or both kept.
pub open spec fn tls_params_for(domain: Seq<char>, accept_invalid: bool) -> TlsParamsView {
    TlsParamsView { domain, accept_invalid_certs: accept_invalid, accept_invalid_hostnames: accept_invalid }
}

/// The transport configuration a plan asks for.
pub open spec fn planned_view(plan: TransportPlan) -> TransportView {
    let params = tls_params_for(plan.server@, plan.accept_invalid_certs);
    TransportView {
        server: plan.server@,
        port: plan.port,
        tls: match plan.relay {
            Relay::Unencrypted => TlsView::Off,
            Relay::StartTls => TlsView::Required(params),
            Relay::Wrapped => TlsView::Wrapper(params),
        },
        timeout_secs: Some(plan.timeout_secs),
        hello_name: Some(plan.hello_name@),
        pool_max_size: Some(plan.pool_max_size),
        credentials: match plan.credentials {
            Some((u, p)) => Some((u@, p@)),
            None => None,
        },
        mechanisms: match plan.credentials {
            Some(_) => Some(seq![plan.mechanism]),
            None => None,
        },
    }
}

/// The transport configuration for `server:port` that `plan_transport`
/// describes: the TLS kind of the mode with invalid certificates and host
/// names accepted, the time-out, the local host name (or `localhost`) as
/// `EHLO` name, one pooled connection, and the credentials with exactly the
/// chosen mechanism when there are credentials.
pub open spec fn transport_for(
    server: Seq<char>,
    port: u16,
    tls: TlsMode,
    timeout: u64,
    creds: Option<(String, String)>,
    mech: AuthMech,
    hostname: Option<String>,
) -> TransportView {
    let params = tls_params_for(server, true);
    TransportView {
        server,
        port,
        tls: match tls {
            TlsMode::Plain => TlsView::Off,
            TlsMode::StartTls => TlsView::Required(params),
            TlsMode::Tls => TlsView::Wrapper(params),
        },
        timeout_secs: Some(timeout),
        hello_name: Some(hello_for(hostname)),
        pool_max_size: Some(1),
        credentials: match creds {
            Some((u, p)) => Some((u@, p@)),
            None => None,
        },
        mechanisms: match creds {
            Some(_) => Some(seq![mech]),
            None => None,
        },
    }
}

/// A plan made by `plan_transport` asks for exactly the configuration
/// `transport_for` describes.
pub proof fn lemma_plan_gives_transport(
    server: Seq<char>,
    port: u16,
    tls: TlsMode,
    timeout: u64,
    creds: Option<(String, String)>,
    mech: AuthMech,
    hostname: Option<String>,
    plan: TransportPlan,
)
    requires
        plan_outcome(server, port, tls, timeout, creds, mech, hostname, Ok(plan)),
    ensures
        planned_view(plan) == transport_for(server, port, tls, timeout, creds, mech, hostname),
{
}

#[verifier::external_type_specification]
#[verifier::external_body]
pub struct ExSmtpTransport(SmtpTransport);

#[verifier::external_type_specification]
#[verifier::external_body]
pub struct ExSmtpTransportBuilder(SmtpTransportBuilder);

#[verifier::external_type_specification]
#[verifier::external_body]
pub struct ExTlsParameters(TlsParameters);

#[verifier::external_type_specification]
#[verifier::external_body]
pub struct ExTlsParametersBuilder(TlsParametersBuilder);

#[verifier::external_type_specification]
#[verifier::external_body]
pub struct ExPoolConfig(PoolConfig);

#[verifier::external_type_specification]
#[verifier::external_body]
pub struct ExCredentials(Credentials);

#[verifier::external_type_specification]
#[verifier::external_body]
pub struct ExSmtpError(lettre::transport::smtp::Error);

/// lettre's transport builder with what it has been given.
pub struct TransportBuilder {
    builder: SmtpTransportBuilder,
    view: Ghost<TransportView>,
}

impl View for TransportBuilder {
    type V = TransportView;

    closed spec fn view(&self) -> TransportView {
        self.view@
    }
}

/// lettre's TLS parameter builder with the settings it has been given.
pub struct TlsBuilder {
    builder: TlsParametersBuilder,
    view: Ghost<TlsParamsView>,
}

impl View for TlsBuilder {
    type V = TlsParamsView;

    closed spec fn view(&self) -> TlsParamsView {
        self.view@
    }
}

/// Built TLS parameters with the settings they were built from.
pub struct TlsSettings {
    params: TlsParameters,
    view: Ghost<TlsParamsView>,
}

impl View for TlsSettings {
    type V = TlsParamsView;

    closed spec fn view(&self) -> TlsParamsView {
        self.view@
    }
}

/// A pool configuration with its maximum size (`None`: lettre's default).
pub struct PoolSettings {
    config: PoolConfig,
    max_size: Ghost<Option<u32>>,
}

impl View for PoolSettings {
    type V = Option<u32>;

    closed spec fn view(&self) -> Option<u32> {
        self.max_size@
    }
}

/// Credentials with the username and password they hold.
pub struct Login {
    credentials: Credentials,
    pair: Ghost<(Seq<char>, Seq<char>)>,
}

impl View for Login {
    type V = (Seq<char>, Seq<char>);

    closed spec fn view(&self) -> (Seq<char>, Seq<char>) {
        self.pair@
    }
}

/// A built SMTP transport with the configuration it was built from.
pub struct Transport {
    transport: SmtpTransport,
    view: Ghost<TransportView>,
}

impl View for Transport {
    type V = TransportView;

    closed spec fn view(&self) -> TransportView {
        self.view@
    }
}

impl Transport {
    /// The lettre transport, to send with.
    pub fn into_smtp(self) -> SmtpTransport {
        self.transport
    }
}

/// Calls `SmtpTransport::builder_dangerous`: port 25, no TLS, the rest at
/// lettre's defaults.
#[verifier::external_body]
fn unencrypted_builder(server: &str) -> (res: TransportBuilder)
    ensures
        res@ == fresh_view(server@, 25, TlsView::Off),
{
    TransportBuilder {
        builder: SmtpTransport::builder_dangerous(server),
        view: Ghost(fresh_view(server@, 25, TlsView::Off)),
    }
}

/// Calls `SmtpTransport::starttls_relay`: port 587 and `Tls::Required` with
/// checked parameters for `server`. It builds TLS parameters, which reads
/// the system's TLS setup, so whether it succeeds is not stated.
#[verifier::external_body]
fn starttls_builder(server: &str) -> (res: Result<TransportBuilder, lettre::transport::smtp::Error>)
    ensures
        res matches Ok(b) ==> b@ == fresh_view(server@, 587, TlsView::Required(tls_params_for(server@, false))),
{
    match SmtpTransport::starttls_relay(server) {
        Ok(b) => Ok(TransportBuilder {
            builder: b,
            view: Ghost(fresh_view(server@, 587, TlsView::Required(tls_params_for(server@, false)))),
        }),
        Err(e) => Err(e),
    }
}

/// Calls `SmtpTransport::relay`: port 465 and `Tls::Wrapper` with checked
/// parameters for `server`; whether it succeeds is not stated (as above).
#[verifier::external_body]
fn wrapped_builder(server: &str) -> (res: Result<TransportBuilder, lettre::transport::smtp::Error>)
    ensures
        res matches Ok(b) ==> b@ == fresh_view(server@, 465, TlsView::Wrapper(tls_params_for(server@, false))),
{
    match SmtpTransport::relay(server) {
        Ok(b) => Ok(TransportBuilder {
            builder: b,
            view: Ghost(fresh_view(server@, 465, TlsView::Wrapper(tls_params_for(server@, false)))),
        }),
        Err(e) => Err(e),
    }
}

/// Calls `TlsParameters::builder`: both checks on by default.
#[verifier::external_body]
fn tls_parameters_builder(domain: String) -> (res: TlsBuilder)
    ensures
        res@ == tls_params_for(domain@, false),
{
    let ghost d = domain@;
    TlsBuilder { builder: TlsParameters::builder(domain), view: Ghost(tls_params_for(d, false)) }
}

/// Calls `TlsParametersBuilder::dangerous_accept_invalid_certs`.
#[verifier::external_body]
fn accept_invalid_certs(b: TlsBuilder, accept: bool) -> (res: TlsBuilder)
    ensures
        res@ == (TlsParamsView { accept_invalid_certs: accept, ..b@ }),
{
    let ghost v = TlsParamsView { accept_invalid_certs: accept, ..b@ };
    TlsBuilder { builder: b.builder.dangerous_accept_invalid_certs(accept), view: Ghost(v) }
}

/// Calls `TlsParametersBuilder::dangerous_accept_invalid_hostnames`.
#[verifier::external_body]
fn accept_invalid_hostnames(b: TlsBuilder, accept: bool) -> (res: TlsBuilder)
    ensures
        res@ == (TlsParamsView { accept_invalid_hostnames: accept, ..b@ }),
{
    let ghost v = TlsParamsView { accept_invalid_hostnames: accept, ..b@ };
    TlsBuilder { builder: b.builder.dangerous_accept_invalid_hostnames(accept), view: Ghost(v) }
}

/// Calls `TlsParametersBuilder::build`; it sets up the TLS connector from the
/// system's TLS library and trust store, so whether it succeeds is not
/// stated. What it builds carries the settings it was given.
#[verifier::external_body]
fn build_tls_parameters(b: TlsBuilder) -> (res: Result<TlsSettings, lettre::transport::smtp::Error>)
    ensures
        res matches Ok(p) ==> p@ == b@,
{
    let ghost v = b@;
    match b.builder.build() {
        Ok(p) => Ok(TlsSettings { params: p, view: Ghost(v) }),
        Err(e) => Err(e),
    }
}

/// Calls `SmtpTransportBuilder::tls` with `Tls::Required`.
#[verifier::external_body]
fn require_tls(b: TransportBuilder, p: TlsSettings) -> (res: TransportBuilder)
    ensures
        res@ == (TransportView { tls: TlsView::Required(p@), ..b@ }),
{
    let ghost v = TransportView { tls: TlsView::Required(p@), ..b@ };
    TransportBuilder { builder: b.builder.tls(Tls::Required(p.params)), view: Ghost(v) }
}

/// Calls `SmtpTransportBuilder::tls` with `Tls::Wrapper`.
#[verifier::external_body]
fn wrap_tls(b: TransportBuilder, p: TlsSettings) -> (res: TransportBuilder)
    ensures
        res@ == (TransportView { tls: TlsView::Wrapper(p@), ..b@ }),
{
    let ghost v = TransportView { tls: TlsView::Wrapper(p@), ..b@ };
    TransportBuilder { builder: b.builder.tls(Tls::Wrapper(p.params)), view: Ghost(v) }
}

/// Calls `SmtpTransportBuilder::port`.
#[verifier::external_body]
fn set_port(b: TransportBuilder, port: u16) -> (res: TransportBuilder)
    ensures
        res@ == (TransportView { port, ..b@ }),
{
    let ghost v = TransportView { port, ..b@ };
    TransportBuilder { builder: b.builder.port(port), view: Ghost(v) }
}

/// Calls `SmtpTransportBuilder::timeout` with `secs` seconds.
#[verifier::external_body]
fn set_timeout(b: TransportBuilder, secs: u64) -> (res: TransportBuilder)
    ensures
        res@ == (TransportView { timeout_secs: Some(secs), ..b@ }),
{
    let ghost v = TransportView { timeout_secs: Some(secs), ..b@ };
    TransportBuilder { builder: b.builder.timeout(Some(std::time::Duration::from_secs(secs))), view: Ghost(v) }
}

/// Calls `SmtpTransportBuilder::hello_name` with a domain name.
#[verifier::external_body]
fn set_hello_name(b: TransportBuilder, name: String) -> (res: TransportBuilder)
    ensures
        res@ == (TransportView { hello_name: Some(name@), ..b@ }),
{
    let ghost v = TransportView { hello_name: Some(name@), ..b@ };
    TransportBuilder { builder: b.builder.hello_name(ClientId::Domain(name)), view: Ghost(v) }
}

/// Calls `PoolConfig::new` (lettre's default pool).
#[verifier::external_body]
fn pool_config() -> (res: PoolSettings)
    ensures
        res@ == None::<u32>,
{
    PoolSettings { config: PoolConfig::new(), max_size: Ghost(None) }
}

/// Calls `PoolConfig::max_size`.
#[verifier::external_body]
fn pool_max_size(c: PoolSettings, n: u32) -> (res: PoolSettings)
    ensures
        res@ == Some(n),
{
    PoolSettings { config: c.config.max_size(n), max_size: Ghost(Some(n)) }
}

/// Calls `SmtpTransportBuilder::pool_config`.
#[verifier::external_body]
fn set_pool(b: TransportBuilder, c: PoolSettings) -> (res: TransportBuilder)
    ensures
        res@ == (TransportView { pool_max_size: c@, ..b@ }),
{
    let ghost v = TransportView { pool_max_size: c@, ..b@ };
    TransportBuilder { builder: b.builder.pool_config(c.config), view: Ghost(v) }
}

/// Calls `Credentials::new`.
#[verifier::external_body]
fn make_credentials(user: String, password: String) -> (res: Login)
    ensures
        res@ == (user@, password@),
{
    let ghost v = (user@, password@);
    Login { credentials: Credentials::new(user, password), pair: Ghost(v) }
}

/// Calls `SmtpTransportBuilder::credentials`.
#[verifier::external_body]
fn set_credentials(b: TransportBuilder, c: Login) -> (res: TransportBuilder)
    ensures
        res@ == (TransportView { credentials: Some(c@), ..b@ }),
{
    let ghost v = TransportView { credentials: Some(c@), ..b@ };
    TransportBuilder { builder: b.builder.credentials(c.credentials), view: Ghost(v) }
}

/// Calls `SmtpTransportBuilder::authentication` with the one lettre mechanism
/// of the same name (PLAIN or LOGIN); never called with CRAM-MD5, which
/// lettre does not offer.
#[verifier::external_body]
fn set_mechanism(b: TransportBuilder, m: AuthMech) -> (res: TransportBuilder)
    requires
        m != AuthMech::CramMd5,
    ensures
        res@ == (TransportView { mechanisms: Some(seq![m]), ..b@ }),
{
    let ghost v = TransportView { mechanisms: Some(seq![m]), ..b@ };
    let mechanism = match m {
        AuthMech::Login => Mechanism::Login,
        AuthMech::Plain | AuthMech::CramMd5 => Mechanism::Plain,
    };
    TransportBuilder { builder: b.builder.authentication(vec![mechanism]), view: Ghost(v) }
}

/// Calls `SmtpTransportBuilder::build`, which starts the connection pool's
/// clean-up thread; lettre panics if the system cannot start a thread, which
/// no precondition here can rule out. The transport keeps the configuration
/// the builder was given.
#[verifier::external_body]
fn build_smtp(b: TransportBuilder) -> (res: Transport)
    ensures
        res@ == b@,
{
    let ghost v = b@;
    Transport { transport: b.builder.build(), view: Ghost(v) }
}

/// Calls the `Display` of `lettre::transport::smtp::Error`; nothing is
/// stated of the text.
#[verifier::external_body]
fn smtp_error_text(e: &lettre::transport::smtp::Error) -> String {
    e.to_string()
}

/// TLS parameters for the plan's server that accept invalid certificates
/// and host names exactly when the plan says so.
fn tls_parameters(plan: &TransportPlan) -> (res: Result<TlsSettings, String>)
    ensures
        res matches Ok(p) ==> p@ == tls_params_for(plan.server@, plan.accept_invalid_certs),
{
    let b = accept_invalid_hostnames(
        accept_invalid_certs(tls_parameters_builder(plan.server.clone()), plan.accept_invalid_certs),
        plan.accept_invalid_certs,
    );
    match build_tls_parameters(b) {
        Ok(p) => Ok(p),
        Err(e) => Err(smtp_error_text(&e)),
    }
}

/// Builds the SMTP transport a plan describes: the builder its relay kind
/// calls for (TLS parameters first for the TLS kinds), then port, time-out,
/// `EHLO` name and pool size, then the credentials with the one mechanism.
/// A transport that is built carries exactly the planned configuration
/// (`planned_view`). Without TLS it is always built; for the TLS kinds an
/// error holds lettre's reason, and whether the system's TLS setup lets
/// them be built is not stated.
pub fn build_transport(plan: &TransportPlan) -> (res: Result<Transport, String>)
    requires
        plan.credentials is Some ==> plan.mechanism != AuthMech::CramMd5,
    ensures
        plan.relay == Relay::Unencrypted ==> res is Ok,
        res matches Ok(t) ==> t@ == planned_view(*plan),
{
    let base = match plan.relay {
        Relay::Unencrypted => unencrypted_builder(plan.server.as_str()),
        Relay::StartTls => {
            let p = match tls_parameters(plan) {
                Ok(p) => p,
                Err(e) => {
                    return Err(e);
                },
            };
            match starttls_builder(plan.server.as_str()) {
                Ok(b) => require_tls(b, p),
                Err(e) => {
                    return Err(smtp_error_text(&e));
                },
            }
        },
        Relay::Wrapped => {
            let p = match tls_parameters(plan) {
                Ok(p) => p,
                Err(e) => {
                    return Err(e);
                },
            };
            match wrapped_builder(plan.server.as_str()) {
                Ok(b) => wrap_tls(b, p),
                Err(e) => {
                    return Err(smtp_error_text(&e));
                },
            }
        },
    };
    let pool = pool_max_size(pool_config(), plan.pool_max_size);
    let mut b = set_pool(
        set_hello_name(set_timeout(set_port(base, plan.port), plan.timeout_secs), plan.hello_name.clone()),
        pool,
    );
    match &plan.credentials {
        Some((u, p)) => {
            b = set_mechanism(set_credentials(b, make_credentials(u.clone(), p.clone())), plan.mechanism);
        },
        None => {},
    }
    let t = build_smtp(b);
    assert(t@ == planned_view(*plan));
    Ok(t)
}

/// Planning fails only for credentials with CRAM-MD5, which lettre cannot
/// offer: with PLAIN or LOGIN, or without credentials, the plan is made and
/// carries the credentials, the mechanism, the server, port and time-out
/// as given.
pub proof fn lemma_plan_refuses_only_cram_md5(
    server: Seq<char>,
    port: u16,
    tls: TlsMode,
    timeout: u64,
    creds: Option<(String, String)>,
    mech: AuthMech,
    hostname: Option<String>,
    res: Result<TransportPlan, PlanError>,
)
    requires
        plan_outcome(server, port, tls, timeout, creds, mech, hostname, res),
    ensures
        res is Err <==> (creds is Some && mech == AuthMech::CramMd5),
        res matches Err(e) ==> e == PlanError::UnsupportedMechanism,
        (mech == AuthMech::Plain || mech == AuthMech::Login || creds is None) ==> (res matches Ok(p) && {
            &&& p.credentials == creds
            &&& p.mechanism == mech
            &&& p.server@ == server
            &&& p.port == port
            &&& p.timeout_secs == timeout
        }),
{
}

/// The TLS kind a mode plans: none for plain SMTP, STARTTLS for `starttls`,
/// TLS from the first byte for `tls`; one pooled connection and relaxed
/// certificate checks in every case.
pub proof fn lemma_plan_relay(
    server: Seq<char>,
    port: u16,
    tls: TlsMode,
    timeout: u64,
    creds: Option<(String, String)>,
    mech: AuthMech,
    hostname: Option<String>,
    p: TransportPlan,
)
    requires
        plan_outcome(server, port, tls, timeout, creds, mech, hostname, Ok(p)),
    ensures
        tls == TlsMode::Plain ==> p.relay == Relay::Unencrypted,
        tls == TlsMode::StartTls ==> p.relay == Relay::StartTls,
        tls == TlsMode::Tls ==> p.relay == Relay::Wrapped,
        p.pool_max_size == 1,
        p.accept_invalid_certs,
        hostname is None ==> p.hello_name@ == "localhost"@,
        hostname matches Some(h) ==> p.hello_name@ == h@,
{
}

} // verus!
