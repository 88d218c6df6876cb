//! Settings of the relay and of the mail-submission server it forwards to.
//!
//! The settings are built once and only read afterwards: the types offer
//! constructors and getters, and no way to change a value.

use crate::mail::{credentials_of, new_credentials};
use lettre::transport::smtp::authentication::Credentials;
use vstd::prelude::*;

verus! {

/// The view of an optional text.
pub open spec fn text_of(text: Option<String>) -> Option<Seq<char>> {
    match text {
        Some(s) => Some(s@),
        None => None,
    }
}

/// How the session with the mail server is secured.
#[allow(clippy::upper_case_acronyms)]
#[derive(Debug, Clone, Copy, PartialEq, Eq, Structural)]
pub enum TransportType {
    /// The session is encrypted from the first byte on.
    TLS,
    /// The session starts in cleartext and is upgraded by STARTTLS.
    StartTLS,
}

impl Default for TransportType {
    /// A session that is encrypted from the start.
    fn default() -> (mode: Self)
        ensures
            mode == TransportType::TLS,
    {
        TransportType::TLS
    }
}

/// The settings of the mail server, as mathematical values.
pub struct SmtpView {
    pub transport: TransportType,
    pub address: Seq<char>,
    pub to: Option<Seq<char>>,
    pub name: Option<Seq<char>>,
    pub username: Option<Seq<char>>,
    pub password: Seq<char>,
    pub server: Seq<char>,
    pub port: Option<u16>,
}

impl SmtpView {
    /// The port the mail server is reached at: 25 unless one is set.
    pub open spec fn port(self) -> u16 {
        match self.port {
            Some(port) => port,
            None => 25,
        }
    }

    /// The address mail is sent to: the sender's own unless one is set.
    pub open spec fn to(self) -> Seq<char> {
        match self.to {
            Some(to) => to,
            None => self.address,
        }
    }

    /// The display name of the recipient: `Uketoru` unless one is set.
    pub open spec fn name(self) -> Seq<char> {
        match self.name {
            Some(name) => name,
            None => "Uketoru"@,
        }
    }

    /// The name the relay logs in with: the sender's address unless one is set.
    pub open spec fn login(self) -> Seq<char> {
        match self.username {
            Some(username) => username,
            None => self.address,
        }
    }
}

/// The mail-submission server and the identities mail is sent under.
#[derive(Debug, Clone)]
pub struct Smtp {
    transport: TransportType,
    address: String,
    to: Option<String>,
    name: Option<String>,
    username: Option<String>,
    password: String,
    server: String,
    port: Option<u16>,
}

impl View for Smtp {
    type V = SmtpView;

    closed spec fn view(&self) -> SmtpView {
        SmtpView {
            transport: self.transport,
            address: self.address@,
            to: text_of(self.to),
            name: text_of(self.name),
            username: text_of(self.username),
            password: self.password@,
            server: self.server@,
            port: self.port,
        }
    }
}

impl Smtp {
    /// Settings with every field given; `None` leaves a field to its default.
    pub fn new(
        transport: TransportType,
        address: String,
        to: Option<String>,
        name: Option<String>,
        username: Option<String>,
        password: String,
        server: String,
        port: Option<u16>,
    ) -> (smtp: Smtp)
        ensures
            smtp@ == (SmtpView {
                transport,
                address: address@,
                to: text_of(to),
                name: text_of(name),
                username: text_of(username),
                password: password@,
                server: server@,
                port,
            }),
    {
        Smtp { transport, address, to, name, username, password, server, port }
    }

    /// How the session with the mail server is secured.
    pub fn transport(&self) -> (mode: &TransportType)
        ensures
            *mode == self@.transport,
    {
        &self.transport
    }

    /// The credentials the relay logs in with: the user name, or the sender's
    /// address where none is set, and the password.
    pub fn credentials(&self) -> (credentials: Credentials)
        ensures
            credentials == credentials_of(self@.login(), self@.password),
    {
        match &self.username {
            Some(username) => new_credentials(username.clone(), self.password.clone()),
            None => new_credentials(self.address.clone(), self.password.clone()),
        }
    }

    /// The host name of the mail server.
    pub fn server(&self) -> (host: &str)
        ensures
            host@ == self@.server,
    {
        self.server.as_str()
    }

    /// The port of the mail server, 25 where none is set.
    pub fn port(&self) -> (port: u16)
        ensures
            port == self@.port(),
    {
        match self.port {
            Some(port) => port,
            None => 25,
        }
    }

    /// The address mail is sent from.
    pub fn address(&self) -> (address: &str)
        ensures
            address@ == self@.address,
    {
        self.address.as_str()
    }

    /// The address mail is sent to, the sender's own where none is set.
    pub fn to(&self) -> (to: &str)
        ensures
            to@ == self@.to(),
    {
        match &self.to {
            Some(to) => to.as_str(),
            None => self.address.as_str(),
        }
    }

    /// The display name of the recipient, `Uketoru` where none is set.
    pub fn name(&self) -> (name: &str)
        ensures
            name@ == self@.name(),
    {
        match &self.name {
            Some(name) => name.as_str(),
            None => "Uketoru",
        }
    }
}

/// The settings of the relay itself, as mathematical values.
pub struct RelayView {
    pub listen: Option<Seq<char>>,
    pub token: Option<Seq<char>>,
}

impl RelayView {
    /// The socket address the relay listens on: `0.0.0.0:3000` unless one is set.
    pub open spec fn listen_addr(self) -> Seq<char> {
        match self.listen {
            Some(listen) => listen,
            None => "0.0.0.0:3000"@,
        }
    }
}

/// Where the relay listens and which token, if any, a request has to show.
#[derive(Debug, Clone)]
pub struct Relay {
    listen: Option<String>,
    token: Option<String>,
}

impl View for Relay {
    type V = RelayView;

    closed spec fn view(&self) -> RelayView {
        RelayView { listen: text_of(self.listen), token: text_of(self.token) }
    }
}

impl Relay {
    /// Settings with both fields given; `None` leaves a field unset.
    pub fn new(listen: Option<String>, token: Option<String>) -> (relay: Relay)
        ensures
            relay@ == (RelayView { listen: text_of(listen), token: text_of(token) }),
    {
        Relay { listen, token }
    }

    /// The token a request has to show; `None` leaves the relay open.
    pub fn token(&self) -> (token: Option<&str>)
        ensures
            token is Some <==> self@.token is Some,
            token matches Some(t) ==> t@ == self@.token->0,
    {
        match &self.token {
            Some(token) => Some(token.as_str()),
            None => None,
        }
    }

    /// The socket address the relay listens on, `0.0.0.0:3000` where none is set.
    pub fn listen_addr(&self) -> (address: &str)
        ensures
            address@ == self@.listen_addr(),
    {
        match &self.listen {
            Some(listen) => listen.as_str(),
            None => "0.0.0.0:3000",
        }
    }
}

/// The whole configuration, as mathematical values.
pub struct ConfigView {
    pub relay: RelayView,
    pub smtp: SmtpView,
}

/// The configuration a relay is started with.
#[derive(Debug, Clone)]
pub struct Config {
    relay: Relay,
    smtp: Smtp,
}

impl View for Config {
    type V = ConfigView;

    closed spec fn view(&self) -> ConfigView {
        ConfigView { relay: self.relay@, smtp: self.smtp@ }
    }
}

impl Config {
    /// A configuration made of its two sections.
    pub fn new(relay: Relay, smtp: Smtp) -> (config: Config)
        ensures
            config@ == (ConfigView { relay: relay@, smtp: smtp@ }),
    {
        Config { relay, smtp }
    }

    /// The settings of the mail server.
    pub fn client(&self) -> (smtp: &Smtp)
        ensures
            smtp@ == self@.smtp,
    {
        &self.smtp
    }

    /// The settings of the relay itself.
    pub fn relay(&self) -> (relay: &Relay)
        ensures
            relay@ == self@.relay,
    {
        &self.relay
    }
}

} // verus!
