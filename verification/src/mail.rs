//! The boundary to the mail library.
//!
//! Everything the relay has from `lettre` passes through this file: the
//! declarations of its types, names for what its values hold, and one small
//! function around each call. Verus takes the contracts written here on
//! trust; each says no more than the library's source shows.

use lettre::message::header::ContentType;
use lettre::message::Mailbox;
use lettre::transport::smtp::authentication::Credentials;
use lettre::transport::smtp::SmtpTransportBuilder;
use lettre::Message;
use lettre::SmtpTransport;
use vstd::prelude::*;

verus! {

/// The credentials of `lettre`, a login name and its secret, opaque to proofs.
#[verifier::external_type_specification]
#[verifier::external_body]
pub struct ExCredentials(lettre::transport::smtp::authentication::Credentials);

/// A parsed mailbox of `lettre`, a display name and an address, opaque to proofs.
#[verifier::external_type_specification]
#[verifier::external_body]
pub struct ExMailbox(lettre::message::Mailbox);

/// An assembled email of `lettre`, opaque to proofs.
#[verifier::external_type_specification]
#[verifier::external_body]
pub struct ExMessage(lettre::Message);

/// The content type of a message body, opaque to proofs.
#[verifier::external_type_specification]
#[verifier::external_body]
pub struct ExContentType(lettre::message::header::ContentType);

/// The settings of an SMTP channel that is not built yet, opaque to proofs.
#[verifier::external_type_specification]
#[verifier::external_body]
pub struct ExSmtpTransportBuilder(lettre::transport::smtp::SmtpTransportBuilder);

/// An SMTP channel of `lettre` that is ready to send, opaque to proofs.
#[verifier::external_type_specification]
#[verifier::external_body]
pub struct ExSmtpTransport(lettre::SmtpTransport);

/// How `lettre` secures the session of a channel: the four variants of its
/// `Tls`, without the TLS parameters that three of them carry.
pub enum Security {
    /// `Tls::None`: the session stays in cleartext.
    Cleartext,
    /// `Tls::Opportunistic`: the session is upgraded by STARTTLS where the
    /// server offers it.
    Opportunistic,
    /// `Tls::Required`: the session starts in cleartext and has to be
    /// upgraded by STARTTLS.
    StartTls,
    /// `Tls::Wrapper`: the session is encrypted from the first byte on.
    Implicit,
}

/// Four of the settings that `lettre` keeps of a channel: the server it leads
/// to, the port, how the session is secured, and what it logs in with.
pub struct ChannelSettings {
    /// The name of the server, `server` in `lettre`.
    pub host: Seq<char>,
    /// The port that is connected to.
    pub port: u16,
    /// How the session is secured, `tls` in `lettre`.
    pub security: Security,
    /// What the channel logs in with, if anything.
    pub credentials: Option<Credentials>,
}

/// The credentials that `Credentials::new` makes of a login name and a secret.
pub uninterp spec fn credentials_of(login: Seq<char>, secret: Seq<char>) -> Credentials;

/// What the `FromStr` of `Mailbox` makes of a text that should be a mailbox,
/// such as `Name <user@example.org>`: the mailbox where the text parses, else
/// the words of the parser's error.
pub uninterp spec fn mailbox_parsed(text: Seq<char>) -> Result<Mailbox, Seq<char>>;

/// What the `Display` of a mailbox writes: the text that stands for it in a
/// header of a message.
pub uninterp spec fn mailbox_display(mailbox: Mailbox) -> Seq<char>;

/// What a content type reads as in the `Content-Type` header of a message.
pub uninterp spec fn content_type_text(kind: ContentType) -> Seq<char>;

/// What a message holds under the name of a header: the value that
/// `Headers::get_raw` gives for the name, before any encoding for the wire.
pub uninterp spec fn message_header(message: Message, name: Seq<char>) -> Option<Seq<char>>;

/// The settings that a channel which is not built yet holds: the fields
/// `server`, `port`, `tls` and `credentials` that the builder keeps.
pub uninterp spec fn builder_settings(builder: SmtpTransportBuilder) -> ChannelSettings;

/// The settings that a built channel connects with: the same four fields,
/// as `build` took them over from the builder.
pub uninterp spec fn channel_settings(transport: SmtpTransport) -> ChannelSettings;

/// What `lettre` finds wrong with a text that should be a mailbox: `None`
/// where the text parses, else the words of the parser's error.
pub open spec fn mailbox_fault(text: Seq<char>) -> Option<Seq<char>> {
    match mailbox_parsed(text) {
        Ok(_) => None,
        Err(words) => Some(words),
    }
}

/// The mailbox that `lettre` reads out of a text that parses.
pub open spec fn mailbox_of(text: Seq<char>) -> Mailbox
    recommends
        mailbox_parsed(text) is Ok,
{
    mailbox_parsed(text)->Ok_0
}

/// Calls `Credentials::new`, which stores the two texts as they are: the
/// result is determined by them alone.
#[verifier::external_body]
pub(crate) fn new_credentials(login: String, secret: String) -> (credentials: Credentials)
    ensures
        credentials == credentials_of(login@, secret@),
{
    Credentials::new(login, secret)
}

/// Calls the `FromStr` of `Mailbox`, a parser that reads nothing but its
/// argument, and hands on a failure in the words that the `Display` of its
/// error gives: the mailbox that comes back, or these words, are determined
/// by the text alone.
#[verifier::external_body]
pub(crate) fn parse_mailbox(text: &str) -> (parsed: Result<Mailbox, String>)
    ensures
        match parsed {
            Ok(mailbox) => mailbox_parsed(text@) == Ok::<Mailbox, Seq<char>>(mailbox),
            Err(fault) => mailbox_parsed(text@) == Err::<Mailbox, Seq<char>>(fault@),
        },
{
    match text.parse::<Mailbox>() {
        Ok(mailbox) => Ok(mailbox),
        Err(fault) => Err(fault.to_string()),
    }
}

/// Hands out `ContentType::TEXT_PLAIN`, which `lettre` documents as the type
/// `text/plain; charset=utf-8` and writes into a header in these words.
#[verifier::external_body]
pub(crate) fn plain_text() -> (kind: ContentType)
    ensures
        content_type_text(kind) == "text/plain; charset=utf-8"@,
{
    ContentType::TEXT_PLAIN
}

/// Calls the builder of `Message` with one sender, one recipient, a subject,
/// a content type and a body: `builder`, `from`, `to`, `subject`, `header`
/// and `body`. Each of the first four is kept under its header as the builder
/// got it, a mailbox in the text that its `Display` writes. The builder
/// stamps the message with the current date and picks an encoding for the
/// body, so nothing is claimed of either, nor that the assembly succeeds; a
/// failure is handed on in the words of the builder's error.
#[verifier::external_body]
pub(crate) fn build_message(
    from: Mailbox,
    to: Mailbox,
    subject: String,
    kind: ContentType,
    body: String,
) -> (built: Result<Message, String>)
    ensures
        built matches Ok(message) ==> {
            &&& message_header(message, "From"@) == Some(mailbox_display(from))
            &&& message_header(message, "To"@) == Some(mailbox_display(to))
            &&& message_header(message, "Subject"@) == Some(subject@)
            &&& message_header(message, "Content-Type"@) == Some(content_type_text(kind))
        },
{
    match Message::builder().from(from).to(to).subject(subject).header(kind).body(body) {
        Ok(message) => Ok(message),
        Err(fault) => Err(fault.to_string()),
    }
}

/// Calls `SmtpTransport::relay`, which prepares a channel to the given server
/// that is encrypted from the start (`Tls::Wrapper`). It sets up the TLS
/// context of this machine and may fail there, so it is not claimed that a
/// channel comes back; a failure is handed on in the words of the library's
/// error.
#[verifier::external_body]
pub(crate) fn tls_relay(host: &str) -> (prepared: Result<SmtpTransportBuilder, String>)
    ensures
        prepared matches Ok(builder) ==> {
            &&& builder_settings(builder).host == host@
            &&& builder_settings(builder).security == Security::Implicit
        },
{
    match SmtpTransport::relay(host) {
        Ok(builder) => Ok(builder),
        Err(fault) => Err(fault.to_string()),
    }
}

/// Calls `SmtpTransport::starttls_relay`, which prepares a channel to the
/// given server that starts in cleartext and has to be upgraded by STARTTLS
/// (`Tls::Required`). It sets up the TLS context of this machine and may fail
/// there, so it is not claimed that a channel comes back; a failure is handed
/// on in the words of the library's error.
#[verifier::external_body]
pub(crate) fn starttls_relay(host: &str) -> (prepared: Result<SmtpTransportBuilder, String>)
    ensures
        prepared matches Ok(builder) ==> {
            &&& builder_settings(builder).host == host@
            &&& builder_settings(builder).security == Security::StartTls
        },
{
    match SmtpTransport::starttls_relay(host) {
        Ok(builder) => Ok(builder),
        Err(fault) => Err(fault.to_string()),
    }
}

/// Sets the port and the credentials of a prepared channel and builds it,
/// through `port`, `credentials` and `build` of the builder: the first two
/// overwrite one setting each, the third keeps all of them. The channel
/// connects when it is first asked to send.
#[verifier::external_body]
pub(crate) fn build_transport(
    builder: SmtpTransportBuilder,
    port: u16,
    credentials: Credentials,
) -> (transport: SmtpTransport)
    ensures
        channel_settings(transport) == (ChannelSettings {
            host: builder_settings(builder).host,
            port,
            security: builder_settings(builder).security,
            credentials: Some(credentials),
        }),
{
    builder.port(port).credentials(credentials).build()
}

} // verus!
