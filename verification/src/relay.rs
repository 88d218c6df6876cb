//! The request pipeline of the relay: the guard in front of it, the
//! composition of the outbound message, the choice of the delivery channel,
//! and the answers given to the client.

use crate::config::{Smtp, SmtpView, TransportType};
use crate::mail::{
    build_message, build_transport, builder_settings, channel_settings, credentials_of,
    mailbox_display, mailbox_fault, mailbox_of, message_header, parse_mailbox, plain_text,
    starttls_relay, tls_relay, ChannelSettings, Security,
};
use lettre::transport::smtp::authentication::Credentials;
use lettre::transport::smtp::SmtpTransportBuilder;
use lettre::Message;
use lettre::SmtpTransport;
use vstd::prelude::*;
use vstd::string::StringExecFns;
use vstd::string::StringSliceAdditionalSpecFns;

verus! {

/// Why the guard turned a request away.
#[derive(Debug, Clone, Copy, PartialEq, Eq, Structural)]
pub enum Rejection {
    /// The authorization header cannot be read as a bearer credential.
    BadRequest,
    /// No credential was shown, or not the configured one.
    Unauthorized,
}

impl Rejection {
    /// The HTTP status the rejection is answered with.
    pub open spec fn spec_status(self) -> u16 {
        match self {
            Rejection::BadRequest => 400,
            Rejection::Unauthorized => 401,
        }
    }

    /// The HTTP status the rejection is answered with.
    pub fn status(&self) -> (status: u16)
        ensures
            status == self.spec_status(),
    {
        match self {
            Rejection::BadRequest => 400,
            Rejection::Unauthorized => 401,
        }
    }
}

/// The bytes of the scheme an authorization header has to start with.
pub open spec fn scheme() -> Seq<u8> {
    "Bearer".spec_bytes()
}

/// The number of leading bytes of a header that the credential follows: the
/// scheme and one more byte, whatever it is.
pub const PREFIX_LEN: usize = 7;

/// Whether a byte may stand in a header that is read as text: a visible
/// ASCII character, a space or a tab.
pub open spec fn is_visible(byte: u8) -> bool {
    32 <= byte < 127 || byte == 9
}

/// Whether a header value can be read as text.
pub open spec fn is_text(header: Seq<u8>) -> bool {
    forall|i: int| 0 <= i < header.len() ==> is_visible(#[trigger] header[i])
}

/// Whether a header has the shape of a bearer credential: it starts with the
/// scheme and is at least seven bytes long.
pub open spec fn is_bearer(header: Seq<u8>) -> bool {
    scheme().is_prefix_of(header) && header.len() >= PREFIX_LEN
}

/// What the guard decides for a configured token and the authorization header
/// of a request, both as bytes and either of them absent.
pub open spec fn verdict(token: Option<Seq<u8>>, header: Option<Seq<u8>>) -> Result<
    (),
    Rejection,
> {
    match (token, header) {
        (None, _) => Ok(()),
        (Some(_), None) => Err(Rejection::Unauthorized),
        (Some(token), Some(header)) => if !is_text(header) || !is_bearer(header) {
            Err(Rejection::BadRequest)
        } else if header.skip(PREFIX_LEN as int) != token {
            Err(Rejection::Unauthorized)
        } else {
            Ok(())
        },
    }
}

/// The scheme is the six ASCII bytes of the word `Bearer`.
pub proof fn lemma_scheme_bytes()
    ensures
        scheme() == seq![0x42u8, 0x65u8, 0x61u8, 0x72u8, 0x65u8, 0x72u8],
{
    reveal_strlit("Bearer");
    vstd::string::is_ascii_spec_bytes("Bearer");
    assert(scheme() =~= seq![0x42u8, 0x65u8, 0x61u8, 0x72u8, 0x65u8, 0x72u8]);
}

/// The guard lets a request pass exactly when no token is configured, or when
/// the request's header starts with the scheme, is at least seven bytes long
/// and holds the token after its seventh byte. This is stated of the headers
/// that can be read as text; any other header is a bad request.
pub proof fn lemma_guard_opens(token: Option<Seq<u8>>, header: Option<Seq<u8>>)
    requires
        header matches Some(h) ==> is_text(h),
    ensures
        verdict(token, header) is Ok <==> token is None || (token matches Some(t)
            && header matches Some(h) && scheme().is_prefix_of(h) && h.len() >= 7 && h.skip(7)
            == t),
{
}

/// Under a configured token a header of fewer than seven bytes is a bad
/// request whatever it holds: its length is looked at before the token is.
pub proof fn lemma_short_header(token: Seq<u8>, header: Seq<u8>)
    requires
        header.len() < 7,
    ensures
        verdict(Some(token), Some(header)) == Err::<(), Rejection>(Rejection::BadRequest),
{
}

/// The bytes of an optional text.
pub open spec fn text_bytes(text: Option<&str>) -> Option<Seq<u8>> {
    match text {
        Some(text) => Some(text.spec_bytes()),
        None => None,
    }
}

/// The contents of an optional byte slice.
pub open spec fn slice_bytes(bytes: Option<&[u8]>) -> Option<Seq<u8>> {
    match bytes {
        Some(bytes) => Some(bytes@),
        None => None,
    }
}

/// Whether every byte of `header` may stand in a header read as text.
fn decodable(header: &[u8]) -> (yes: bool)
    ensures
        yes == is_text(header@),
{
    let mut i: usize = 0;
    while i < header.len()
        invariant
            i <= header.len(),
            forall|k: int| 0 <= k < i ==> is_visible(#[trigger] header@[k]),
        decreases header.len() - i,
    {
        let byte: u8 = header[i];
        if !(32 <= byte && byte < 127 || byte == 9) {
            return false;
        }
        i += 1;
    }
    true
}

/// Whether `bytes` starts with `prefix`.
fn starts_with(bytes: &[u8], prefix: &[u8]) -> (yes: bool)
    ensures
        yes == prefix@.is_prefix_of(bytes@),
{
    if prefix.len() > bytes.len() {
        return false;
    }
    let mut i: usize = 0;
    while i < prefix.len()
        invariant
            i <= prefix.len() <= bytes.len(),
            forall|k: int| 0 <= k < i ==> prefix@[k] == bytes@[k],
        decreases prefix.len() - i,
    {
        if prefix[i] != bytes[i] {
            assert(bytes@.subrange(0, prefix@.len() as int)[i as int] == bytes@[i as int]);
            return false;
        }
        i += 1;
    }
    assert(prefix@ =~= bytes@.subrange(0, prefix@.len() as int));
    true
}

/// Whether what follows the first `from` bytes of `bytes` is exactly `other`.
fn tail_equals(bytes: &[u8], from: usize, other: &[u8]) -> (yes: bool)
    requires
        from <= bytes.len(),
    ensures
        yes == (bytes@.skip(from as int) == other@),
{
    if bytes.len() - from != other.len() {
        return false;
    }
    let mut i: usize = 0;
    while i < other.len()
        invariant
            from <= bytes.len(),
            bytes.len() - from == other.len(),
            i <= other.len(),
            forall|k: int| 0 <= k < i ==> bytes@[from + k] == other@[k],
        decreases other.len() - i,
    {
        if bytes[from + i] != other[i] {
            assert(bytes@.skip(from as int)[i as int] == bytes@[from + i]);
            return false;
        }
        i += 1;
    }
    assert(bytes@.skip(from as int) =~= other@);
    true
}

/// The guard in front of the relay: it decides from the configured token and
/// the raw value of the request's authorization header whether the request
/// may pass.
///
/// Without a token every request passes. With one, a request without the
/// header is unauthorized; a header that is not text, does not start with
/// `Bearer` or is shorter than seven bytes is a bad request; and what follows
/// the seventh byte has to be the token, byte for byte.
pub fn validate(token: Option<&str>, header: Option<&[u8]>) -> (outcome: Result<(), Rejection>)
    ensures
        outcome == verdict(text_bytes(token), slice_bytes(header)),
{
    let token = match token {
        Some(token) => token,
        None => return Ok(()),
    };
    let auth = match header {
        Some(header) => header,
        None => return Err(Rejection::Unauthorized),
    };
    if !decodable(auth) {
        return Err(Rejection::BadRequest);
    }
    if !starts_with(auth, "Bearer".as_bytes()) || auth.len() < PREFIX_LEN {
        return Err(Rejection::BadRequest);
    }
    if !tail_equals(auth, PREFIX_LEN, token.as_bytes()) {
        return Err(Rejection::Unauthorized);
    }
    Ok(())
}

/// The message a client hands to the relay, as mathematical values.
pub struct RelayMessageView {
    pub from: Seq<char>,
    pub text: Seq<char>,
}

/// The message a client hands to the relay: who it says it is from, and its
/// text. Neither is looked at before the message is composed.
#[derive(Debug, Clone)]
pub struct RelayMessage {
    from: String,
    text: String,
}

impl View for RelayMessage {
    type V = RelayMessageView;

    closed spec fn view(&self) -> RelayMessageView {
        RelayMessageView { from: self.from@, text: self.text@ }
    }
}

impl RelayMessage {
    /// A message from `from` that reads `text`.
    pub fn new(from: String, text: String) -> (msg: RelayMessage)
        ensures
            msg@ == (RelayMessageView { from: from@, text: text@ }),
    {
        RelayMessage { from, text }
    }

    /// The display name the client gave.
    pub fn from(&self) -> (from: &str)
        ensures
            from@ == self@.from,
    {
        self.from.as_str()
    }

    /// The text of the message.
    pub fn text(&self) -> (text: &str)
        ensures
            text@ == self@.text,
    {
        self.text.as_str()
    }
}

/// Why a message was not delivered, each with the words of what went wrong.
#[derive(Debug, Clone, PartialEq, Eq)]
pub enum RelayError {
    /// The sender or the recipient does not make a valid mailbox.
    AddressFormat(String),
    /// The message could not be assembled.
    BodyBuild(String),
    /// The delivery channel could not be prepared.
    TransportInit(String),
    /// The mail server could not be reached or did not take the message.
    Delivery(String),
}

impl RelayError {
    /// The words of what went wrong.
    pub open spec fn spec_detail(self) -> Seq<char> {
        match self {
            RelayError::AddressFormat(detail) => detail@,
            RelayError::BodyBuild(detail) => detail@,
            RelayError::TransportInit(detail) => detail@,
            RelayError::Delivery(detail) => detail@,
        }
    }

    /// The words of what went wrong.
    pub fn detail(&self) -> (detail: &str)
        ensures
            detail@ == self.spec_detail(),
    {
        match self {
            RelayError::AddressFormat(detail) => detail.as_str(),
            RelayError::BodyBuild(detail) => detail.as_str(),
            RelayError::TransportInit(detail) => detail.as_str(),
            RelayError::Delivery(detail) => detail.as_str(),
        }
    }
}

/// The text of a mailbox header: the display name, then the address in
/// angle brackets.
pub open spec fn mailbox_text(name: Seq<char>, address: Seq<char>) -> Seq<char> {
    name + " <"@ + address + ">"@
}

/// The subject of a message that says it is from `from`.
pub open spec fn subject_text(from: Seq<char>) -> Seq<char> {
    "Message received from "@ + from + " via Uketoru"@
}

/// The content type of every email the relay sends: plain text in UTF-8.
pub open spec fn plain_text_type() -> Seq<char> {
    "text/plain; charset=utf-8"@
}

/// What a message of the mail library holds under the four headers that the
/// relay has written, each absent or a text.
pub struct HeadersView {
    pub from: Option<Seq<char>>,
    pub to: Option<Seq<char>>,
    pub subject: Option<Seq<char>>,
    pub content_type: Option<Seq<char>>,
}

/// The four headers of a message.
pub open spec fn headers_of(message: Message) -> HeadersView {
    HeadersView {
        from: message_header(message, "From"@),
        to: message_header(message, "To"@),
        subject: message_header(message, "Subject"@),
        content_type: message_header(message, "Content-Type"@),
    }
}

/// The four headers of a message that is written from the texts of an email:
/// `From` and `To` hold what the mail library writes for the mailboxes it
/// reads out of the sender's and the recipient's text, `Subject` and
/// `Content-Type` hold the subject and the content type as they are.
pub open spec fn written(
    from: Seq<char>,
    to: Seq<char>,
    subject: Seq<char>,
    content_type: Seq<char>,
) -> HeadersView {
    HeadersView {
        from: Some(mailbox_display(mailbox_of(from))),
        to: Some(mailbox_display(mailbox_of(to))),
        subject: Some(subject),
        content_type: Some(content_type),
    }
}

/// An outbound email, as mathematical values: the texts that its sender's
/// and its recipient's mailbox are read from, its subject, its body and its
/// content type, and the headers of the message that it carries.
pub struct OutboundEmailView {
    pub from: Seq<char>,
    pub to: Seq<char>,
    pub subject: Seq<char>,
    pub body: Seq<char>,
    pub content_type: Seq<char>,
    pub headers: HeadersView,
}

/// The email that a client's message makes under the settings of the mail
/// server: it is sent in the client's name from the configured sender, to the
/// configured recipient, with the client's text as its plain-text body, and
/// the message it carries is written from these texts.
pub open spec fn composed(msg: RelayMessageView, client: SmtpView) -> OutboundEmailView {
    OutboundEmailView {
        from: mailbox_text(msg.from, client.address),
        to: mailbox_text(client.name(), client.to()),
        subject: subject_text(msg.from),
        body: msg.text,
        content_type: plain_text_type(),
        headers: written(
            mailbox_text(msg.from, client.address),
            mailbox_text(client.name(), client.to()),
            subject_text(msg.from),
            plain_text_type(),
        ),
    }
}

/// What keeps a client's message from being addressed: the fault of the
/// sender's mailbox, else that of the recipient's, else nothing.
pub open spec fn address_fault(msg: RelayMessageView, client: SmtpView) -> Option<Seq<char>> {
    if mailbox_fault(composed(msg, client).from) is Some {
        mailbox_fault(composed(msg, client).from)
    } else {
        mailbox_fault(composed(msg, client).to)
    }
}

/// A mailbox header holds the display name and the address as they were
/// given: first the name, then, after a space and between angle brackets, the
/// address, and nothing else.
pub proof fn lemma_mailbox_text(name: Seq<char>, address: Seq<char>)
    ensures
        ({
            let text = mailbox_text(name, address);
            let n = name.len() as int;
            let a = address.len() as int;
            &&& text.len() == n + a + 3
            &&& text.subrange(0, n) == name
            &&& text[n] == ' '
            &&& text[n + 1] == '<'
            &&& text.subrange(n + 2, n + 2 + a) == address
            &&& text[n + 2 + a] == '>'
        }),
{
    reveal_strlit(" <");
    reveal_strlit(">");
    let text = mailbox_text(name, address);
    let n = name.len() as int;
    let a = address.len() as int;
    assert(text.subrange(0, n) =~= name);
    assert(text.subrange(n + 2, n + 2 + a) =~= address);
}

/// The email composed for a client's message is from the configured sender
/// under the client's name, and to the configured recipient under the
/// configured display name; where no recipient is set it goes to the sender's
/// address, and where no display name is set it goes to `Uketoru`.
pub proof fn lemma_composed_identities(msg: RelayMessageView, client: SmtpView)
    ensures
        composed(msg, client).from == mailbox_text(msg.from, client.address),
        composed(msg, client).to == mailbox_text(
            match client.name {
                Some(name) => name,
                None => "Uketoru"@,
            },
            match client.to {
                Some(to) => to,
                None => client.address,
            },
        ),
        composed(msg, client).subject == subject_text(msg.from),
        composed(msg, client).body == msg.text,
        composed(msg, client).content_type == "text/plain; charset=utf-8"@,
        composed(msg, client).headers == written(
            composed(msg, client).from,
            composed(msg, client).to,
            composed(msg, client).subject,
            composed(msg, client).content_type,
        ),
{
}

/// An email that is ready to be handed to a delivery channel. It keeps the
/// texts it was assembled from beside the assembled message.
#[derive(Debug)]
pub struct OutboundEmail {
    from: String,
    to: String,
    subject: String,
    body: String,
    content_type: String,
    message: Message,
}

impl View for OutboundEmail {
    type V = OutboundEmailView;

    closed spec fn view(&self) -> OutboundEmailView {
        OutboundEmailView {
            from: self.from@,
            to: self.to@,
            subject: self.subject@,
            body: self.body@,
            content_type: self.content_type@,
            headers: headers_of(self.message),
        }
    }
}

impl OutboundEmail {
    /// The assembled message that the email carries.
    pub closed spec fn spec_message(&self) -> Message {
        self.message
    }

    /// The text that the sender's mailbox was read from. The `From` header
    /// of the message holds what the mail library writes for that mailbox.
    pub fn from(&self) -> (from: &str)
        ensures
            from@ == self@.from,
    {
        self.from.as_str()
    }

    /// The text that the recipient's mailbox was read from. The `To` header
    /// of the message holds what the mail library writes for that mailbox.
    pub fn to(&self) -> (to: &str)
        ensures
            to@ == self@.to,
    {
        self.to.as_str()
    }

    /// The subject line.
    pub fn subject(&self) -> (subject: &str)
        ensures
            subject@ == self@.subject,
    {
        self.subject.as_str()
    }

    /// The text that was handed over as the body.
    pub fn body(&self) -> (body: &str)
        ensures
            body@ == self@.body,
    {
        self.body.as_str()
    }

    /// The content type, in the words of the `Content-Type` header.
    pub fn content_type(&self) -> (content_type: &str)
        ensures
            content_type@ == self@.content_type,
    {
        self.content_type.as_str()
    }

    /// The assembled message, as the delivery channel takes it.
    pub fn message(&self) -> (message: &Message)
        ensures
            *message == self.spec_message(),
            headers_of(*message) == self@.headers,
    {
        &self.message
    }
}

/// Writes a mailbox header: the display name, then the address in angle
/// brackets.
fn mailbox_header(name: &str, address: &str) -> (header: String)
    ensures
        header@ == mailbox_text(name@, address@),
{
    let mut header = String::from_str(name);
    header.append(" <");
    header.append(address);
    header.append(">");
    header
}

/// Writes the subject of a message that says it is from `from`.
fn subject_line(from: &str) -> (subject: String)
    ensures
        subject@ == subject_text(from@),
{
    let mut subject = String::from_str("Message received from ");
    subject.append(from);
    subject.append(" via Uketoru");
    subject
}

/// Closes the composition of an email once the mail library has said whether
/// the message could be assembled from the five texts: the email with these
/// texts and that message where it could, else a failure of the assembly with
/// the library's words.
pub fn assembled(
    from: String,
    to: String,
    subject: String,
    body: String,
    content_type: String,
    built: Result<Message, String>,
) -> (outcome: Result<OutboundEmail, RelayError>)
    ensures
        match built {
            Ok(message) => outcome matches Ok(email) && email.spec_message() == message
                && email@ == (OutboundEmailView {
                from: from@,
                to: to@,
                subject: subject@,
                body: body@,
                content_type: content_type@,
                headers: headers_of(message),
            }),
            Err(detail) => outcome matches Err(RelayError::BodyBuild(words)) && words@ == detail@,
        },
{
    match built {
        Ok(message) => Ok(OutboundEmail { from, to, subject, body, content_type, message }),
        Err(detail) => Err(RelayError::BodyBuild(detail)),
    }
}

/// Composes the outbound email of a client's message.
///
/// The sender is the client's name with the configured address, the recipient
/// the configured name and address with their defaults. Both have to make a
/// valid mailbox, the sender's being looked at first; where one does not, the
/// message fails with the parser's words. The message is then assembled from
/// the two mailboxes, the subject, the client's text and the plain-text
/// content type. Whether the assembly succeeds is the mail library's to say.
pub fn compose(msg: &RelayMessage, client: &Smtp) -> (outcome: Result<OutboundEmail, RelayError>)
    ensures
        match outcome {
            Ok(email) => address_fault(msg@, client@) is None && email@ == composed(
                msg@,
                client@,
            ),
            Err(RelayError::AddressFormat(detail)) => address_fault(msg@, client@) == Some(
                detail@,
            ),
            Err(RelayError::BodyBuild(_)) => address_fault(msg@, client@) is None,
            Err(_) => false,
        },
{
    let from = mailbox_header(msg.from(), client.address());
    let to = mailbox_header(client.name(), client.to());
    let sender = match parse_mailbox(from.as_str()) {
        Ok(sender) => sender,
        Err(detail) => return Err(RelayError::AddressFormat(detail)),
    };
    let recipient = match parse_mailbox(to.as_str()) {
        Ok(recipient) => recipient,
        Err(detail) => return Err(RelayError::AddressFormat(detail)),
    };
    let subject = subject_line(msg.from());
    let body = msg.text.clone();
    let content_type = String::from_str("text/plain; charset=utf-8");
    let built = build_message(sender, recipient, subject.clone(), plain_text(), body.clone());
    assembled(from, to, subject, body, content_type, built)
}

/// How the mail library secures the session that a configured mode asks for.
pub open spec fn security_of(mode: TransportType) -> Security {
    match mode {
        TransportType::TLS => Security::Implicit,
        TransportType::StartTLS => Security::StartTls,
    }
}

/// The channel that the settings of the mail server ask for: it leads to the
/// configured server and port, secures the session as the configured mode
/// says, and logs in with the configured credentials.
pub open spec fn channel_for(client: SmtpView) -> ChannelSettings {
    ChannelSettings {
        host: client.server,
        port: client.port(),
        security: security_of(client.transport),
        credentials: Some(credentials_of(client.login(), client.password)),
    }
}

/// Finishes a delivery channel once the mail library has said whether one
/// could be prepared: where it could, the prepared channel with the port and
/// the credentials set, else a failure of the preparation with the library's
/// words.
pub fn channel(
    prepared: Result<SmtpTransportBuilder, String>,
    port: u16,
    credentials: Credentials,
) -> (outcome: Result<SmtpTransport, RelayError>)
    ensures
        match prepared {
            Ok(builder) => outcome matches Ok(transport) && channel_settings(transport) == (
            ChannelSettings {
                host: builder_settings(builder).host,
                port,
                security: builder_settings(builder).security,
                credentials: Some(credentials),
            }),
            Err(detail) => outcome matches Err(RelayError::TransportInit(words)) && words@
                == detail@,
        },
{
    match prepared {
        Ok(builder) => Ok(build_transport(builder, port, credentials)),
        Err(detail) => Err(RelayError::TransportInit(detail)),
    }
}

/// Prepares the delivery channel that the settings ask for.
///
/// The channel is encrypted from the start or upgraded by STARTTLS, as the
/// configured mode says; it leads to the configured server and port and logs
/// in with the configured credentials. No connection is made here. Whether
/// the channel can be prepared on this machine is the mail library's to say.
pub fn connect(client: &Smtp) -> (outcome: Result<SmtpTransport, RelayError>)
    ensures
        match outcome {
            Ok(transport) => channel_settings(transport) == channel_for(client@),
            Err(fault) => fault is TransportInit,
        },
{
    let prepared = match client.transport() {
        TransportType::TLS => tls_relay(client.server()),
        TransportType::StartTLS => starttls_relay(client.server()),
    };
    channel(prepared, client.port(), client.credentials())
}

/// An email with its channel, as mathematical values.
pub struct DispatchView {
    pub email: OutboundEmailView,
    pub channel: ChannelSettings,
}

/// An email together with the channel that is to deliver it.
#[derive(Debug)]
pub struct Dispatch {
    email: OutboundEmail,
    transport: SmtpTransport,
}

impl View for Dispatch {
    type V = DispatchView;

    closed spec fn view(&self) -> DispatchView {
        DispatchView { email: self.email@, channel: channel_settings(self.transport) }
    }
}

impl Dispatch {
    /// The email to deliver.
    pub closed spec fn spec_email(&self) -> OutboundEmail {
        self.email
    }

    /// The channel to deliver it through.
    pub closed spec fn spec_transport(&self) -> SmtpTransport {
        self.transport
    }

    /// The email to deliver.
    pub fn email(&self) -> (email: &OutboundEmail)
        ensures
            *email == self.spec_email(),
            email@ == self@.email,
    {
        &self.email
    }

    /// The channel to deliver it through.
    pub fn transport(&self) -> (transport: &SmtpTransport)
        ensures
            *transport == self.spec_transport(),
            channel_settings(*transport) == self@.channel,
    {
        &self.transport
    }
}

/// Takes a client's message up to the point of delivery: composes the email,
/// then prepares the channel.
///
/// A message that cannot be addressed fails before a channel is prepared.
/// What is returned is the composed email, with its message written from it,
/// and the channel that the settings ask for. It has not been sent: one call
/// of the channel's `send` on the email's message makes the one delivery
/// attempt of the request.
pub fn message(msg: &RelayMessage, client: &Smtp) -> (outcome: Result<Dispatch, RelayError>)
    ensures
        match outcome {
            Ok(dispatch) => {
                &&& address_fault(msg@, client@) is None
                &&& dispatch@ == (DispatchView {
                    email: composed(msg@, client@),
                    channel: channel_for(client@),
                })
            },
            Err(RelayError::AddressFormat(detail)) => address_fault(msg@, client@) == Some(
                detail@,
            ),
            Err(RelayError::BodyBuild(_)) => address_fault(msg@, client@) is None,
            Err(RelayError::TransportInit(_)) => address_fault(msg@, client@) is None,
            Err(RelayError::Delivery(_)) => false,
        },
{
    let email = match compose(msg, client) {
        Ok(email) => email,
        Err(fault) => return Err(fault),
    };
    match connect(client) {
        Ok(transport) => Ok(Dispatch { email, transport }),
        Err(fault) => Err(fault),
    }
}

/// What became of a request after its one delivery attempt: it is done where
/// the mail server took the message, else it failed in delivery with the
/// words of the channel's error. Nothing is tried again.
pub fn delivered(sent: Result<(), String>) -> (outcome: Result<(), RelayError>)
    ensures
        match sent {
            Ok(_) => outcome is Ok,
            Err(detail) => outcome matches Err(RelayError::Delivery(words)) && words@ == detail@,
        },
{
    match sent {
        Ok(_) => Ok(()),
        Err(detail) => Err(RelayError::Delivery(detail)),
    }
}

/// An answer to the client: an HTTP status and a plain-text body.
#[derive(Debug, Clone, PartialEq, Eq)]
pub struct Reply {
    /// The HTTP status code.
    pub status: u16,
    /// The body, empty where there is nothing to say.
    pub body: String,
}

/// The answer to a request that the relay does not serve: status 404 and the
/// words `Not Found`.
pub fn default() -> (reply: Reply)
    ensures
        reply.status == 404,
        reply.body@ == "Not Found"@,
{
    Reply { status: 404, body: String::from_str("Not Found") }
}

/// The body that tells the client of a failure.
pub open spec fn failure_text(detail: Seq<char>) -> Seq<char> {
    "Internal Error: "@ + detail
}

/// The answer to a request whose message was handed to the mail server, or
/// was not: status 200 and an empty body where the server took it, else
/// status 500 and the words of what went wrong after `Internal Error: `.
pub fn respond(outcome: Result<(), RelayError>) -> (reply: Reply)
    ensures
        match outcome {
            Ok(_) => reply.status == 200 && reply.body@ == Seq::<char>::empty(),
            Err(fault) => reply.status == 500 && reply.body@ == failure_text(fault.spec_detail()),
        },
{
    match outcome {
        Ok(_) => Reply { status: 200, body: String::new() },
        Err(fault) => {
            let mut body = String::from_str("Internal Error: ");
            body.append(fault.detail());
            Reply { status: 500, body }
        },
    }
}

} // verus!
