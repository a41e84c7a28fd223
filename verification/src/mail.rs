//! Email addresses, messages and the connection to an SMTP server, by way of
//! `lettre`.
use lettre::message::header::ContentType;
use lettre::message::MessageBuilder;
use lettre::transport::smtp::authentication::Credentials;
use lettre::transport::smtp::client::{Tls, TlsParameters, TlsParametersBuilder};
use lettre::transport::smtp::AsyncSmtpTransportBuilder;
use vstd::prelude::*;

use crate::text;

verus! {

/// An email address, `user@domain`.
#[derive(Debug, PartialEq, Eq)]
pub struct Address<S> {
    pub user: S,
    pub domain: S,
}

/// An email address with the name of whom it belongs to, where one is given.
#[derive(Debug, PartialEq, Eq)]
pub struct Mailbox<S> {
    pub name: Option<S>,
    pub address: Address<S>,
}

/// A message ready to be sent: its envelope, and its text as it goes over the wire.
#[derive(Debug, PartialEq, Eq)]
pub struct Email {
    pub sender: Option<Address<String>>,
    pub recipients: Vec<Address<String>>,
    pub content: Vec<u8>,
}

/// A message ready to be sent, over sequences.
pub struct EmailView {
    pub sender: Option<Address<Seq<char>>>,
    pub recipients: Seq<Address<Seq<char>>>,
    pub content: Seq<u8>,
}

impl View for Address<String> {
    type V = Address<Seq<char>>;

    open spec fn view(&self) -> Address<Seq<char>> {
        Address { user: self.user@, domain: self.domain@ }
    }
}

impl View for Mailbox<String> {
    type V = Mailbox<Seq<char>>;

    open spec fn view(&self) -> Mailbox<Seq<char>> {
        Mailbox { name: text::content(self.name), address: self.address@ }
    }
}

impl View for Email {
    type V = EmailView;

    open spec fn view(&self) -> EmailView {
        EmailView {
            sender: match self.sender {
                Some(sender) => Some(sender@),
                None => None,
            },
            recipients: Seq::new(self.recipients@.len(), |i: int| self.recipients@[i]@),
            content: self.content@,
        }
    }
}

/// What a list of mailboxes holds.
pub open spec fn mailboxes(list: Seq<Mailbox<String>>) -> Seq<Mailbox<Seq<char>>> {
    Seq::new(list.len(), |i: int| list[i]@)
}

/// What an attempt at reading a mailbox came to.
pub open spec fn reading(r: Result<Mailbox<String>, String>) -> Result<
    Mailbox<Seq<char>>,
    Seq<char>,
> {
    match r {
        Ok(mailbox) => Ok(mailbox@),
        Err(cause) => Err(cause@),
    }
}

/// What an attempt at composing a message came to.
pub open spec fn composition(r: Result<Email, String>) -> Result<EmailView, Seq<char>> {
    match r {
        Ok(email) => Ok(email@),
        Err(cause) => Err(cause@),
    }
}

/// Whether a mailbox can stand in a header: its name is on one line.
pub open spec fn fits_a_header(mailbox: Mailbox<Seq<char>>) -> bool {
    mailbox.name matches Some(name) ==> !name.contains('\n') && !name.contains('\r')
}

/// Whether every mailbox of a list can stand in a header.
pub open spec fn all_fit(list: Seq<Mailbox<Seq<char>>>) -> bool {
    forall|i: int| 0 <= i < list.len() ==> fits_a_header(#[trigger] list[i])
}

/// What `lettre` reads in a string that is to be a mailbox, or what it says is
/// wrong with it.
pub uninterp spec fn mailbox_of(s: Seq<char>) -> Result<Mailbox<Seq<char>>, Seq<char>>;

/// A header that a message builder is given.
pub enum Header {
    From(Mailbox<Seq<char>>),
    Subject(Seq<char>),
    To(Mailbox<Seq<char>>),
    /// That the text is plain text in UTF-8.
    PlainText,
}

/// The headers of a letter: the sender, the subject, each recipient in order, and
/// that the text is plain.
pub open spec fn letter(
    from: Mailbox<Seq<char>>,
    to: Seq<Mailbox<Seq<char>>>,
    subject: Seq<char>,
) -> Seq<Header> {
    addressed(from, to, subject).push(Header::PlainText)
}

/// The headers of a letter as far as the recipients.
pub open spec fn addressed(
    from: Mailbox<Seq<char>>,
    to: Seq<Mailbox<Seq<char>>>,
    subject: Seq<char>,
) -> Seq<Header> {
    seq![Header::From(from), Header::Subject(subject)] + to.map_values(
        |mailbox: Mailbox<Seq<char>>| Header::To(mailbox),
    )
}

/// Whether a message builder is what comes of giving a new one these headers, one
/// after the other.
pub uninterp spec fn is_given(
    builder: lettre::message::MessageBuilder,
    headers: Seq<Header>,
) -> bool;

/// What `lettre` makes of headers and a text, with the value of the `Date` header: a
/// message, or what it says is wrong.
pub uninterp spec fn message_of(
    headers: Seq<Header>,
    body: Seq<char>,
    date: Seq<char>,
) -> Result<EmailView, Seq<char>>;

/// Whether a mailbox is nothing but an address, and `lettre` reads that address as
/// this mailbox.
pub open spec fn is_plain(mailbox: Mailbox<Seq<char>>) -> bool {
    &&& mailbox.name is None
    &&& mailbox_of(mailbox.address.user + "@"@ + mailbox.address.domain) == Ok::<
        Mailbox<Seq<char>>,
        Seq<char>,
    >(mailbox)
}

/// Whether every mailbox of a list is nothing but an address.
pub open spec fn all_plain(list: Seq<Mailbox<Seq<char>>>) -> bool {
    forall|i: int| 0 <= i < list.len() ==> is_plain(#[trigger] list[i])
}

/// The addresses of a list of mailboxes.
pub open spec fn addresses(list: Seq<Mailbox<Seq<char>>>) -> Seq<Address<Seq<char>>> {
    Seq::new(list.len(), |i: int| list[i].address)
}

/// Calls `<lettre::message::Mailbox as FromStr>::from_str`. What it reads, and what
/// its error says, depends on the string alone. Its grammar has no line break in a
/// name: not in a word, not in a quoted string, and not behind a backslash.
#[verifier::external_body]
pub(crate) fn parse_mailbox(s: &str) -> (r: Result<Mailbox<String>, String>)
    ensures
        reading(r) == mailbox_of(s@),
        r matches Ok(mailbox) ==> fits_a_header(mailbox@),
{
    match s.parse::<lettre::message::Mailbox>() {
        Ok(m) => Ok(
            Mailbox {
                address: Address {
                    user: m.email.user().to_owned(),
                    domain: m.email.domain().to_owned(),
                },
                name: m.name,
            },
        ),
        Err(e) => Err(e.to_string()),
    }
}

/// A message as it is put together.
#[verifier::external_type_specification]
#[verifier::external_body]
pub struct ExMessageBuilder(lettre::message::MessageBuilder);

/// `Message::builder` has no headers yet.
pub assume_specification[ lettre::Message::builder ]() -> (r: lettre::message::MessageBuilder)
    ensures
        is_given(r, Seq::empty()),
;

/// Calls `MessageBuilder::from`, which adds one header. It panics on a name with a
/// line break, which the precondition leaves out.
#[verifier::external_body]
fn write_from(builder: MessageBuilder, from: &Mailbox<String>) -> (r: MessageBuilder)
    requires
        fits_a_header(from@),
    ensures
        forall|headers: Seq<Header>| #[trigger]
            is_given(builder, headers) ==> is_given(r, headers.push(Header::From(from@))),
{
    let email = lettre::Address::new_dangerous(&from.address.user, &from.address.domain);
    builder.from(lettre::message::Mailbox::new(from.name.clone(), email))
}

/// Calls `MessageBuilder::subject`, which adds one header.
#[verifier::external_body]
fn write_subject(builder: MessageBuilder, subject: String) -> (r: MessageBuilder)
    ensures
        forall|headers: Seq<Header>| #[trigger]
            is_given(builder, headers) ==> is_given(r, headers.push(Header::Subject(subject@))),
{
    builder.subject(subject)
}

/// Calls `MessageBuilder::to`, which adds one recipient. It panics on a name with a
/// line break, which the precondition leaves out.
#[verifier::external_body]
fn write_to(builder: MessageBuilder, to: &Mailbox<String>) -> (r: MessageBuilder)
    requires
        fits_a_header(to@),
    ensures
        forall|headers: Seq<Header>| #[trigger]
            is_given(builder, headers) ==> is_given(r, headers.push(Header::To(to@))),
{
    let email = lettre::Address::new_dangerous(&to.address.user, &to.address.domain);
    builder.to(lettre::message::Mailbox::new(to.name.clone(), email))
}

/// Calls `MessageBuilder::header` with `ContentType::TEXT_PLAIN`.
#[verifier::external_body]
fn write_plain_text(builder: MessageBuilder) -> (r: MessageBuilder)
    ensures
        forall|headers: Seq<Header>| #[trigger]
            is_given(builder, headers) ==> is_given(r, headers.push(Header::PlainText)),
{
    builder.header(ContentType::TEXT_PLAIN)
}

/// Calls `MessageBuilder::body`, and takes the envelope and the text out of the
/// message. The builder adds the current time as the date; besides that the message
/// depends on the headers and the text alone. The builder keeps mailboxes as the text
/// of a header and reads that text again, so addresses are sure to come through where
/// the text is nothing but addresses: then there is a message, from the sender and to
/// each recipient in order. It panics where a header asks for an encoding that the
/// text cannot have, which the precondition leaves out: none of the headers does.
#[verifier::external_body]
fn write_body(builder: MessageBuilder, body: String) -> (r: Result<Email, String>)
    requires
        exists|headers: Seq<Header>| is_given(builder, headers),
    ensures
        forall|headers: Seq<Header>| #[trigger]
            is_given(builder, headers) ==> exists|date: Seq<char>|
                composition(r) == #[trigger] message_of(headers, body@, date),
        forall|from: Mailbox<Seq<char>>, to: Seq<Mailbox<Seq<char>>>, subject: Seq<char>|
            #![trigger is_given(builder, letter(from, to, subject))]
            is_given(builder, letter(from, to, subject)) && to.len() > 0 && is_plain(from)
                && all_plain(to) ==> r is Ok && r->Ok_0@.sender == Some(from.address)
                && r->Ok_0@.recipients == addresses(to),
{
    let inside = |a: &lettre::Address| {
        Address { user: a.user().to_owned(), domain: a.domain().to_owned() }
    };
    let message = builder.body(body).map_err(|e| e.to_string())?;
    let sender = message.envelope().from().map(inside);
    let recipients = message.envelope().to().iter().map(inside).collect();
    Ok(Email { sender, recipients, content: message.formatted() })
}

/// Composes a message in plain text, from the sender to each of the recipients.
pub(crate) fn compose(
    from: &Mailbox<String>,
    to: &Vec<Mailbox<String>>,
    subject: String,
    body: String,
) -> (r: Result<Email, String>)
    requires
        fits_a_header(from@),
        all_fit(mailboxes(to@)),
    ensures
        exists|date: Seq<char>|
            composition(r) == #[trigger] message_of(
                letter(from@, mailboxes(to@), subject@),
                body@,
                date,
            ),
        to@.len() > 0 && is_plain(from@) && all_plain(mailboxes(to@)) ==> r is Ok
            && r->Ok_0@.sender == Some(from@.address) && r->Ok_0@.recipients == addresses(
            mailboxes(to@),
        ),
{
    let ghost title = subject@;
    let ghost all = mailboxes(to@);
    let builder = write_from(lettre::Message::builder(), from);
    let mut builder = write_subject(builder, subject);
    assert(Seq::empty().push(Header::From(from@)).push(Header::Subject(title)) == addressed(
        from@,
        all.take(0),
        title,
    ));
    let mut i: usize = 0;
    while i < to.len()
        invariant
            i <= to.len(),
            all == mailboxes(to@),
            all_fit(all),
            is_given(builder, addressed(from@, all.take(i as int), title)),
        decreases to.len() - i,
    {
        assert(all[i as int] == to@[i as int]@);
        assert(addressed(from@, all.take(i as int), title).push(Header::To(all[i as int]))
            == addressed(from@, all.take(i + 1), title));
        builder = write_to(builder, &to[i]);
        i = i + 1;
    }
    assert(all.take(i as int) == all);
    let builder = write_plain_text(builder);
    assert(is_given(builder, letter(from@, all, title)));
    write_body(builder, body)
}

/// How the certificate of a server is checked.
pub struct TlsSettings {
    /// The name that the certificate is to be made out to.
    pub domain: Seq<char>,
    pub accept_invalid_certs: bool,
    pub accept_invalid_hostnames: bool,
}

/// When a connection is encrypted.
pub enum TlsMode {
    /// Never.
    Unencrypted,
    /// Once the server was asked to, and not without.
    StartTls(TlsSettings),
    /// From the start.
    Wrapped(TlsSettings),
}

/// How a server is reached.
pub struct TransportSettings {
    pub server: Seq<char>,
    pub port: u16,
    pub tls: TlsMode,
    /// User name and password.
    pub credentials: Option<(Seq<char>, Seq<char>)>,
}

/// The checks on a certificate as they are put together.
#[verifier::external_type_specification]
#[verifier::external_body]
pub struct ExTlsParametersBuilder(lettre::transport::smtp::client::TlsParametersBuilder);

/// The checks on a certificate.
#[verifier::external_type_specification]
#[verifier::external_body]
pub struct ExTlsParameters(lettre::transport::smtp::client::TlsParameters);

/// When a connection is encrypted.
#[verifier::external_type_specification]
#[verifier::external_body]
pub struct ExTls(lettre::transport::smtp::client::Tls);

/// A user name and a password.
#[verifier::external_type_specification]
#[verifier::external_body]
pub struct ExCredentials(lettre::transport::smtp::authentication::Credentials);

/// The way to a server.
#[verifier::external_type_specification]
#[verifier::external_body]
pub struct ExAsyncSmtpTransportBuilder(lettre::transport::smtp::AsyncSmtpTransportBuilder);

/// What went wrong on the way to a server.
#[verifier::external_type_specification]
#[verifier::external_body]
pub struct ExSmtpError(lettre::transport::smtp::Error);

/// The settings that a builder of certificate checks holds.
pub uninterp spec fn tls_builder_settings(
    builder: lettre::transport::smtp::client::TlsParametersBuilder,
) -> TlsSettings;

/// The settings that certificate checks were built with.
pub uninterp spec fn tls_settings(
    parameters: lettre::transport::smtp::client::TlsParameters,
) -> TlsSettings;

/// The mode that a value of `lettre`'s `Tls` stands for.
pub uninterp spec fn tls_mode(tls: lettre::transport::smtp::client::Tls) -> TlsMode;

/// The user name and the password that credentials hold.
pub uninterp spec fn credentials_of(
    credentials: lettre::transport::smtp::authentication::Credentials,
) -> (Seq<char>, Seq<char>);

/// The server, the port, the encryption and the credentials that a transport
/// builder holds.
pub uninterp spec fn transport_settings(
    builder: lettre::transport::smtp::AsyncSmtpTransportBuilder,
) -> TransportSettings;

/// `TlsParametersBuilder::new` holds the domain, and checks certificates and host
/// names.
pub assume_specification[ TlsParametersBuilder::new ](domain: String) -> (r: TlsParametersBuilder)
    ensures
        tls_builder_settings(r) == (TlsSettings {
            domain: domain@,
            accept_invalid_certs: false,
            accept_invalid_hostnames: false,
        }),
;

/// `TlsParametersBuilder::dangerous_accept_invalid_certs` sets that one flag.
pub assume_specification[ TlsParametersBuilder::dangerous_accept_invalid_certs ](
    builder: TlsParametersBuilder,
    accept_invalid_certs: bool,
) -> (r: TlsParametersBuilder)
    ensures
        tls_builder_settings(r) == (TlsSettings {
            accept_invalid_certs,
            ..tls_builder_settings(builder)
        }),
;

/// `TlsParametersBuilder::dangerous_accept_invalid_hostnames` sets that one flag.
pub assume_specification[ TlsParametersBuilder::dangerous_accept_invalid_hostnames ](
    builder: TlsParametersBuilder,
    accept_invalid_hostnames: bool,
) -> (r: TlsParametersBuilder)
    ensures
        tls_builder_settings(r) == (TlsSettings {
            accept_invalid_hostnames,
            ..tls_builder_settings(builder)
        }),
;

/// `TlsParametersBuilder::build` keeps the settings. Whether it succeeds rests on the
/// cryptography that the process has installed, so neither success nor failure is
/// stated.
pub assume_specification[ TlsParametersBuilder::build ](
    builder: TlsParametersBuilder,
) -> (r: Result<TlsParameters, lettre::transport::smtp::Error>)
    ensures
        r matches Ok(parameters) ==> tls_settings(parameters) == tls_builder_settings(builder),
;

/// `TlsParameters::new` checks certificates and host names. As with
/// `TlsParametersBuilder::build`, success is not stated.
pub assume_specification[ TlsParameters::new ](domain: String) -> (r: Result<
    TlsParameters,
    lettre::transport::smtp::Error,
>)
    ensures
        r matches Ok(parameters) ==> tls_settings(parameters) == (TlsSettings {
            domain: domain@,
            accept_invalid_certs: false,
            accept_invalid_hostnames: false,
        }),
;

/// Makes `Tls::None`, which never encrypts.
#[verifier::external_body]
pub(crate) fn unencrypted() -> (r: Tls)
    ensures
        tls_mode(r) == TlsMode::Unencrypted,
{
    Tls::None
}

/// Makes `Tls::Required`, which asks the server for encryption and insists on it.
#[verifier::external_body]
pub(crate) fn start_tls(parameters: TlsParameters) -> (r: Tls)
    ensures
        tls_mode(r) == TlsMode::StartTls(tls_settings(parameters)),
{
    Tls::Required(parameters)
}

/// Makes `Tls::Wrapper`, which encrypts from the start.
#[verifier::external_body]
pub(crate) fn wrapped(parameters: TlsParameters) -> (r: Tls)
    ensures
        tls_mode(r) == TlsMode::Wrapped(tls_settings(parameters)),
{
    Tls::Wrapper(parameters)
}

/// `Credentials::new` holds its two arguments.
pub assume_specification[ Credentials::new ](username: String, password: String) -> (r: Credentials)
    ensures
        credentials_of(r) == (username@, password@),
;

/// Calls `AsyncSmtpTransport::builder_dangerous`: no encryption, no credentials, and
/// the port for mail between servers.
#[verifier::external_body]
pub(crate) fn transport_to(server: &str) -> (r: AsyncSmtpTransportBuilder)
    ensures
        transport_settings(r) == (TransportSettings {
            server: server@,
            port: 25,
            tls: TlsMode::Unencrypted,
            credentials: None,
        }),
{
    lettre::AsyncSmtpTransport::<lettre::Tokio1Executor>::builder_dangerous(server)
}

/// `AsyncSmtpTransportBuilder::port` sets the port.
pub assume_specification[ AsyncSmtpTransportBuilder::port ](
    builder: AsyncSmtpTransportBuilder,
    port: u16,
) -> (r: AsyncSmtpTransportBuilder)
    ensures
        transport_settings(r) == (TransportSettings { port, ..transport_settings(builder) }),
;

/// `AsyncSmtpTransportBuilder::tls` sets the encryption.
pub assume_specification[ AsyncSmtpTransportBuilder::tls ](
    builder: AsyncSmtpTransportBuilder,
    tls: Tls,
) -> (r: AsyncSmtpTransportBuilder)
    ensures
        transport_settings(r) == (TransportSettings {
            tls: tls_mode(tls),
            ..transport_settings(builder)
        }),
;

/// `AsyncSmtpTransportBuilder::credentials` sets the credentials.
pub assume_specification[ AsyncSmtpTransportBuilder::credentials ](
    builder: AsyncSmtpTransportBuilder,
    credentials: Credentials,
) -> (r: AsyncSmtpTransportBuilder)
    ensures
        transport_settings(r) == (TransportSettings {
            credentials: Some(credentials_of(credentials)),
            ..transport_settings(builder)
        }),
;

/// A letter names the sender, then the subject, then each recipient in order, and last
/// that its text is plain.
pub proof fn law_a_letter_names_everyone_in_order(
    from: Mailbox<Seq<char>>,
    to: Seq<Mailbox<Seq<char>>>,
    subject: Seq<char>,
)
    ensures
        letter(from, to, subject).len() == to.len() + 3,
        letter(from, to, subject)[0] == Header::From(from),
        letter(from, to, subject)[1] == Header::Subject(subject),
        forall|i: int|
            0 <= i < to.len() ==> letter(from, to, subject)[i + 2] == Header::To(#[trigger] to[i]),
        letter(from, to, subject)[to.len() as int + 2] == Header::PlainText,
{
}

/// What is seen of mailboxes and messages is what they hold.
pub proof fn law_mail_is_seen_as_it_is(
    mailbox: Mailbox<String>,
    list: Seq<Mailbox<String>>,
    email: Email,
)
    ensures
        mailbox@.address.user == mailbox.address.user@,
        mailbox@.address.domain == mailbox.address.domain@,
        mailbox@.name is Some <==> mailbox.name is Some,
        mailbox.name is Some ==> mailbox@.name->0 == mailbox.name->0@,
        mailboxes(list).len() == list.len(),
        forall|i: int| 0 <= i < list.len() ==> mailboxes(list)[i] == (#[trigger] list[i])@,
        forall|i: int|
            0 <= i < list.len() ==> addresses(mailboxes(list))[i] == (#[trigger] list[i]).address@,
        email@.sender is Some <==> email.sender is Some,
        email.sender is Some ==> email@.sender->0 == email.sender->0@,
        email@.recipients.len() == email.recipients@.len(),
        forall|i: int|
            0 <= i < email.recipients@.len() ==> email@.recipients[i] == (
            #[trigger] email.recipients@[i])@,
        email@.content == email.content@,
        reading(Ok(mailbox)) == Ok::<Mailbox<Seq<char>>, Seq<char>>(mailbox@),
        composition(Ok(email)) == Ok::<EmailView, Seq<char>>(email@),
{
}

/// A mailbox is plain if it has no name and its address, written out, is read as it.
pub proof fn law_a_plain_mailbox_is_read_as_itself(mailbox: Mailbox<Seq<char>>)
    ensures
        is_plain(mailbox) <==> mailbox.name is None && mailbox_of(
            mailbox.address.user + "@"@ + mailbox.address.domain,
        ) == Ok::<Mailbox<Seq<char>>, Seq<char>>(mailbox),
        fits_a_header(mailbox) <==> mailbox.name is None || forall|i: int|
            0 <= i < mailbox.name->0.len() ==> (#[trigger] mailbox.name->0[i]) != '\n'
                && mailbox.name->0[i] != '\r',
{
}

} // verus!
