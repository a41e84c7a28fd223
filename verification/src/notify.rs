//! The summary email of a run, and the settings it is sent with.
use lettre::transport::smtp::authentication::Credentials;
use lettre::transport::smtp::client::{Tls, TlsParameters, TlsParametersBuilder};
use lettre::transport::smtp::AsyncSmtpTransportBuilder;
use vstd::prelude::*;

use crate::mail::{
    compose, parse_mailbox, start_tls, transport_to, unencrypted, wrapped, Email, Mailbox, TlsMode,
    TlsSettings, TransportSettings,
};
use crate::mail;
use crate::text::NumberError;
use crate::text;

verus! {

/// The port for mail submission.
pub const DEFAULT_PORT: u16 = 587;

/// How a connection to the SMTP server is encrypted.
#[derive(Clone, Copy, Debug, PartialEq, Eq, Structural)]
pub enum Encryption {
    Unencrypted,
    StartTls,
    Tls,
}

/// Which runs are worth an email.
#[derive(Clone, Copy, Debug, PartialEq, Eq, Structural)]
pub enum NotifyOn {
    All,
    ErrorsOnly,
}

/// The environment variables that configure the email: `SMTP_HOST`, `SMTP_PORT` and
/// so on. None stands for one that cannot be read; of the sender and the recipients
/// it is then told why.
#[derive(Debug, PartialEq, Eq)]
pub struct SmtpEnv {
    pub host: Option<String>,
    pub port: Option<String>,
    pub username: Option<String>,
    pub password: Option<String>,
    pub from: Result<String, String>,
    pub to: Result<String, String>,
    pub encryption: Option<String>,
    pub notify: Option<String>,
    pub accept_invalid_certs: Option<String>,
}

/// How and to whom the summary is sent.
#[derive(Debug, PartialEq, Eq)]
pub struct SmtpConfig {
    pub host: String,
    pub port: u16,
    pub username: Option<String>,
    pub password: Option<String>,
    pub from: Mailbox<String>,
    pub to: Vec<Mailbox<String>>,
    pub encryption: Encryption,
    pub notify_on: NotifyOn,
    pub accept_invalid_certs: bool,
}

/// How and to whom the summary is sent, over sequences.
pub struct SmtpConfigView {
    pub host: Seq<char>,
    pub port: u16,
    pub username: Option<Seq<char>>,
    pub password: Option<Seq<char>>,
    pub from: Mailbox<Seq<char>>,
    pub to: Seq<Mailbox<Seq<char>>>,
    pub encryption: Encryption,
    pub notify_on: NotifyOn,
    pub accept_invalid_certs: bool,
}

/// What is wrong with the settings. The strings are an `S`; a cause is why a variable
/// could not be read, or what the reader of addresses said.
#[derive(Debug, PartialEq, Eq)]
pub enum SmtpError<S> {
    InvalidPort { fault: NumberError },
    MissingFrom { cause: S },
    InvalidFrom { cause: S },
    MissingTo { cause: S },
    InvalidTo { address: S, cause: S },
    NoRecipient,
    InvalidEncryption { value: S },
    InvalidNotify { value: S },
    InvalidAcceptInvalidCerts { value: S },
}

impl View for SmtpConfig {
    type V = SmtpConfigView;

    open spec fn view(&self) -> SmtpConfigView {
        SmtpConfigView {
            host: self.host@,
            port: self.port,
            username: text::content(self.username),
            password: text::content(self.password),
            from: self.from@,
            to: mail::mailboxes(self.to@),
            encryption: self.encryption,
            notify_on: self.notify_on,
            accept_invalid_certs: self.accept_invalid_certs,
        }
    }
}

impl View for SmtpError<String> {
    type V = SmtpError<Seq<char>>;

    open spec fn view(&self) -> SmtpError<Seq<char>> {
        match *self {
            SmtpError::InvalidPort { fault } => SmtpError::InvalidPort { fault },
            SmtpError::MissingFrom { cause } => SmtpError::MissingFrom { cause: cause@ },
            SmtpError::InvalidFrom { cause } => SmtpError::InvalidFrom { cause: cause@ },
            SmtpError::MissingTo { cause } => SmtpError::MissingTo { cause: cause@ },
            SmtpError::InvalidTo { address, cause } => SmtpError::InvalidTo {
                address: address@,
                cause: cause@,
            },
            SmtpError::NoRecipient => SmtpError::NoRecipient,
            SmtpError::InvalidEncryption { value } => SmtpError::InvalidEncryption {
                value: value@,
            },
            SmtpError::InvalidNotify { value } => SmtpError::InvalidNotify { value: value@ },
            SmtpError::InvalidAcceptInvalidCerts { value } => SmtpError::InvalidAcceptInvalidCerts {
                value: value@,
            },
        }
    }
}

/// A setting, unless it is empty.
pub open spec fn nonempty(value: Option<Seq<char>>) -> Option<Seq<char>> {
    match value {
        Some(s) => if s.len() > 0 {
            Some(s)
        } else {
            None
        },
        None => None,
    }
}

/// The port: a number of sixteen bits, by default the one for mail submission.
pub open spec fn port_of(value: Option<Seq<char>>) -> Result<u16, SmtpError<Seq<char>>> {
    match value {
        None => Ok(DEFAULT_PORT),
        Some(s) => match text::number_up_to(s, u16::MAX as nat) {
            Some(port) => Ok(port as u16),
            None => Err(
                SmtpError::InvalidPort { fault: text::number_error(s, u16::MAX as nat)->0 },
            ),
        },
    }
}

/// The encryption: `starttls` (the default), `tls` or `none`.
pub open spec fn encryption_of(value: Option<Seq<char>>) -> Result<
    Encryption,
    SmtpError<Seq<char>>,
> {
    match value {
        None => Ok(Encryption::StartTls),
        Some(value) => if value == "none"@ {
            Ok(Encryption::Unencrypted)
        } else if value == "tls"@ {
            Ok(Encryption::Tls)
        } else if value == "starttls"@ {
            Ok(Encryption::StartTls)
        } else {
            Err(SmtpError::InvalidEncryption { value })
        },
    }
}

/// Which runs are worth an email: `all` (the default) or `errors`.
pub open spec fn notify_on_of(value: Option<Seq<char>>) -> Result<NotifyOn, SmtpError<Seq<char>>> {
    match value {
        None => Ok(NotifyOn::All),
        Some(value) => if value == "errors"@ {
            Ok(NotifyOn::ErrorsOnly)
        } else if value == "all"@ {
            Ok(NotifyOn::All)
        } else {
            Err(SmtpError::InvalidNotify { value })
        },
    }
}

/// Whether invalid certificates are accepted: `true` or `false` (the default).
pub open spec fn accept_invalid_certs_of(value: Option<Seq<char>>) -> Result<
    bool,
    SmtpError<Seq<char>>,
> {
    match value {
        None => Ok(false),
        Some(value) => if value == "true"@ {
            Ok(true)
        } else if value == "false"@ {
            Ok(false)
        } else {
            Err(SmtpError::InvalidAcceptInvalidCerts { value })
        },
    }
}

/// The strings among `parts` that are more than whitespace, without the whitespace
/// around them.
pub open spec fn listed(parts: Seq<Seq<char>>) -> Seq<Seq<char>>
    decreases parts.len(),
{
    if parts.len() == 0 {
        Seq::empty()
    } else if text::trimmed(parts.last()).len() > 0 {
        listed(parts.drop_last()).push(text::trimmed(parts.last()))
    } else {
        listed(parts.drop_last())
    }
}

/// The addresses in a list that is separated by commas.
pub open spec fn address_list(list: Seq<char>) -> Seq<Seq<char>> {
    listed(text::pieces(list, ','))
}

/// An address as it was given, and what it was read as.
pub type Reading<S> = (S, Result<Mailbox<S>, S>);

/// What a list of readings holds.
pub open spec fn readings(list: Seq<Reading<String>>) -> Seq<Reading<Seq<char>>> {
    Seq::new(list.len(), |i: int| (list[i].0@, mail::reading(list[i].1)))
}

/// The mailboxes of a list of addresses, or the first address that is none.
pub open spec fn all_valid(list: Seq<Reading<Seq<char>>>) -> Result<
    Seq<Mailbox<Seq<char>>>,
    SmtpError<Seq<char>>,
>
    decreases list.len(),
{
    if list.len() == 0 {
        Ok(Seq::empty())
    } else {
        match all_valid(list.drop_last()) {
            Err(e) => Err(e),
            Ok(before) => match list.last() {
                (_, Ok(mailbox)) => Ok(before.push(mailbox)),
                (address, Err(cause)) => Err(SmtpError::InvalidTo { address, cause }),
            },
        }
    }
}

/// What became of the variable with the sender: why it could not be read, or what its
/// text was read as.
pub type Sender<S> = Result<Result<Mailbox<S>, S>, S>;

/// The configuration that the environment gives, with the sender and the recipients
/// as they were read. None where no host is set: then there is no email at all. The
/// first setting that is wrong decides about the error, in the order host, port,
/// sender, recipients, encryption, occasion and certificates.
pub open spec fn configured(
    env: SmtpEnv,
    from: Sender<Seq<char>>,
    to: Result<Seq<Reading<Seq<char>>>, Seq<char>>,
) -> Result<Option<SmtpConfigView>, SmtpError<Seq<char>>> {
    match nonempty(text::content(env.host)) {
        None => Ok(None),
        Some(host) => match port_of(text::content(env.port)) {
            Err(e) => Err(e),
            Ok(port) => match from {
                Err(cause) => Err(SmtpError::MissingFrom { cause }),
                Ok(Err(cause)) => Err(SmtpError::InvalidFrom { cause }),
                Ok(Ok(from)) => match to {
                    Err(cause) => Err(SmtpError::MissingTo { cause }),
                    Ok(list) => match all_valid(list) {
                        Err(e) => Err(e),
                        Ok(to) => if to.len() == 0 {
                            Err(SmtpError::NoRecipient)
                        } else {
                            match encryption_of(text::content(env.encryption)) {
                                Err(e) => Err(e),
                                Ok(encryption) => match notify_on_of(text::content(env.notify)) {
                                    Err(e) => Err(e),
                                    Ok(notify_on) => match accept_invalid_certs_of(
                                        text::content(env.accept_invalid_certs),
                                    ) {
                                        Err(e) => Err(e),
                                        Ok(accept_invalid_certs) => Ok(
                                            Some(
                                                SmtpConfigView {
                                                    host,
                                                    port,
                                                    username: nonempty(text::content(env.username)),
                                                    password: nonempty(text::content(env.password)),
                                                    from,
                                                    to,
                                                    encryption,
                                                    notify_on,
                                                    accept_invalid_certs,
                                                },
                                            ),
                                        ),
                                    },
                                },
                            }
                        },
                    },
                },
            },
        },
    }
}

/// What an attempt at a configuration came to.
pub open spec fn attempt(r: Result<Option<SmtpConfig>, SmtpError<String>>) -> Result<
    Option<SmtpConfigView>,
    SmtpError<Seq<char>>,
> {
    match r {
        Ok(Some(config)) => Ok(Some(config@)),
        Ok(None) => Ok(None),
        Err(e) => Err(e@),
    }
}

/// What the sender's address is read as.
pub open spec fn sender_in(env: SmtpEnv) -> Sender<Seq<char>> {
    match env.from {
        Ok(s) => Ok(mail::mailbox_of(s@)),
        Err(cause) => Err(cause@),
    }
}

/// What each of the recipients' addresses is read as.
pub open spec fn recipients_in(env: SmtpEnv) -> Result<Seq<Reading<Seq<char>>>, Seq<char>> {
    match env.to {
        Ok(list) => Ok(address_list(list@).map_values(|s: Seq<char>| (s, mail::mailbox_of(s)))),
        Err(cause) => Err(cause@),
    }
}

fn filter_nonempty(value: Option<String>) -> (r: Option<String>)
    ensures
        text::content(r) == nonempty(text::content(value)),
{
    match value {
        Some(s) => if s.as_str().is_empty() {
            None
        } else {
            Some(s)
        },
        None => None,
    }
}

fn parse_port(value: Option<String>) -> (r: Result<u16, SmtpError<String>>)
    ensures
        match r {
            Ok(port) => port_of(text::content(value)) == Ok::<u16, SmtpError<Seq<char>>>(port),
            Err(e) => port_of(text::content(value)) == Err::<u16, SmtpError<Seq<char>>>(e@),
        },
{
    match value {
        None => Ok(DEFAULT_PORT),
        Some(s) => {
            proof {
                text::law_a_number_has_no_error(s@, u16::MAX as nat);
            }
            match text::parse_number(s.as_str(), u16::MAX as u64) {
                Ok(port) => Ok(port as u16),
                Err(fault) => Err(SmtpError::InvalidPort { fault }),
            }
        },
    }
}

fn parse_encryption(value: Option<String>) -> (r: Result<Encryption, SmtpError<String>>)
    ensures
        match r {
            Ok(v) => encryption_of(text::content(value)) == Ok::<Encryption, SmtpError<Seq<char>>>(
                v,
            ),
            Err(e) => encryption_of(text::content(value)) == Err::<
                Encryption,
                SmtpError<Seq<char>>,
            >(e@),
        },
{
    match value {
        None => Ok(Encryption::StartTls),
        Some(value) => if text::same(value.as_str(), "none") {
            Ok(Encryption::Unencrypted)
        } else if text::same(value.as_str(), "tls") {
            Ok(Encryption::Tls)
        } else if text::same(value.as_str(), "starttls") {
            Ok(Encryption::StartTls)
        } else {
            Err(SmtpError::InvalidEncryption { value })
        },
    }
}

fn parse_notify_on(value: Option<String>) -> (r: Result<NotifyOn, SmtpError<String>>)
    ensures
        match r {
            Ok(v) => notify_on_of(text::content(value)) == Ok::<NotifyOn, SmtpError<Seq<char>>>(v),
            Err(e) => notify_on_of(text::content(value)) == Err::<NotifyOn, SmtpError<Seq<char>>>(
                e@,
            ),
        },
{
    match value {
        None => Ok(NotifyOn::All),
        Some(value) => if text::same(value.as_str(), "errors") {
            Ok(NotifyOn::ErrorsOnly)
        } else if text::same(value.as_str(), "all") {
            Ok(NotifyOn::All)
        } else {
            Err(SmtpError::InvalidNotify { value })
        },
    }
}

fn parse_accept_invalid_certs(value: Option<String>) -> (r: Result<bool, SmtpError<String>>)
    ensures
        match r {
            Ok(v) => accept_invalid_certs_of(text::content(value)) == Ok::<
                bool,
                SmtpError<Seq<char>>,
            >(v),
            Err(e) => accept_invalid_certs_of(text::content(value)) == Err::<
                bool,
                SmtpError<Seq<char>>,
            >(e@),
        },
{
    match value {
        None => Ok(false),
        Some(value) => if text::same(value.as_str(), "true") {
            Ok(true)
        } else if text::same(value.as_str(), "false") {
            Ok(false)
        } else {
            Err(SmtpError::InvalidAcceptInvalidCerts { value })
        },
    }
}

/// Cuts a list at its commas, and keeps what is more than whitespace.
pub fn split_addresses(list: &str) -> (r: Vec<String>)
    ensures
        text::contents(r@) == address_list(list@),
{
    let parts = text::split(list, ',');
    let ghost all = text::contents(parts@);
    let mut out: Vec<String> = Vec::new();
    let mut i: usize = 0;
    assert(text::contents(out@) == listed(all.take(0)));
    while i < parts.len()
        invariant
            i <= parts.len(),
            all == text::contents(parts@),
            text::contents(out@) == listed(all.take(i as int)),
        decreases parts.len() - i,
    {
        assert(all.take(i + 1).drop_last() == all.take(i as int));
        let ghost before = text::contents(out@);
        let part = text::trim(parts[i].as_str());
        if !part.is_empty() {
            out.push(part.to_owned());
            assert(text::contents(out@) == before.push(part@));
        }
        i = i + 1;
    }
    assert(all.take(i as int) == all);
    out
}

/// Takes the mailboxes out of a list of readings, up to the first address that is
/// no mailbox.
fn valid_mailboxes(list: Vec<Reading<String>>) -> (r: Result<
    Vec<Mailbox<String>>,
    SmtpError<String>,
>)
    ensures
        match r {
            Ok(to) => all_valid(readings(list@)) == Ok::<
                Seq<Mailbox<Seq<char>>>,
                SmtpError<Seq<char>>,
            >(mail::mailboxes(to@)),
            Err(e) => all_valid(readings(list@)) == Err::<
                Seq<Mailbox<Seq<char>>>,
                SmtpError<Seq<char>>,
            >(e@),
        },
{
    let ghost all = readings(list@);
    let mut out: Vec<Mailbox<String>> = Vec::new();
    let mut i: usize = 0;
    assert(mail::mailboxes(out@) == Seq::<Mailbox<Seq<char>>>::empty());
    while i < list.len()
        invariant
            i <= list.len(),
            all == readings(list@),
            all_valid(all.take(i as int)) == Ok::<Seq<Mailbox<Seq<char>>>, SmtpError<Seq<char>>>(
                mail::mailboxes(out@),
            ),
        decreases list.len() - i,
    {
        assert(all.take(i + 1).drop_last() == all.take(i as int));
        let ghost before = mail::mailboxes(out@);
        match &list[i].1 {
            Ok(mailbox) => {
                out.push(copy(mailbox));
                assert(mail::mailboxes(out@) == before.push(mailbox@));
            },
            Err(cause) => {
                proof {
                    lemma_first_invalid_decides(all, i + 1);
                }
                return Err(
                    SmtpError::InvalidTo { address: list[i].0.clone(), cause: cause.clone() },
                );
            },
        }
        i = i + 1;
    }
    assert(all.take(i as int) == all);
    Ok(out)
}

/// An address that is no mailbox is reported whatever follows it.
proof fn lemma_first_invalid_decides(list: Seq<Reading<Seq<char>>>, n: int)
    requires
        0 <= n <= list.len(),
        all_valid(list.take(n)) is Err,
    ensures
        all_valid(list) == all_valid(list.take(n)),
    decreases list.len() - n,
{
    if n == list.len() {
        assert(list.take(n) == list);
    } else {
        assert(list.take(n + 1).drop_last() == list.take(n));
        lemma_first_invalid_decides(list, n + 1);
    }
}

fn copy(mailbox: &Mailbox<String>) -> (r: Mailbox<String>)
    ensures
        r@ == mailbox@,
{
    Mailbox {
        name: match &mailbox.name {
            Some(name) => Some(name.clone()),
            None => None,
        },
        address: mail::Address {
            user: mailbox.address.user.clone(),
            domain: mailbox.address.domain.clone(),
        },
    }
}

impl SmtpConfigView {
    /// Whether the mailboxes can stand in the headers of a message.
    pub open spec fn wf(self) -> bool {
        mail::fits_a_header(self.from) && mail::all_fit(self.to)
    }

    /// The checks on the server's certificate.
    pub open spec fn tls(self) -> TlsSettings {
        TlsSettings {
            domain: self.host,
            accept_invalid_certs: self.accept_invalid_certs,
            accept_invalid_hostnames: self.accept_invalid_certs,
        }
    }

    /// When the connection is encrypted, with these checks on the certificate.
    pub open spec fn mode(self, checks: TlsSettings) -> TlsMode {
        match self.encryption {
            Encryption::Unencrypted => TlsMode::Unencrypted,
            Encryption::StartTls => TlsMode::StartTls(checks),
            Encryption::Tls => TlsMode::Wrapped(checks),
        }
    }

    /// The way to the server. The server is asked to know who we are where there
    /// are both a user name and a password.
    pub open spec fn transport(self) -> TransportSettings {
        TransportSettings {
            server: self.host,
            port: self.port,
            tls: self.mode(self.tls()),
            credentials: match (self.username, self.password) {
                (Some(username), Some(password)) => Some((username, password)),
                _ => None,
            },
        }
    }
}

/// What the readings of the recipients hold, where there are any.
pub open spec fn recipients_read(to: Result<Vec<Reading<String>>, String>) -> Result<
    Seq<Reading<Seq<char>>>,
    Seq<char>,
> {
    match to {
        Ok(list) => Ok(readings(list@)),
        Err(cause) => Err(cause@),
    }
}

/// What the reading of the sender holds, where there is one.
pub open spec fn sender_read(from: Sender<String>) -> Sender<Seq<char>> {
    match from {
        Ok(r) => Ok(mail::reading(r)),
        Err(cause) => Err(cause@),
    }
}

/// Mailboxes that fit a header do so in a list.
proof fn lemma_valid_mailboxes_fit(list: Seq<Reading<Seq<char>>>)
    requires
        forall|i: int|
            0 <= i < list.len() ==> ((#[trigger] list[i]).1 matches Ok(mailbox)
                ==> mail::fits_a_header(mailbox)),
    ensures
        all_valid(list) matches Ok(to) ==> mail::all_fit(to),
    decreases list.len(),
{
    if list.len() > 0 {
        let init = list.drop_last();
        assert forall|i: int| 0 <= i < init.len() implies ((#[trigger] init[i]).1 matches Ok(
            mailbox,
        ) ==> mail::fits_a_header(mailbox)) by {
            assert(init[i] == list[i]);
        }
        lemma_valid_mailboxes_fit(init);
        assert(list.last() == list[list.len() - 1]);
    }
}

impl SmtpConfig {
    /// Puts the configuration together from the environment, with the sender and
    /// the recipients as they were read.
    pub fn from_parsed(
        env: SmtpEnv,
        from: Sender<String>,
        to: Result<Vec<Reading<String>>, String>,
    ) -> (r: Result<Option<SmtpConfig>, SmtpError<String>>)
        ensures
            attempt(r) == configured(env, sender_read(from), recipients_read(to)),
            r matches Ok(Some(config)) ==> {
                &&& env.host is Some
                &&& config.host@ == env.host->0@
                &&& env.port is None ==> config.port == 587
                &&& env.port is Some ==> text::number_up_to(env.port->0@, 65535) == Some(
                    config.port as nat,
                )
                &&& config.username is Some <==> env.username is Some && env.username->0@.len() > 0
                &&& config.username is Some ==> config.username->0@ == env.username->0@
                &&& config.password is Some <==> env.password is Some && env.password->0@.len() > 0
                &&& config.password is Some ==> config.password->0@ == env.password->0@
                &&& config.encryption is Unencrypted <==> env.encryption is Some
                    && env.encryption->0@ == "none"@
                &&& config.encryption is Tls <==> env.encryption is Some && env.encryption->0@
                    == "tls"@
                &&& config.encryption is StartTls <==> env.encryption is None
                    || env.encryption->0@ == "starttls"@
                &&& config.notify_on is ErrorsOnly <==> env.notify is Some && env.notify->0@
                    == "errors"@
                &&& config.notify_on is All <==> env.notify is None || env.notify->0@ == "all"@
                &&& config.accept_invalid_certs <==> env.accept_invalid_certs is Some
                    && env.accept_invalid_certs->0@ == "true"@
                &&& !config.accept_invalid_certs <==> env.accept_invalid_certs is None
                    || env.accept_invalid_certs->0@ == "false"@
                &&& from matches Ok(Ok(sender)) && config.from@ == sender@
                &&& to matches Ok(list) && config.to@.len() == list@.len()
                &&& forall|i: int|
                    0 <= i < config.to@.len() ==> (#[trigger] to->Ok_0@[i]).1 is Ok
                        && config.to@[i]@ == to->Ok_0@[i].1->Ok_0@
            },
            r matches Ok(None) <==> env.host is None || env.host->0@.len() == 0,
    {
        proof {
            reveal_strlit("none");
            reveal_strlit("tls");
            reveal_strlit("starttls");
            reveal_strlit("errors");
            reveal_strlit("all");
            reveal_strlit("true");
            reveal_strlit("false");
            assert("none"@[0] == 'n' && "tls"@[0] == 't' && "starttls"@[0] == 's');
            assert("errors"@[0] == 'e' && "all"@[0] == 'a');
            assert("true"@[0] == 't' && "false"@[0] == 'f');
            if to is Ok {
                lemma_all_valid_keeps_all(readings(to->Ok_0@));
            }
        }
        let ghost given = to;
        let host = match filter_nonempty(env.host) {
            Some(host) => host,
            None => {
                return Ok(None);
            },
        };
        let port = match parse_port(env.port) {
            Ok(port) => port,
            Err(e) => {
                return Err(e);
            },
        };
        let from = match from {
            Err(cause) => {
                return Err(SmtpError::MissingFrom { cause });
            },
            Ok(Err(cause)) => {
                return Err(SmtpError::InvalidFrom { cause });
            },
            Ok(Ok(from)) => from,
        };
        let to = match to {
            Err(cause) => {
                return Err(SmtpError::MissingTo { cause });
            },
            Ok(list) => match valid_mailboxes(list) {
                Ok(to) => to,
                Err(e) => {
                    return Err(e);
                },
            },
        };
        if to.len() == 0 {
            return Err(SmtpError::NoRecipient);
        }
        let encryption = match parse_encryption(env.encryption) {
            Ok(encryption) => encryption,
            Err(e) => {
                return Err(e);
            },
        };
        let notify_on = match parse_notify_on(env.notify) {
            Ok(notify_on) => notify_on,
            Err(e) => {
                return Err(e);
            },
        };
        let accept_invalid_certs = match parse_accept_invalid_certs(env.accept_invalid_certs) {
            Ok(accept_invalid_certs) => accept_invalid_certs,
            Err(e) => {
                return Err(e);
            },
        };
        let config = SmtpConfig {
            host,
            port,
            username: filter_nonempty(env.username),
            password: filter_nonempty(env.password),
            from,
            to,
            encryption,
            notify_on,
            accept_invalid_certs,
        };
        assert forall|i: int| 0 <= i < config.to@.len() implies (
        #[trigger] given->Ok_0@[i]).1 is Ok && config.to@[i]@ == given->Ok_0@[i].1->Ok_0@ by {
            let read = readings(given->Ok_0@);
            assert(mail::mailboxes(config.to@)[i] == config.to@[i]@);
            assert(read[i].1 == Ok::<Mailbox<Seq<char>>, Seq<char>>(
                mail::mailboxes(config.to@)[i],
            ));
        }
        Ok(Some(config))
    }

    /// Reads the settings from the environment's variables. `Ok(None)` means that
    /// `SMTP_HOST` is not set, and email notifications are disabled entirely.
    pub fn from_env(env: SmtpEnv) -> (r: Result<Option<SmtpConfig>, SmtpError<String>>)
        ensures
            attempt(r) == configured(env, sender_in(env), recipients_in(env)),
            r matches Ok(Some(config)) ==> config@.wf(),
            r matches Ok(Some(config)) ==> {
                &&& env.host is Some
                &&& config.host@ == env.host->0@
                &&& env.port is None ==> config.port == 587
                &&& env.port is Some ==> text::number_up_to(env.port->0@, 65535) == Some(
                    config.port as nat,
                )
                &&& config.username is Some <==> env.username is Some && env.username->0@.len() > 0
                &&& config.username is Some ==> config.username->0@ == env.username->0@
                &&& config.password is Some <==> env.password is Some && env.password->0@.len() > 0
                &&& config.password is Some ==> config.password->0@ == env.password->0@
                &&& config.encryption is Unencrypted <==> env.encryption is Some
                    && env.encryption->0@ == "none"@
                &&& config.encryption is Tls <==> env.encryption is Some && env.encryption->0@
                    == "tls"@
                &&& config.encryption is StartTls <==> env.encryption is None
                    || env.encryption->0@ == "starttls"@
                &&& config.notify_on is ErrorsOnly <==> env.notify is Some && env.notify->0@
                    == "errors"@
                &&& config.notify_on is All <==> env.notify is None || env.notify->0@ == "all"@
                &&& config.accept_invalid_certs <==> env.accept_invalid_certs is Some
                    && env.accept_invalid_certs->0@ == "true"@
                &&& !config.accept_invalid_certs <==> env.accept_invalid_certs is None
                    || env.accept_invalid_certs->0@ == "false"@
                &&& env.from matches Ok(sender) && mail::mailbox_of(sender@) == Ok::<
                    Mailbox<Seq<char>>,
                    Seq<char>,
                >(config.from@)
                &&& env.to matches Ok(list) && config.to@.len() == address_list(list@).len()
                &&& forall|i: int|
                    0 <= i < config.to@.len() ==> mail::mailbox_of(address_list(env.to->Ok_0@)[i])
                        == Ok::<Mailbox<Seq<char>>, Seq<char>>((#[trigger] config.to@[i])@)
            },
            r matches Ok(None) <==> env.host is None || env.host->0@.len() == 0,
    {
        let from = match &env.from {
            Ok(s) => Ok(parse_mailbox(s.as_str())),
            Err(cause) => Err(cause.clone()),
        };
        let to = match &env.to {
            Ok(list) => Ok(read_all(split_addresses(list.as_str()))),
            Err(cause) => Err(cause.clone()),
        };
        proof {
            if to is Ok {
                let list = readings(to->Ok_0@);
                assert(list == address_list(env.to->Ok_0@).map_values(
                    |s: Seq<char>| (s, mail::mailbox_of(s)),
                ));
                assert forall|i: int| 0 <= i < list.len() implies ((#[trigger] list[i]).1
                    matches Ok(mailbox) ==> mail::fits_a_header(mailbox)) by {
                    assert(list[i].1 == mail::reading(to->Ok_0@[i].1));
                }
                lemma_valid_mailboxes_fit(list);
            }
        }
        let ghost read = to;
        let ghost list = env.to;
        let r = SmtpConfig::from_parsed(env, from, to);
        proof {
            if r is Ok && r->Ok_0 is Some {
                let config = r->Ok_0->0;
                assert forall|i: int| 0 <= i < config.to@.len() implies mail::mailbox_of(
                    address_list(list->Ok_0@)[i],
                ) == Ok::<Mailbox<Seq<char>>, Seq<char>>((#[trigger] config.to@[i])@) by {
                    assert(read->Ok_0@[i].1 is Ok);
                    assert(readings(read->Ok_0@)[i].1 == mail::mailbox_of(
                        address_list(list->Ok_0@)[i],
                    ));
                }
            }
        }
        r
    }

    /// The checks on the server's certificate. Whether there are any rests on the
    /// cryptography that the process has installed, and on none of the settings.
    pub fn tls_parameters(&self) -> (r: Result<TlsParameters, lettre::transport::smtp::Error>)
        ensures
            r matches Ok(parameters) ==> mail::tls_settings(parameters) == self@.tls(),
            r matches Ok(parameters) ==> {
                let checks = mail::tls_settings(parameters);
                &&& checks.domain == self.host@
                &&& checks.accept_invalid_certs == self.accept_invalid_certs
                &&& checks.accept_invalid_hostnames == self.accept_invalid_certs
            },
    {
        if self.accept_invalid_certs {
            TlsParametersBuilder::new(self.host.clone()).dangerous_accept_invalid_certs(
                true,
            ).dangerous_accept_invalid_hostnames(true).build()
        } else {
            TlsParameters::new(self.host.clone())
        }
    }

    /// The way to the server over a connection that is encrypted as told.
    fn transport_over(&self, tls: Tls) -> (r: AsyncSmtpTransportBuilder)
        ensures
            mail::transport_settings(r) == (TransportSettings {
                tls: mail::tls_mode(tls),
                ..self@.transport()
            }),
    {
        let builder = transport_to(self.host.as_str()).port(self.port).tls(tls);
        match (&self.username, &self.password) {
            (Some(username), Some(password)) => builder.credentials(
                Credentials::new(username.clone(), password.clone()),
            ),
            _ => builder,
        }
    }

    /// The way to the server, given what came of the checks on its certificate. Where
    /// the connection is encrypted, there is a way exactly if there are checks, and
    /// otherwise their error is handed on. An unencrypted connection needs no checks.
    pub fn transport_by(
        &self,
        parameters: Result<TlsParameters, lettre::transport::smtp::Error>,
    ) -> (r: Result<AsyncSmtpTransportBuilder, lettre::transport::smtp::Error>)
        ensures
            self.encryption is Unencrypted ==> r is Ok && mail::transport_settings(r->Ok_0)
                == self@.transport(),
            !(self.encryption is Unencrypted) ==> match parameters {
                Ok(checks) => r is Ok && mail::transport_settings(r->Ok_0) == (TransportSettings {
                    tls: self@.mode(mail::tls_settings(checks)),
                    ..self@.transport()
                }),
                Err(e) => r == Err::<AsyncSmtpTransportBuilder, lettre::transport::smtp::Error>(e),
            },
            r matches Ok(builder) ==> {
                let settings = mail::transport_settings(builder);
                &&& settings.server == self.host@
                &&& settings.port == self.port
                &&& self.username is Some && self.password is Some ==> settings.credentials == Some(
                    (self.username->0@, self.password->0@),
                )
                &&& self.username is None || self.password is None ==> settings.credentials is None
            },
    {
        let tls = match (self.encryption, parameters) {
            (Encryption::Unencrypted, _) => unencrypted(),
            (_, Err(e)) => {
                return Err(e);
            },
            (Encryption::StartTls, Ok(checks)) => start_tls(checks),
            (Encryption::Tls, Ok(checks)) => wrapped(checks),
        };
        Ok(self.transport_over(tls))
    }

    /// The way to the server. It can only fail over encryption: see
    /// [`SmtpConfig::transport_by`], which is given the checks on the certificate.
    pub fn build_transport(&self) -> (r: Result<
        AsyncSmtpTransportBuilder,
        lettre::transport::smtp::Error,
    >)
        ensures
            r matches Ok(builder) ==> mail::transport_settings(builder) == self@.transport(),
            self.encryption is Unencrypted ==> r is Ok,
            r matches Ok(builder) ==> {
                let settings = mail::transport_settings(builder);
                &&& settings.server == self.host@
                &&& settings.port == self.port
                &&& self.username is Some && self.password is Some ==> settings.credentials == Some(
                    (self.username->0@, self.password->0@),
                )
                &&& self.username is None || self.password is None ==> settings.credentials is None
                &&& self.encryption is Unencrypted ==> settings.tls is Unencrypted
                &&& self.encryption is StartTls ==> (settings.tls matches TlsMode::StartTls(checks)
                    && checks.domain == self.host@ && checks.accept_invalid_certs
                    == self.accept_invalid_certs
                    && checks.accept_invalid_hostnames == self.accept_invalid_certs)
                &&& self.encryption is Tls ==> (settings.tls matches TlsMode::Wrapped(checks)
                    && checks.domain == self.host@ && checks.accept_invalid_certs
                    == self.accept_invalid_certs
                    && checks.accept_invalid_hostnames == self.accept_invalid_certs)
            },
    {
        if self.encryption == Encryption::Unencrypted {
            Ok(self.transport_over(unencrypted()))
        } else {
            self.transport_by(self.tls_parameters())
        }
    }
}

/// Reads each of a list of addresses.
fn read_all(list: Vec<String>) -> (r: Vec<Reading<String>>)
    ensures
        r@.len() == list@.len(),
        forall|i: int|
            0 <= i < list@.len() ==> {
                &&& (#[trigger] r@[i]).0@ == list@[i]@
                &&& mail::reading(r@[i].1) == mail::mailbox_of(list@[i]@)
                &&& r@[i].1 matches Ok(mailbox) ==> mail::fits_a_header(mailbox@)
            },
{
    let mut out: Vec<Reading<String>> = Vec::new();
    let mut i: usize = 0;
    while i < list.len()
        invariant
            i <= list.len(),
            out@.len() == i,
            forall|k: int|
                0 <= k < i ==> {
                    &&& (#[trigger] out@[k]).0@ == list@[k]@
                    &&& mail::reading(out@[k].1) == mail::mailbox_of(list@[k]@)
                    &&& out@[k].1 matches Ok(mailbox) ==> mail::fits_a_header(mailbox@)
                },
        decreases list.len() - i,
    {
        let reading = parse_mailbox(list[i].as_str());
        out.push((list[i].clone(), reading));
        i = i + 1;
    }
    out
}

/// Outcome of a single container update attempt, used to build the summary email.
#[derive(Debug, PartialEq, Eq)]
pub enum NotificationEvent {
    Updated { container: String, old_image: String, new_image: String },
    Failed { container: String, error: String },
}

/// The line of the summary that tells of an event.
pub open spec fn line(event: NotificationEvent) -> Seq<char> {
    match event {
        NotificationEvent::Updated { container, old_image, new_image } => "  - "@ + container@
            + ": "@ + old_image@ + " -> "@ + new_image@ + "\n"@,
        NotificationEvent::Failed { container, error } => "  - "@ + container@ + ": "@ + error@
            + "\n"@,
    }
}

/// Whether an event is one of the updates, or one of the failures.
pub open spec fn in_section(event: NotificationEvent, updates: bool) -> bool {
    event is Updated <==> updates
}

/// How many events a section has.
pub open spec fn section_len(events: Seq<NotificationEvent>, updates: bool) -> nat
    decreases events.len(),
{
    if events.len() == 0 {
        0
    } else if in_section(events.last(), updates) {
        section_len(events.drop_last(), updates) + 1
    } else {
        section_len(events.drop_last(), updates)
    }
}

/// The lines of a section, in the order of the events.
pub open spec fn section_lines(events: Seq<NotificationEvent>, updates: bool) -> Seq<char>
    decreases events.len(),
{
    if events.len() == 0 {
        Seq::empty()
    } else if in_section(events.last(), updates) {
        section_lines(events.drop_last(), updates) + line(events.last())
    } else {
        section_lines(events.drop_last(), updates)
    }
}

/// A section under its title, with a blank line behind it; nothing where there is
/// no event for it.
pub open spec fn section(events: Seq<NotificationEvent>, updates: bool) -> Seq<char> {
    if section_len(events, updates) == 0 {
        Seq::empty()
    } else {
        (if updates {
            "Updated:\n"@
        } else {
            "Failed:\n"@
        }) + section_lines(events, updates) + "\n"@
    }
}

/// The text of the summary: the updates, then the failures.
pub open spec fn body_of(events: Seq<NotificationEvent>) -> Seq<char> {
    section(events, true) + section(events, false)
}

/// The subject of the summary.
pub open spec fn subject_of(updated: nat, failed: nat) -> Seq<char> {
    if updated == 0 {
        "conti: "@ + text::decimal(failed) + " update(s) failed"@
    } else if failed == 0 {
        "conti: "@ + text::decimal(updated) + " container(s) updated"@
    } else {
        "conti: "@ + text::decimal(updated) + " updated, "@ + text::decimal(failed) + " failed"@
    }
}

/// Whether the events are worth an email: there are some, and a failure among them
/// where only failures count.
pub open spec fn is_wanted(notify_on: NotifyOn, events: Seq<NotificationEvent>) -> bool {
    events.len() > 0 && (notify_on is ErrorsOnly ==> section_len(events, false) > 0)
}

/// The summary of a run.
#[derive(Debug, PartialEq, Eq)]
pub struct Summary {
    pub subject: String,
    pub body: String,
}

fn count(events: &Vec<NotificationEvent>, updates: bool) -> (r: usize)
    ensures
        r == section_len(events@, updates),
{
    let mut n: usize = 0;
    let mut i: usize = 0;
    while i < events.len()
        invariant
            n <= i <= events.len(),
            n == section_len(events@.take(i as int), updates),
        decreases events.len() - i,
    {
        assert(events@.take(i + 1).drop_last() == events@.take(i as int));
        let updated = match &events[i] {
            NotificationEvent::Updated { .. } => true,
            NotificationEvent::Failed { .. } => false,
        };
        if updated == updates {
            n = n + 1;
        }
        i = i + 1;
    }
    assert(events@.take(i as int) == events@);
    n
}

fn append_section(body: &mut String, events: &Vec<NotificationEvent>, updates: bool)
    requires
        section_len(events@, updates) > 0,
    ensures
        final(body)@ == old(body)@ + section(events@, updates),
{
    let ghost start = body@;
    if updates {
        body.append("Updated:\n");
    } else {
        body.append("Failed:\n");
    }
    let ghost titled = body@;
    let mut i: usize = 0;
    assert(titled == titled + section_lines(events@.take(0), updates));
    while i < events.len()
        invariant
            i <= events.len(),
            body@ == titled + section_lines(events@.take(i as int), updates),
        decreases events.len() - i,
    {
        assert(events@.take(i + 1).drop_last() == events@.take(i as int));
        let ghost before = body@;
        match &events[i] {
            NotificationEvent::Updated { container, old_image, new_image } => {
                if updates {
                    body.append("  - ");
                    body.append(container.as_str());
                    body.append(": ");
                    body.append(old_image.as_str());
                    body.append(" -> ");
                    body.append(new_image.as_str());
                    body.append("\n");
                    assert(body@ == before + line(events@[i as int]));
                }
            },
            NotificationEvent::Failed { container, error } => {
                if !updates {
                    body.append("  - ");
                    body.append(container.as_str());
                    body.append(": ");
                    body.append(error.as_str());
                    body.append("\n");
                    assert(body@ == before + line(events@[i as int]));
                }
            },
        }
        assert(body@ == titled + section_lines(events@.take(i + 1), updates));
        i = i + 1;
    }
    assert(events@.take(i as int) == events@);
    body.append("\n");
    assert(body@ == start + section(events@, updates));
}

/// Writes the summary of a run. None if there is nothing to report, or if only
/// failures are to be reported and no update failed.
pub fn summarize(notify_on: NotifyOn, events: &Vec<NotificationEvent>) -> (r: Option<Summary>)
    ensures
        match r {
            Some(summary) => {
                &&& is_wanted(notify_on, events@)
                &&& summary.subject@ == subject_of(
                    section_len(events@, true),
                    section_len(events@, false),
                )
                &&& summary.body@ == body_of(events@)
            },
            None => !is_wanted(notify_on, events@),
        },
{
    if events.len() == 0 {
        return None;
    }
    let updated = count(events, true);
    let failed = count(events, false);
    if notify_on == NotifyOn::ErrorsOnly && failed == 0 {
        return None;
    }
    let mut subject = "conti: ".to_owned();
    if updated == 0 {
        subject.append(text::render(failed as u64).as_str());
        subject.append(" update(s) failed");
    } else if failed == 0 {
        subject.append(text::render(updated as u64).as_str());
        subject.append(" container(s) updated");
    } else {
        subject.append(text::render(updated as u64).as_str());
        subject.append(" updated, ");
        subject.append(text::render(failed as u64).as_str());
        subject.append(" failed");
    }
    let mut body = String::new();
    if updated > 0 {
        append_section(&mut body, events, true);
    }
    assert(body@ == section(events@, true));
    if failed > 0 {
        append_section(&mut body, events, false);
    }
    assert(body@ == body_of(events@));
    Some(Summary { subject, body })
}

/// Why a summary cannot be sent.
pub enum SummaryError {
    /// The message could not be composed.
    Compose { cause: String },
    /// The way to the server could not be set up.
    Transport { cause: lettre::transport::smtp::Error },
}

/// A summary to be sent, and the way to the server.
pub struct Delivery {
    pub email: Email,
    pub transport: AsyncSmtpTransportBuilder,
}

/// Puts a message on the way to the server, given what came of that way: the message
/// is on it exactly if there is one, and otherwise the error is handed on.
pub fn deliver_by(
    email: Email,
    transport: Result<AsyncSmtpTransportBuilder, lettre::transport::smtp::Error>,
) -> (r: Result<Delivery, SummaryError>)
    ensures
        match transport {
            Ok(transport) => r == Ok::<Delivery, SummaryError>(Delivery { email, transport }),
            Err(cause) => r == Err::<Delivery, SummaryError>(SummaryError::Transport { cause }),
        },
{
    match transport {
        Ok(transport) => Ok(Delivery { email, transport }),
        Err(cause) => Err(SummaryError::Transport { cause }),
    }
}

/// Puts a composed message on the way to the server: see [`deliver_by`], which is given
/// that way.
pub fn deliver(config: &SmtpConfig, composed: Result<Email, String>) -> (r: Result<
    Delivery,
    SummaryError,
>)
    ensures
        composed matches Err(cause) ==> r == Err::<Delivery, SummaryError>(
            SummaryError::Compose { cause },
        ),
        composed matches Ok(email) ==> {
            match r {
                Ok(delivery) => {
                    &&& delivery.email == email
                    &&& mail::transport_settings(delivery.transport) == config@.transport()
                },
                Err(SummaryError::Compose { .. }) => false,
                Err(SummaryError::Transport { .. }) => !(config.encryption is Unencrypted),
            }
        },
        r matches Ok(delivery) ==> {
            let settings = mail::transport_settings(delivery.transport);
            &&& settings.server == config.host@
            &&& settings.port == config.port
            &&& config.username is Some && config.password is Some ==> settings.credentials == Some(
                (config.username->0@, config.password->0@),
            )
            &&& config.username is None || config.password is None ==> settings.credentials is None
            &&& config.encryption is Unencrypted ==> settings.tls is Unencrypted
            &&& config.encryption is StartTls ==> (settings.tls matches TlsMode::StartTls(checks)
                && checks.domain == config.host@ && checks.accept_invalid_certs
                == config.accept_invalid_certs
                && checks.accept_invalid_hostnames == config.accept_invalid_certs)
            &&& config.encryption is Tls ==> (settings.tls matches TlsMode::Wrapped(checks)
                && checks.domain == config.host@ && checks.accept_invalid_certs
                == config.accept_invalid_certs
                && checks.accept_invalid_hostnames == config.accept_invalid_certs)
        },
{
    match composed {
        Err(cause) => Err(SummaryError::Compose { cause }),
        Ok(email) => deliver_by(email, config.build_transport()),
    }
}

/// Prepares a single summary email covering all updates and failures from this run,
/// for the caller to hand to the server. `Ok(None)` if there is nothing to report,
/// or if only failures are to be reported and no update failed.
pub fn send_summary(config: &SmtpConfig, events: &Vec<NotificationEvent>) -> (r: Result<
    Option<Delivery>,
    SummaryError,
>)
    requires
        config@.wf(),
    ensures
        !is_wanted(config.notify_on, events@) ==> r is Ok && r->Ok_0 is None,
        is_wanted(config.notify_on, events@) ==> exists|date: Seq<char>|
            match #[trigger] mail::message_of(
                mail::letter(
                    config@.from,
                    config@.to,
                    subject_of(section_len(events@, true), section_len(events@, false)),
                ),
                body_of(events@),
                date,
            ) {
                Err(cause) => match r {
                    Err(SummaryError::Compose { cause: reported }) => reported@ == cause,
                    _ => false,
                },
                Ok(email) => match r {
                    Ok(Some(delivery)) => {
                        &&& delivery.email@ == email
                        &&& mail::transport_settings(delivery.transport) == config@.transport()
                    },
                    Ok(None) => false,
                    Err(SummaryError::Compose { .. }) => false,
                    Err(SummaryError::Transport { .. }) => !(config.encryption is Unencrypted),
                },
            },
        is_wanted(config.notify_on, events@) && config@.to.len() > 0 && mail::is_plain(config@.from)
            && mail::all_plain(config@.to) ==> match r {
            Ok(Some(delivery)) => {
                &&& delivery.email@.sender == Some(config@.from.address)
                &&& delivery.email@.recipients == mail::addresses(config@.to)
            },
            Ok(None) => false,
            Err(SummaryError::Compose { .. }) => false,
            Err(SummaryError::Transport { .. }) => !(config.encryption is Unencrypted),
        },
        r matches Ok(Some(delivery)) ==> {
            let settings = mail::transport_settings(delivery.transport);
            &&& settings.server == config.host@
            &&& settings.port == config.port
            &&& config.username is Some && config.password is Some ==> settings.credentials == Some(
                (config.username->0@, config.password->0@),
            )
            &&& config.username is None || config.password is None ==> settings.credentials is None
            &&& config.encryption is Unencrypted ==> settings.tls is Unencrypted
            &&& config.encryption is StartTls ==> (settings.tls matches TlsMode::StartTls(checks)
                && checks.domain == config.host@ && checks.accept_invalid_certs
                == config.accept_invalid_certs
                && checks.accept_invalid_hostnames == config.accept_invalid_certs)
            &&& config.encryption is Tls ==> (settings.tls matches TlsMode::Wrapped(checks)
                && checks.domain == config.host@ && checks.accept_invalid_certs
                == config.accept_invalid_certs
                && checks.accept_invalid_hostnames == config.accept_invalid_certs)
        },
{
    match summarize(config.notify_on, events) {
        None => Ok(None),
        Some(summary) => {
            let composed = compose(&config.from, &config.to, summary.subject, summary.body);
            match deliver(config, composed) {
                Ok(delivery) => Ok(Some(delivery)),
                Err(e) => Err(e),
            }
        },
    }
}

/// Every event is either an update or a failure, and the sections count each once.
pub proof fn law_every_event_is_counted_once(events: Seq<NotificationEvent>)
    ensures
        section_len(events, true) + section_len(events, false) == events.len(),
    decreases events.len(),
{
    if events.len() > 0 {
        law_every_event_is_counted_once(events.drop_last());
    }
}

/// The line of each event stands in its section.
proof fn lemma_line_in_section(events: Seq<NotificationEvent>, i: int) -> (r: (
    Seq<char>,
    Seq<char>,
))
    requires
        0 <= i < events.len(),
    ensures
        section_lines(events, events[i] is Updated) == r.0 + line(events[i]) + r.1,
        section_len(events, events[i] is Updated) > 0,
    decreases events.len(),
{
    let updates = events[i] is Updated;
    let init = events.drop_last();
    if i == events.len() - 1 {
        let before = section_lines(init, updates);
        assert(section_lines(events, updates) == before + line(events[i]) + Seq::empty());
        (before, Seq::empty())
    } else {
        assert(init[i] == events[i]);
        let (before, after) = lemma_line_in_section(init, i);
        if in_section(events.last(), updates) {
            let rest = after + line(events.last());
            assert(section_lines(events, updates) == before + line(events[i]) + rest);
            (before, rest)
        } else {
            (before, after)
        }
    }
}

/// The summary covers every update and every failure: the line of each event stands
/// in its text.
pub proof fn law_the_summary_covers_every_event(events: Seq<NotificationEvent>, i: int)
    requires
        0 <= i < events.len(),
    ensures
        exists|before: Seq<char>, after: Seq<char>|
            body_of(events) == #[trigger] (before + line(events[i]) + after),
{
    let updates = events[i] is Updated;
    let (before, after) = lemma_line_in_section(events, i);
    let title = if updates {
        "Updated:\n"@
    } else {
        "Failed:\n"@
    };
    let head = if updates {
        title + before
    } else {
        section(events, true) + title + before
    };
    let tail = if updates {
        after + "\n"@ + section(events, false)
    } else {
        after + "\n"@
    };
    assert(body_of(events) == head + line(events[i]) + tail);
}

/// A run that reports only failures sends nothing unless an update failed; and a run
/// without events sends nothing at all.
pub proof fn law_no_email_without_news(events: Seq<NotificationEvent>, notify_on: NotifyOn)
    ensures
        events.len() == 0 ==> !is_wanted(notify_on, events),
        is_wanted(NotifyOn::ErrorsOnly, events) <==> exists|i: int|
            0 <= i < events.len() && #[trigger] events[i] is Failed,
        is_wanted(NotifyOn::All, events) <==> events.len() > 0,
{
    lemma_failures_are_counted(events);
}

/// There is a failure to count where there is a failure.
proof fn lemma_failures_are_counted(events: Seq<NotificationEvent>)
    ensures
        section_len(events, false) > 0 <==> exists|i: int|
            0 <= i < events.len() && #[trigger] events[i] is Failed,
    decreases events.len(),
{
    if events.len() > 0 {
        let init = events.drop_last();
        lemma_failures_are_counted(init);
        if events.last() is Failed {
            assert(events[events.len() - 1] is Failed);
        }
        if exists|i: int| 0 <= i < init.len() && #[trigger] init[i] is Failed {
            let i = choose|i: int| 0 <= i < init.len() && #[trigger] init[i] is Failed;
            assert(events[i] is Failed);
        }
        if exists|i: int| 0 <= i < events.len() && #[trigger] events[i] is Failed {
            let i = choose|i: int| 0 <= i < events.len() && #[trigger] events[i] is Failed;
            if i < init.len() {
                assert(init[i] is Failed);
            }
        }
    }
}

/// Without a host nothing else in the environment matters, not even a mistake.
pub proof fn law_without_a_host_there_is_no_email(
    env: SmtpEnv,
    from: Sender<Seq<char>>,
    to: Result<Seq<Reading<Seq<char>>>, Seq<char>>,
)
    requires
        env.host is None || env.host->0@.len() == 0,
    ensures
        configured(env, from, to) == Ok::<Option<SmtpConfigView>, SmtpError<Seq<char>>>(None),
{
}

/// A configuration has a host, a recipient for every address in the list and at
/// least one, and no empty user name or password.
pub proof fn law_a_configuration_is_complete(
    env: SmtpEnv,
    from: Sender<Seq<char>>,
    to: Result<Seq<Reading<Seq<char>>>, Seq<char>>,
)
    ensures
        configured(env, from, to) matches Ok(Some(config)) ==> {
            &&& config.host.len() > 0
            &&& from == Ok::<Result<Mailbox<Seq<char>>, Seq<char>>, Seq<char>>(Ok(config.from))
            &&& config.to.len() > 0
            &&& to matches Ok(list)
            &&& config.to.len() == list.len()
            &&& forall|i: int|
                0 <= i < list.len() ==> (#[trigger] list[i]).1 == Ok::<
                    Mailbox<Seq<char>>,
                    Seq<char>,
                >(config.to[i])
            &&& config.username matches Some(name) ==> name.len() > 0
            &&& config.password matches Some(password) ==> password.len() > 0
        },
{
    if to is Ok {
        lemma_all_valid_keeps_all(to->Ok_0);
    }
}

/// The mailboxes of a list are those of its addresses, one by one.
proof fn lemma_all_valid_keeps_all(list: Seq<Reading<Seq<char>>>)
    ensures
        all_valid(list) matches Ok(to) ==> {
            &&& to.len() == list.len()
            &&& forall|i: int|
                0 <= i < list.len() ==> (#[trigger] list[i]).1 == Ok::<
                    Mailbox<Seq<char>>,
                    Seq<char>,
                >(to[i])
        },
    decreases list.len(),
{
    if list.len() > 0 {
        let init = list.drop_last();
        lemma_all_valid_keeps_all(init);
        if all_valid(list) is Ok {
            let to = all_valid(list)->Ok_0;
            assert forall|i: int| 0 <= i < list.len() implies (#[trigger] list[i]).1 == Ok::<
                Mailbox<Seq<char>>,
                Seq<char>,
            >(to[i]) by {
                if i < init.len() {
                    assert(init[i] == list[i]);
                }
            }
        }
    }
}

/// A host, a sender and recipients are enough: the connection is then encrypted by
/// way of STARTTLS on the port for mail submission, the certificate is checked, and
/// every run is worth an email.
pub proof fn law_the_defaults(
    env: SmtpEnv,
    from: Mailbox<Seq<char>>,
    to: Seq<Reading<Seq<char>>>,
)
    requires
        env.host is Some && env.host->0@.len() > 0,
        env.port is None,
        env.encryption is None,
        env.notify is None,
        env.accept_invalid_certs is None,
        to.len() > 0,
        all_valid(to) is Ok,
    ensures
        configured(env, Ok(Ok(from)), Ok(to)) matches Ok(Some(config)) && {
            &&& config.port == DEFAULT_PORT
            &&& config.encryption == Encryption::StartTls
            &&& config.notify_on == NotifyOn::All
            &&& !config.accept_invalid_certs
            &&& config.transport().tls == TlsMode::StartTls(
                TlsSettings {
                    domain: config.host,
                    accept_invalid_certs: false,
                    accept_invalid_hostnames: false,
                },
            )
        },
{
    lemma_all_valid_keeps_all(to);
}

/// The way to the server is the one that is configured: its host and port; the user name
/// and the password, each in its place, where there are both; and the encryption, with a
/// certificate made out to the host and checked unless invalid ones are accepted.
pub proof fn law_the_transport_is_the_one_configured(config: SmtpConfig, checks: TlsSettings)
    ensures
        ({
            let settings = config@.transport();
            &&& settings.server == config.host@
            &&& settings.port == config.port
            &&& config.username is Some && config.password is Some ==> settings.credentials == Some(
                (config.username->0@, config.password->0@),
            )
            &&& config.username is None || config.password is None ==> settings.credentials is None
            &&& config.encryption is Unencrypted ==> settings.tls is Unencrypted
            &&& config.encryption is StartTls ==> (settings.tls matches TlsMode::StartTls(checks)
                && checks.domain == config.host@ && checks.accept_invalid_certs
                == config.accept_invalid_certs
                && checks.accept_invalid_hostnames == config.accept_invalid_certs)
            &&& config.encryption is Tls ==> (settings.tls matches TlsMode::Wrapped(checks)
                && checks.domain == config.host@ && checks.accept_invalid_certs
                == config.accept_invalid_certs
                && checks.accept_invalid_hostnames == config.accept_invalid_certs)
        }),
        config.encryption is Unencrypted ==> config@.mode(checks) == TlsMode::Unencrypted,
        config.encryption is StartTls ==> config@.mode(checks) == TlsMode::StartTls(checks),
        config.encryption is Tls ==> config@.mode(checks) == TlsMode::Wrapped(checks),
{
}

/// What is seen of a configuration is what it holds.
pub proof fn law_a_configuration_is_seen_as_it_is(config: SmtpConfig)
    ensures
        config@.host == config.host@,
        config@.port == config.port,
        config@.username is Some <==> config.username is Some,
        config.username is Some ==> config@.username->0 == config.username->0@,
        config@.password is Some <==> config.password is Some,
        config.password is Some ==> config@.password->0 == config.password->0@,
        config@.from == config.from@,
        config@.to.len() == config.to@.len(),
        forall|i: int| 0 <= i < config.to@.len() ==> #[trigger] config@.to[i] == config.to@[i]@,
        config@.encryption == config.encryption,
        config@.notify_on == config.notify_on,
        config@.accept_invalid_certs == config.accept_invalid_certs,
{
}

/// A list of addresses is read part by part, in order: the addresses on the two sides of
/// a comma are those of the one side and then those of the other; and what has no comma
/// in it is one address, without the whitespace around it, unless it is all whitespace.
pub proof fn law_addresses_are_read_in_order(a: Seq<char>, b: Seq<char>)
    ensures
        address_list(a + seq![','] + b) == address_list(a) + address_list(b),
        !a.contains(',') && text::trimmed(a).len() > 0 ==> address_list(a) == seq![
            text::trimmed(a),
        ],
        !a.contains(',') && text::trimmed(a).len() == 0 ==> address_list(a) == Seq::<
            Seq<char>,
        >::empty(),
{
    text::lemma_pieces_join(a, b, ',');
    lemma_listed_joined(text::pieces(a, ','), text::pieces(b, ','));
    if !a.contains(',') {
        text::lemma_pieces_single(a, ',');
        reveal_with_fuel(listed, 2);
        assert(seq![a].drop_last() == Seq::<Seq<char>>::empty());
        assert(Seq::<Seq<char>>::empty().push(text::trimmed(a)) == seq![text::trimmed(a)]);
    }
}

/// Parts are listed in their order.
proof fn lemma_listed_joined(a: Seq<Seq<char>>, b: Seq<Seq<char>>)
    ensures
        listed(a + b) == listed(a) + listed(b),
    decreases b.len(),
{
    if b.len() == 0 {
        assert(a + b == a);
        assert(listed(a) + listed(b) == listed(a));
    } else {
        lemma_listed_joined(a, b.drop_last());
        assert((a + b).drop_last() == a + b.drop_last());
        assert((a + b).last() == b.last());
        let part = text::trimmed(b.last());
        assert(listed(a) + listed(b.drop_last()).push(part) == (listed(a) + listed(
            b.drop_last(),
        )).push(part));
    }
}

/// The sender and each of the recipients are read from the environment.
pub proof fn law_the_addresses_are_those_of_the_environment(env: SmtpEnv)
    ensures
        env.from matches Ok(s) ==> sender_in(env) == Ok::<
            Result<Mailbox<Seq<char>>, Seq<char>>,
            Seq<char>,
        >(mail::mailbox_of(s@)),
        env.from matches Err(cause) ==> sender_in(env) == Err::<
            Result<Mailbox<Seq<char>>, Seq<char>>,
            Seq<char>,
        >(cause@),
        env.to matches Ok(list) ==> {
            &&& recipients_in(env) matches Ok(readings)
            &&& readings.len() == address_list(list@).len()
            &&& forall|i: int|
                0 <= i < readings.len() ==> #[trigger] readings[i] == (
                    address_list(list@)[i],
                    mail::mailbox_of(address_list(list@)[i]),
                )
        },
        env.to matches Err(cause) ==> recipients_in(env) == Err::<
            Seq<Reading<Seq<char>>>,
            Seq<char>,
        >(cause@),
{
}

/// Of a list of addresses the first that is no mailbox is told, whatever follows it.
pub proof fn law_the_first_invalid_address_is_told(list: Seq<Reading<Seq<char>>>, i: int)
    requires
        0 <= i < list.len(),
        list[i].1 is Err,
        forall|k: int| 0 <= k < i ==> (#[trigger] list[k]).1 is Ok,
    ensures
        all_valid(list) == Err::<Seq<Mailbox<Seq<char>>>, SmtpError<Seq<char>>>(
            SmtpError::InvalidTo { address: list[i].0, cause: list[i].1->Err_0 },
        ),
{
    let init = list.take(i);
    assert forall|k: int| 0 <= k < init.len() implies (#[trigger] init[k]).1 is Ok by {
        assert(init[k] == list[k]);
    }
    law_mailboxes_are_all_kept(init);
    assert(list.take(i + 1).drop_last() == init);
    assert(list.take(i + 1).last() == list[i]);
    lemma_first_invalid_decides(list, i + 1);
}

/// A list of addresses that are all mailboxes comes out mailbox by mailbox.
pub proof fn law_mailboxes_are_all_kept(list: Seq<Reading<Seq<char>>>)
    requires
        forall|k: int| 0 <= k < list.len() ==> (#[trigger] list[k]).1 is Ok,
    ensures
        all_valid(list) matches Ok(to) && to.len() == list.len() && forall|k: int|
            0 <= k < list.len() ==> to[k] == (#[trigger] list[k]).1->Ok_0,
    decreases list.len(),
{
    if list.len() > 0 {
        let init = list.drop_last();
        assert forall|k: int| 0 <= k < init.len() implies (#[trigger] init[k]).1 is Ok by {
            assert(init[k] == list[k]);
        }
        law_mailboxes_are_all_kept(init);
        assert(list[list.len() - 1].1 is Ok);
        let to = all_valid(list)->Ok_0;
        assert forall|k: int| 0 <= k < list.len() implies to[k] == (
        #[trigger] list[k]).1->Ok_0 by {
            if k < init.len() {
                assert(init[k] == list[k]);
            }
        }
    }
}

/// The first setting that is wrong is told, in this order: the port, the sender, the
/// recipients, the encryption, the occasion and the certificates. Where none is wrong there
/// is a configuration.
pub proof fn law_the_first_wrong_setting_is_told(
    env: SmtpEnv,
    from: Sender<Seq<char>>,
    to: Result<Seq<Reading<Seq<char>>>, Seq<char>>,
)
    requires
        env.host is Some && env.host->0@.len() > 0,
    ensures
        ({
            let r = configured(env, from, to);
            if env.port is Some && text::number_up_to(env.port->0@, 65535) is None {
                r matches Err(SmtpError::InvalidPort { fault }) && Some(fault)
                    == text::number_error(env.port->0@, 65535)
            } else if from is Err {
                r matches Err(SmtpError::MissingFrom { cause }) && cause == from->Err_0
            } else if from->Ok_0 is Err {
                r matches Err(SmtpError::InvalidFrom { cause }) && cause == from->Ok_0->Err_0
            } else if to is Err {
                r matches Err(SmtpError::MissingTo { cause }) && cause == to->Err_0
            } else if all_valid(to->Ok_0) is Err {
                r matches Err(e) && e == all_valid(to->Ok_0)->Err_0
            } else if to->Ok_0.len() == 0 {
                r matches Err(SmtpError::NoRecipient)
            } else if env.encryption is Some && env.encryption->0@ != "none"@
                && env.encryption->0@ != "tls"@ && env.encryption->0@ != "starttls"@ {
                r matches Err(SmtpError::InvalidEncryption { value }) && value
                    == env.encryption->0@
            } else if env.notify is Some && env.notify->0@ != "errors"@ && env.notify->0@
                != "all"@ {
                r matches Err(SmtpError::InvalidNotify { value }) && value == env.notify->0@
            } else if env.accept_invalid_certs is Some && env.accept_invalid_certs->0@ != "true"@
                && env.accept_invalid_certs->0@ != "false"@ {
                r matches Err(SmtpError::InvalidAcceptInvalidCerts { value }) && value
                    == env.accept_invalid_certs->0@
            } else {
                r matches Ok(Some(_))
            }
        }),
{
    if env.port is Some {
        text::law_a_number_has_no_error(env.port->0@, 65535);
    }
    if to is Ok {
        lemma_all_valid_keeps_all(to->Ok_0);
    }
}

/// An event is told in one line: an update with its two images, a failure with its reason.
pub proof fn law_the_line_of_an_event(event: NotificationEvent)
    ensures
        event matches NotificationEvent::Updated { container, old_image, new_image } ==> line(event)
            == "  - "@ + container@ + ": "@ + old_image@ + " -> "@ + new_image@ + "\n"@,
        event matches NotificationEvent::Failed { container, error } ==> line(event) == "  - "@
            + container@ + ": "@ + error@ + "\n"@,
{
}

/// The lines of a section are those of the events that belong there, in their order: an
/// update stands among the updates, a failure among the failures, and in no other section.
pub proof fn law_the_lines_come_in_order(
    a: Seq<NotificationEvent>,
    b: Seq<NotificationEvent>,
    event: NotificationEvent,
)
    ensures
        section_lines(a + b, true) == section_lines(a, true) + section_lines(b, true),
        section_lines(a + b, false) == section_lines(a, false) + section_lines(b, false),
        section_lines(Seq::empty(), true) == Seq::<char>::empty(),
        section_lines(Seq::empty(), false) == Seq::<char>::empty(),
        event is Updated ==> section_lines(seq![event], true) == line(event) && section_lines(
            seq![event],
            false,
        ) == Seq::<char>::empty(),
        event is Failed ==> section_lines(seq![event], false) == line(event) && section_lines(
            seq![event],
            true,
        ) == Seq::<char>::empty(),
{
    lemma_lines_joined(a, b, true);
    lemma_lines_joined(a, b, false);
    reveal_with_fuel(section_lines, 2);
    assert(seq![event].drop_last() == Seq::<NotificationEvent>::empty());
    assert(Seq::<char>::empty() + line(event) == line(event));
}

/// The lines of two runs of events are the lines of the one and then of the other.
proof fn lemma_lines_joined(
    a: Seq<NotificationEvent>,
    b: Seq<NotificationEvent>,
    updates: bool,
)
    ensures
        section_lines(a + b, updates) == section_lines(a, updates) + section_lines(b, updates),
    decreases b.len(),
{
    if b.len() == 0 {
        assert(a + b == a);
        assert(section_lines(a, updates) + section_lines(b, updates) == section_lines(a, updates));
    } else {
        lemma_lines_joined(a, b.drop_last(), updates);
        assert((a + b).drop_last() == a + b.drop_last());
        assert((a + b).last() == b.last());
        let rest = section_lines(b.drop_last(), updates);
        assert(section_lines(a, updates) + (rest + line(b.last())) == section_lines(a, updates)
            + rest + line(b.last()));
    }
}

/// The sections count the updates and the failures.
pub proof fn law_updates_and_failures_are_counted(events: Seq<NotificationEvent>)
    ensures
        section_len(events, true) == events.filter(|e: NotificationEvent| e is Updated).len(),
        section_len(events, false) == events.filter(|e: NotificationEvent| e is Failed).len(),
    decreases events.len(),
{
    reveal(Seq::filter);
    if events.len() > 0 {
        law_updates_and_failures_are_counted(events.drop_last());
    }
}

/// The text of the summary has the updates under their title and then the failures under
/// theirs, each with a blank line behind, and nothing of what there is none of.
pub proof fn law_the_text_has_titles(events: Seq<NotificationEvent>)
    ensures
        ({
            let updates = "Updated:\n"@ + section_lines(events, true) + "\n"@;
            let failures = "Failed:\n"@ + section_lines(events, false) + "\n"@;
            let updated = events.filter(|e: NotificationEvent| e is Updated).len() > 0;
            let failed = events.filter(|e: NotificationEvent| e is Failed).len() > 0;
            &&& updated && failed ==> body_of(events) == updates + failures
            &&& updated && !failed ==> body_of(events) == updates
            &&& !updated && failed ==> body_of(events) == failures
            &&& !updated && !failed ==> body_of(events) == Seq::<char>::empty()
        }),
{
    law_updates_and_failures_are_counted(events);
    assert(forall|s: Seq<char>| #[trigger] (s + Seq::<char>::empty()) == s);
    assert(forall|s: Seq<char>| #[trigger] (Seq::<char>::empty() + s) == s);
}

/// The subject tells how many updates and how many failures there were, each only where
/// there were any.
pub proof fn law_the_subject_tells_the_counts(updated: nat, failed: nat)
    ensures
        updated > 0 && failed > 0 ==> subject_of(updated, failed) == "conti: "@ + text::decimal(
            updated,
        ) + " updated, "@ + text::decimal(failed) + " failed"@,
        updated > 0 && failed == 0 ==> subject_of(updated, failed) == "conti: "@ + text::decimal(
            updated,
        ) + " container(s) updated"@,
        updated == 0 ==> subject_of(updated, failed) == "conti: "@ + text::decimal(failed)
            + " update(s) failed"@,
{
}

/// What is seen of an error in the settings is what it holds.
pub proof fn law_a_settings_error_is_seen_as_it_is(error: SmtpError<String>)
    ensures
        error is InvalidPort ==> error@ is InvalidPort && error@->fault == error->fault,
        error is NoRecipient ==> error@ is NoRecipient,
        error is MissingFrom ==> error@ is MissingFrom && error@->MissingFrom_cause
            == error->MissingFrom_cause@,
        error is InvalidFrom ==> error@ is InvalidFrom && error@->InvalidFrom_cause
            == error->InvalidFrom_cause@,
        error is MissingTo ==> error@ is MissingTo && error@->MissingTo_cause
            == error->MissingTo_cause@,
        error is InvalidTo ==> error@ is InvalidTo && error@->InvalidTo_address
            == error->InvalidTo_address@,
        error is InvalidTo ==> error@ is InvalidTo && error@->InvalidTo_cause
            == error->InvalidTo_cause@,
        error is InvalidEncryption ==> error@ is InvalidEncryption
            && error@->InvalidEncryption_value
            == error->InvalidEncryption_value@,
        error is InvalidNotify ==> error@ is InvalidNotify && error@->InvalidNotify_value
            == error->InvalidNotify_value@,
        error is InvalidAcceptInvalidCerts ==> error@ is InvalidAcceptInvalidCerts
            && error@->InvalidAcceptInvalidCerts_value
            == error->InvalidAcceptInvalidCerts_value@,
{
}

} // verus!
