use conti::mail::{Address, Email, Mailbox};
use conti::notify::{
    deliver, deliver_by, send_summary, split_addresses, summarize, Delivery, Encryption,
    NotificationEvent, NotifyOn, SmtpConfig, SmtpEnv, SmtpError, SummaryError,
};
use conti::text::NumberError;
use lettre::transport::smtp::client::{TlsParametersBuilder, TlsVersion};

fn s(text: &str) -> String {
    text.to_string()
}

fn mailbox(name: Option<&str>, user: &str, domain: &str) -> Mailbox<String> {
    Mailbox { name: name.map(s), address: Address { user: s(user), domain: s(domain) } }
}

fn unset() -> Result<String, String> {
    Err(s("environment variable not found"))
}

/// An environment without any of the variables.
fn blank() -> SmtpEnv {
    SmtpEnv {
        host: None,
        port: None,
        username: None,
        password: None,
        from: unset(),
        to: unset(),
        encryption: None,
        notify: None,
        accept_invalid_certs: None,
    }
}

fn env() -> SmtpEnv {
    SmtpEnv {
        host: Some(s("mail.example.org")),
        from: Ok(s("conti@example.org")),
        to: Ok(s("admin@example.org")),
        ..blank()
    }
}

fn config() -> SmtpConfig {
    SmtpConfig::from_env(env()).unwrap().unwrap()
}

fn rejected(env: SmtpEnv) -> SmtpError<String> {
    SmtpConfig::from_env(env).unwrap_err()
}

fn update(container: &str) -> NotificationEvent {
    NotificationEvent::Updated {
        container: s(container),
        old_image: s("sha256:old"),
        new_image: s("sha256:new"),
    }
}

fn failure(container: &str, error: &str) -> NotificationEvent {
    NotificationEvent::Failed { container: s(container), error: s(error) }
}

#[test]
fn without_a_host_there_is_no_email() {
    assert_eq!(SmtpConfig::from_env(blank()), Ok(None));
    let broken = SmtpEnv { port: Some(s("x")), ..blank() };
    assert_eq!(SmtpConfig::from_env(broken), Ok(None));
    assert_eq!(SmtpConfig::from_env(SmtpEnv { host: Some(s("")), ..env() }), Ok(None));
}

#[test]
fn settings_have_defaults() {
    assert_eq!(
        config(),
        SmtpConfig {
            host: s("mail.example.org"),
            port: 587,
            username: None,
            password: None,
            from: mailbox(None, "conti", "example.org"),
            to: vec![mailbox(None, "admin", "example.org")],
            encryption: Encryption::StartTls,
            notify_on: NotifyOn::All,
            accept_invalid_certs: false,
        }
    );
}

#[test]
fn every_setting_is_read() {
    let env = SmtpEnv {
        host: Some(s("mail.example.org")),
        port: Some(s("2525")),
        username: Some(s("user")),
        password: Some(s("pass")),
        from: Ok(s("Conti Updater <conti@example.org>")),
        to: Ok(s("a@example.org, ,Bob <b@example.net>,")),
        encryption: Some(s("tls")),
        notify: Some(s("errors")),
        accept_invalid_certs: Some(s("true")),
    };
    assert_eq!(
        SmtpConfig::from_env(env),
        Ok(Some(SmtpConfig {
            host: s("mail.example.org"),
            port: 2525,
            username: Some(s("user")),
            password: Some(s("pass")),
            from: mailbox(Some("Conti Updater"), "conti", "example.org"),
            to: vec![
                mailbox(None, "a", "example.org"),
                mailbox(Some("Bob"), "b", "example.net"),
            ],
            encryption: Encryption::Tls,
            notify_on: NotifyOn::ErrorsOnly,
            accept_invalid_certs: true,
        }))
    );
}

#[test]
fn spelled_out_settings_are_read() {
    let read = |encryption: &str, notify: &str, certs: &str| {
        let env = SmtpEnv {
            encryption: Some(s(encryption)),
            notify: Some(s(notify)),
            accept_invalid_certs: Some(s(certs)),
            ..env()
        };
        let config = SmtpConfig::from_env(env).unwrap().unwrap();
        (config.encryption, config.notify_on, config.accept_invalid_certs)
    };
    assert_eq!(read("none", "all", "false"), (Encryption::Unencrypted, NotifyOn::All, false));
    assert_eq!(
        read("starttls", "errors", "true"),
        (Encryption::StartTls, NotifyOn::ErrorsOnly, true)
    );
    assert_eq!(read("tls", "all", "true"), (Encryption::Tls, NotifyOn::All, true));
}

#[test]
fn empty_credentials_are_none() {
    let env = SmtpEnv { username: Some(s("")), password: Some(s("")), ..env() };
    let config = SmtpConfig::from_env(env).unwrap().unwrap();
    assert_eq!((config.username, config.password), (None, None));
}

#[test]
fn port_has_sixteen_bits() {
    let port = |p: &str| SmtpConfig::from_env(SmtpEnv { port: Some(s(p)), ..env() });
    assert_eq!(port("65535").unwrap().unwrap().port, 65535);
    assert_eq!(port("0").unwrap().unwrap().port, 0);
    let invalid = |fault: NumberError| Err(SmtpError::InvalidPort { fault });
    assert_eq!(port(""), invalid(NumberError::Empty));
    assert_eq!(port("65536"), invalid(NumberError::TooLarge));
    for p in ["-1", "smtp", "25 ", "+"] {
        assert_eq!(port(p), invalid(NumberError::InvalidDigit));
    }
}

#[test]
fn sender_is_needed() {
    for cause in ["environment variable not found", "not valid unicode"] {
        let error = rejected(SmtpEnv { from: Err(s(cause)), ..env() });
        assert_eq!(error, SmtpError::MissingFrom { cause: s(cause) });
    }
    for from in ["", "nobody", "a@b@c", "a@example.org\nx"] {
        match rejected(SmtpEnv { from: Ok(s(from)), ..env() }) {
            SmtpError::InvalidFrom { cause } => assert_eq!(cause, "Invalid input"),
            other => panic!("{:?}", other),
        }
    }
}

#[test]
fn recipients_are_needed() {
    for cause in ["environment variable not found", "not valid unicode"] {
        let error = rejected(SmtpEnv { to: Err(s(cause)), ..env() });
        assert_eq!(error, SmtpError::MissingTo { cause: s(cause) });
    }
    assert_eq!(rejected(SmtpEnv { to: Ok(s(" , ,")), ..env() }), SmtpError::NoRecipient);
    assert_eq!(rejected(SmtpEnv { to: Ok(s("")), ..env() }), SmtpError::NoRecipient);
    assert_eq!(
        rejected(SmtpEnv { to: Ok(s("a@example.org, bob ,c@")), ..env() }),
        SmtpError::InvalidTo { address: s("bob"), cause: s("Invalid input") }
    );
}

#[test]
fn other_words_are_rejected() {
    assert_eq!(
        rejected(SmtpEnv { encryption: Some(s("TLS")), ..env() }),
        SmtpError::InvalidEncryption { value: s("TLS") }
    );
    assert_eq!(
        rejected(SmtpEnv { notify: Some(s("")), ..env() }),
        SmtpError::InvalidNotify { value: s("") }
    );
    assert_eq!(
        rejected(SmtpEnv { accept_invalid_certs: Some(s("1")), ..env() }),
        SmtpError::InvalidAcceptInvalidCerts { value: s("1") }
    );
}

#[test]
fn first_wrong_setting_decides() {
    let mut wrong = SmtpEnv {
        host: Some(s("mail.example.org")),
        port: Some(s("x")),
        encryption: Some(s("x")),
        notify: Some(s("y")),
        accept_invalid_certs: Some(s("z")),
        ..blank()
    };
    assert_eq!(
        SmtpConfig::from_parsed(wrong, Err(s("gone")), Err(s("lost"))),
        Err(SmtpError::InvalidPort { fault: NumberError::InvalidDigit })
    );
    wrong = SmtpEnv { host: Some(s("h")), encryption: Some(s("x")), ..blank() };
    assert_eq!(
        SmtpConfig::from_parsed(wrong, Err(s("gone")), Err(s("lost"))),
        Err(SmtpError::MissingFrom { cause: s("gone") })
    );
    let read = |encryption: &str, notify: &str| {
        let env = SmtpEnv {
            host: Some(s("h")),
            encryption: Some(s(encryption)),
            notify: Some(s(notify)),
            accept_invalid_certs: Some(s("z")),
            ..blank()
        };
        let to = vec![(s("t"), Ok(mailbox(None, "t", "example.org")))];
        SmtpConfig::from_parsed(env, Ok(Ok(mailbox(None, "f", "example.org"))), Ok(to))
    };
    assert_eq!(read("x", "y"), Err(SmtpError::InvalidEncryption { value: s("x") }));
    assert_eq!(read("tls", "y"), Err(SmtpError::InvalidNotify { value: s("y") }));
    assert_eq!(read("tls", "all"), Err(SmtpError::InvalidAcceptInvalidCerts { value: s("z") }));
}

#[test]
fn readings_are_taken_over() {
    let env = || SmtpEnv { host: Some(s("h")), ..blank() };
    let from = || Ok(Ok(mailbox(None, "f", "example.org")));
    let gone = || Err(s("gone"));
    let good = |user: &str| (s(user), Ok(mailbox(None, user, "example.org")));
    let bad = |user: &str| (s(user), Err(s("no")));
    assert_eq!(
        SmtpConfig::from_parsed(env(), Ok(Err(s("no"))), gone()),
        Err(SmtpError::InvalidFrom { cause: s("no") })
    );
    assert_eq!(
        SmtpConfig::from_parsed(env(), from(), gone()),
        Err(SmtpError::MissingTo { cause: s("gone") })
    );
    assert_eq!(SmtpConfig::from_parsed(env(), from(), Ok(vec![])), Err(SmtpError::NoRecipient));
    assert_eq!(
        SmtpConfig::from_parsed(env(), from(), Ok(vec![good("a"), bad("b"), bad("c")])),
        Err(SmtpError::InvalidTo { address: s("b"), cause: s("no") })
    );
    let config = SmtpConfig::from_parsed(env(), from(), Ok(vec![good("a"), good("b")]));
    assert_eq!(
        config.unwrap().unwrap().to,
        vec![mailbox(None, "a", "example.org"), mailbox(None, "b", "example.org")]
    );
}

#[test]
fn addresses_are_split_and_trimmed() {
    assert_eq!(split_addresses(" a , b,,\tc\n"), vec!["a", "b", "c"]);
    assert_eq!(split_addresses(""), Vec::<String>::new());
}

#[test]
fn summary_of_updates() {
    let summary = summarize(NotifyOn::All, &vec![update("web"), update("db")]).unwrap();
    assert_eq!(summary.subject, "conti: 2 container(s) updated");
    assert_eq!(
        summary.body,
        "Updated:\n  - web: sha256:old -> sha256:new\n  - db: sha256:old -> sha256:new\n\n"
    );
}

#[test]
fn summary_of_failures() {
    let summary = summarize(NotifyOn::ErrorsOnly, &vec![failure("web", "boom")]).unwrap();
    assert_eq!(summary.subject, "conti: 1 update(s) failed");
    assert_eq!(summary.body, "Failed:\n  - web: boom\n\n");
}

#[test]
fn summary_of_both_has_two_sections() {
    let events = vec![failure("a", "boom"), update("web"), failure("b", "bang")];
    let summary = summarize(NotifyOn::All, &events).unwrap();
    assert_eq!(summary.subject, "conti: 1 updated, 2 failed");
    assert_eq!(
        summary.body,
        "Updated:\n  - web: sha256:old -> sha256:new\n\nFailed:\n  - a: boom\n  - b: bang\n\n"
    );
}

#[test]
fn no_summary_without_news() {
    assert_eq!(summarize(NotifyOn::All, &vec![]), None);
    assert_eq!(summarize(NotifyOn::ErrorsOnly, &vec![]), None);
    assert_eq!(summarize(NotifyOn::ErrorsOnly, &vec![update("web")]), None);
    assert!(summarize(NotifyOn::ErrorsOnly, &vec![update("web"), failure("a", "b")]).is_some());
}

fn unencrypted() -> SmtpConfig {
    let env = SmtpEnv { encryption: Some(s("none")), ..env() };
    SmtpConfig::from_env(env).unwrap().unwrap()
}

fn sent(config: &SmtpConfig, events: &Vec<NotificationEvent>) -> Delivery {
    match send_summary(config, events) {
        Ok(Some(delivery)) => delivery,
        Ok(None) => panic!("nothing to send"),
        Err(SummaryError::Compose { cause }) => panic!("{}", cause),
        Err(SummaryError::Transport { cause }) => panic!("{}", cause),
    }
}

#[test]
fn email_is_addressed_and_written() {
    let config = SmtpConfig {
        to: vec![
            mailbox(None, "a", "example.org"),
            mailbox(Some("Bob"), "b", "example.net"),
            mailbox(None, "c", "example.com"),
        ],
        ..unencrypted()
    };
    let email = sent(&config, &vec![update("web"), failure("db", "boom")]).email;
    assert_eq!(email.sender, Some(Address { user: s("conti"), domain: s("example.org") }));
    assert_eq!(
        email.recipients,
        vec![
            Address { user: s("a"), domain: s("example.org") },
            Address { user: s("b"), domain: s("example.net") },
            Address { user: s("c"), domain: s("example.com") },
        ]
    );
    let content = String::from_utf8(email.content).unwrap();
    let (head, body) = content.split_once("\r\n\r\n").unwrap();
    let headers: Vec<&str> = head.split("\r\n").collect();
    assert_eq!(headers[0], "From: conti@example.org");
    assert_eq!(headers[1], "Subject: conti: 1 updated, 1 failed");
    assert_eq!(headers[2], "To: a@example.org, Bob <b@example.net>, c@example.com");
    assert_eq!(headers[3], "Content-Type: text/plain; charset=utf-8");
    assert!(headers.iter().any(|h| h.starts_with("Date: ")));
    assert_eq!(
        body,
        "Updated:\r\n  - web: sha256:old -> sha256:new\r\n\r\n\
         Failed:\r\n  - db: boom\r\n\r\n"
    );
}

#[test]
fn nothing_is_sent_without_news() {
    assert!(matches!(send_summary(&unencrypted(), &vec![]), Ok(None)));
    let config = SmtpConfig { notify_on: NotifyOn::ErrorsOnly, ..unencrypted() };
    assert!(matches!(send_summary(&config, &vec![update("web")]), Ok(None)));
    assert!(matches!(send_summary(&config, &vec![failure("web", "boom")]), Ok(Some(_))));
}

#[test]
fn email_that_cannot_be_composed_is_reported() {
    let config = SmtpConfig { from: mailbox(None, "no one", ""), ..unencrypted() };
    match send_summary(&config, &vec![update("web")]) {
        Err(SummaryError::Compose { cause }) => assert!(!cause.is_empty()),
        _ => panic!("composed"),
    }
    match deliver(&unencrypted(), Err(s("boom"))) {
        Err(SummaryError::Compose { cause }) => assert_eq!(cause, "boom"),
        _ => panic!("delivered"),
    }
}

#[test]
fn composed_email_is_put_on_the_way() {
    let email = || Email { sender: None, recipients: vec![], content: b"text".to_vec() };
    match deliver(&unencrypted(), Ok(email())) {
        Ok(delivery) => assert_eq!(delivery.email, email()),
        Err(_) => panic!("not delivered"),
    }
}

#[test]
fn transport_has_the_settings() {
    let debug = |config: &SmtpConfig| format!("{:?}", config.build_transport().unwrap());
    let plain = debug(&unencrypted());
    assert!(plain.contains("server: \"mail.example.org\""), "{}", plain);
    assert!(plain.contains("port: 587"), "{}", plain);
    assert!(plain.contains("tls: None"), "{}", plain);
    assert!(plain.contains("credentials: None"), "{}", plain);
    assert!(debug(&config()).contains("tls: Required"));
    let wrapped = SmtpConfig { encryption: Encryption::Tls, port: 465, ..config() };
    assert!(debug(&wrapped).contains("tls: Wrapper"));
    assert!(debug(&wrapped).contains("port: 465"));
}

#[test]
fn credentials_need_both_halves() {
    let has = |username: Option<&str>, password: Option<&str>| {
        let config = SmtpConfig {
            username: username.map(s),
            password: password.map(s),
            ..unencrypted()
        };
        let debug = format!("{:?}", config.build_transport().unwrap());
        debug.contains("credentials: Some(Credentials)")
    };
    assert!(has(Some("user"), Some("pass")));
    assert!(!has(Some("user"), None));
    assert!(!has(None, Some("pass")));
    assert!(!has(None, None));
}

#[test]
fn certificate_is_made_out_to_the_host() {
    assert_eq!(config().tls_parameters().unwrap().domain(), "mail.example.org");
    let lenient = SmtpConfig { accept_invalid_certs: true, ..config() };
    assert_eq!(lenient.tls_parameters().unwrap().domain(), "mail.example.org");
}

/// An error that `lettre` gives for checks that it cannot make.
fn tls_error() -> lettre::transport::smtp::Error {
    let builder = TlsParametersBuilder::new(s("mail.example.org"));
    builder.set_min_tls_version(TlsVersion::Tlsv10).build().map(|_| ()).unwrap_err()
}

#[test]
fn failed_checks_fail_an_encrypted_transport() {
    let expected = tls_error().to_string();
    for encryption in [Encryption::StartTls, Encryption::Tls] {
        let config = SmtpConfig { encryption, ..config() };
        let error = config.transport_by(Err(tls_error())).map(|_| ()).unwrap_err();
        assert_eq!(error.to_string(), expected);
    }
    assert!(unencrypted().transport_by(Err(tls_error())).is_ok());
}

#[test]
fn transport_uses_the_checks_it_is_given() {
    let debug = |config: &SmtpConfig| {
        format!("{:?}", config.transport_by(config.tls_parameters()).unwrap())
    };
    assert!(debug(&config()).contains("tls: Required"));
    assert!(debug(&config()).contains("server: \"mail.example.org\""));
    let wrapped = SmtpConfig { encryption: Encryption::Tls, ..config() };
    assert!(debug(&wrapped).contains("tls: Wrapper"));
    assert!(debug(&unencrypted()).contains("tls: None"));
}

#[test]
fn email_follows_its_transport() {
    let email = || Email { sender: None, recipients: vec![], content: b"text".to_vec() };
    match deliver_by(email(), unencrypted().build_transport()) {
        Ok(delivery) => {
            assert_eq!(delivery.email, email());
            assert!(format!("{:?}", delivery.transport).contains("port: 587"));
        }
        Err(_) => panic!("not delivered"),
    }
    match deliver_by(email(), Err(tls_error())) {
        Err(SummaryError::Transport { cause }) => {
            assert_eq!(cause.to_string(), tls_error().to_string())
        }
        _ => panic!("delivered"),
    }
}
