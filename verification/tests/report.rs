use conti::notify::{NotificationEvent, SmtpError};
use conti::report::notification;
use conti::text::NumberError;
use conti::update::{Outcome, UpdateError};

fn s(text: &str) -> String {
    text.to_string()
}

#[test]
fn update_errors_are_put_in_words() {
    let cause = || s("boom");
    let cases = vec![
        (UpdateError::InspectContainer { cause: cause() }, "Failed to inspect container: boom"),
        (UpdateError::NoImage, "Container has no image configured"),
        (UpdateError::NoName, "Container has no name"),
        (UpdateError::NoImageId, "Container has no current image ID"),
        (
            UpdateError::Pull { image: s("nginx:1"), cause: cause() },
            "Failed to pull image nginx:1: Error during image pull: boom",
        ),
        (UpdateError::InspectImage { cause: cause() }, "Failed to inspect image after pull: boom"),
        (UpdateError::ImageWithoutId, "Image has no ID"),
        (UpdateError::Stop { cause: cause() }, "Failed to stop container: boom"),
        (UpdateError::Rename { cause: cause() }, "Failed to rename old container: boom"),
        (UpdateError::MissingConfig, "Missing container config"),
        (UpdateError::Create { cause: cause() }, "Failed to create container: boom"),
        (UpdateError::Start { cause: cause() }, "Failed to start container: boom"),
        (
            UpdateError::InspectNew { cause: cause() },
            "Failed to inspect new container after start: boom",
        ),
        (UpdateError::Exited { code: 137 }, "Container exited immediately (exit code 137)"),
        (UpdateError::Exited { code: -1 }, "Container exited immediately (exit code -1)"),
        (UpdateError::Unhealthy, "Container is unhealthy"),
        (UpdateError::TimedOut, "Container did not become healthy in time"),
        (
            UpdateError::RenameBack { cause: cause() },
            "Failed to rename container back during rollback: boom",
        ),
        (
            UpdateError::Restart { cause: cause() },
            "Failed to restart old container during rollback: boom",
        ),
    ];
    for (error, expected) in cases {
        assert_eq!(error.message(), expected);
    }
}

#[test]
fn settings_errors_are_put_in_words() {
    let cases = vec![
        (
            SmtpError::InvalidPort { fault: NumberError::Empty },
            "SMTP_PORT must be a valid port number: cannot parse integer from empty string",
        ),
        (
            SmtpError::InvalidPort { fault: NumberError::InvalidDigit },
            "SMTP_PORT must be a valid port number: invalid digit found in string",
        ),
        (
            SmtpError::InvalidPort { fault: NumberError::TooLarge },
            "SMTP_PORT must be a valid port number: number too large to fit in target type",
        ),
        (
            SmtpError::MissingFrom { cause: s("environment variable not found") },
            "SMTP_FROM must be set when SMTP_HOST is configured: environment variable not found",
        ),
        (
            SmtpError::InvalidFrom { cause: s("bad") },
            "SMTP_FROM is not a valid email address: bad",
        ),
        (
            SmtpError::MissingTo { cause: s("environment variable not found") },
            "SMTP_TO must be set when SMTP_HOST is configured: environment variable not found",
        ),
        (
            SmtpError::InvalidTo { address: s("x"), cause: s("bad") },
            "SMTP_TO contains an invalid address: x: bad",
        ),
        (SmtpError::NoRecipient, "SMTP_TO must contain at least one email address"),
        (
            SmtpError::InvalidEncryption { value: s("ssl") },
            "Invalid SMTP_ENCRYPTION 'ssl' (expected starttls, tls or none)",
        ),
        (
            SmtpError::InvalidNotify { value: s("some") },
            "Invalid SMTP_NOTIFY 'some' (expected all or errors)",
        ),
        (
            SmtpError::InvalidAcceptInvalidCerts { value: s("yes") },
            "Invalid SMTP_ACCEPT_INVALID_CERTS 'yes' (expected true or false)",
        ),
    ];
    for (error, expected) in cases {
        assert_eq!(error.message(), expected);
    }
}

#[test]
fn container_left_alone_is_not_mentioned() {
    assert_eq!(notification(Outcome::UpToDate { container: s("web") }), None);
    assert_eq!(
        notification(Outcome::Blocked { container: s("web"), digest: s("sha256:new") }),
        None
    );
}

#[test]
fn update_is_mentioned_with_its_images() {
    let outcome = Outcome::Updated {
        container: s("web"),
        old_image: s("sha256:old"),
        new_image: s("sha256:new"),
        id: s("id"),
    };
    assert_eq!(
        notification(outcome),
        Some(NotificationEvent::Updated {
            container: s("web"),
            old_image: s("sha256:old"),
            new_image: s("sha256:new"),
        })
    );
}

#[test]
fn failure_is_mentioned_with_its_reason() {
    let failed = |error: &str| {
        Some(NotificationEvent::Failed { container: s("web"), error: s(error) })
    };
    assert_eq!(
        notification(Outcome::Failed { container: s("web"), error: UpdateError::NoImage }),
        failed("Container has no image configured")
    );
    assert_eq!(
        notification(Outcome::RolledBack { container: s("web"), error: UpdateError::Unhealthy }),
        failed("Container is unhealthy")
    );
    assert_eq!(
        notification(Outcome::RollbackFailed {
            container: s("web"),
            error: UpdateError::TimedOut,
            rollback: UpdateError::Restart { cause: s("gone") },
        }),
        failed(
            "Container did not become healthy in time; rollback also failed: \
             Failed to restart old container during rollback: gone"
        )
    );
}
