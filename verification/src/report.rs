//! What is told of an update and of the settings, in words.
use vstd::prelude::*;

use crate::notify::{NotificationEvent, SmtpError};
use crate::text;
use crate::update::{Outcome, UpdateError};

verus! {

/// Why an update failed, in words: what went wrong, and behind a colon what Docker said.
pub open spec fn update_error_text(error: UpdateError<Seq<char>>) -> Seq<char> {
    match error {
        UpdateError::InspectContainer { cause } => "Failed to inspect container: "@ + cause,
        UpdateError::NoImage => "Container has no image configured"@,
        UpdateError::NoName => "Container has no name"@,
        UpdateError::NoImageId => "Container has no current image ID"@,
        UpdateError::Pull { image, cause } => "Failed to pull image "@ + image
            + ": Error during image pull: "@ + cause,
        UpdateError::InspectImage { cause } => "Failed to inspect image after pull: "@ + cause,
        UpdateError::ImageWithoutId => "Image has no ID"@,
        UpdateError::Stop { cause } => "Failed to stop container: "@ + cause,
        UpdateError::Rename { cause } => "Failed to rename old container: "@ + cause,
        UpdateError::MissingConfig => "Missing container config"@,
        UpdateError::Create { cause } => "Failed to create container: "@ + cause,
        UpdateError::Start { cause } => "Failed to start container: "@ + cause,
        UpdateError::InspectNew { cause } => "Failed to inspect new container after start: "@
            + cause,
        UpdateError::Exited { code } => "Container exited immediately (exit code "@
            + text::signed_decimal(code as int) + ")"@,
        UpdateError::Unhealthy => "Container is unhealthy"@,
        UpdateError::TimedOut => "Container did not become healthy in time"@,
        UpdateError::RenameBack { cause } => "Failed to rename container back during rollback: "@
            + cause,
        UpdateError::Restart { cause } => "Failed to restart old container during rollback: "@
            + cause,
    }
}

impl UpdateError<String> {
    /// The error in words.
    pub fn message(&self) -> (r: String)
        ensures
            r@ == update_error_text(self@),
    {
        match self {
            UpdateError::InspectContainer { cause } => {
                let mut r = "Failed to inspect container: ".to_owned();
                r.append(cause.as_str());
                r
            },
            UpdateError::NoImage => "Container has no image configured".to_owned(),
            UpdateError::NoName => "Container has no name".to_owned(),
            UpdateError::NoImageId => "Container has no current image ID".to_owned(),
            UpdateError::Pull { image, cause } => {
                let mut r = "Failed to pull image ".to_owned();
                r.append(image.as_str());
                r.append(": Error during image pull: ");
                r.append(cause.as_str());
                r
            },
            UpdateError::InspectImage { cause } => {
                let mut r = "Failed to inspect image after pull: ".to_owned();
                r.append(cause.as_str());
                r
            },
            UpdateError::ImageWithoutId => "Image has no ID".to_owned(),
            UpdateError::Stop { cause } => {
                let mut r = "Failed to stop container: ".to_owned();
                r.append(cause.as_str());
                r
            },
            UpdateError::Rename { cause } => {
                let mut r = "Failed to rename old container: ".to_owned();
                r.append(cause.as_str());
                r
            },
            UpdateError::MissingConfig => "Missing container config".to_owned(),
            UpdateError::Create { cause } => {
                let mut r = "Failed to create container: ".to_owned();
                r.append(cause.as_str());
                r
            },
            UpdateError::Start { cause } => {
                let mut r = "Failed to start container: ".to_owned();
                r.append(cause.as_str());
                r
            },
            UpdateError::InspectNew { cause } => {
                let mut r = "Failed to inspect new container after start: ".to_owned();
                r.append(cause.as_str());
                r
            },
            UpdateError::Exited { code } => {
                let mut r = "Container exited immediately (exit code ".to_owned();
                r.append(text::render_signed(*code).as_str());
                r.append(")");
                r
            },
            UpdateError::Unhealthy => "Container is unhealthy".to_owned(),
            UpdateError::TimedOut => "Container did not become healthy in time".to_owned(),
            UpdateError::RenameBack { cause } => {
                let mut r = "Failed to rename container back during rollback: ".to_owned();
                r.append(cause.as_str());
                r
            },
            UpdateError::Restart { cause } => {
                let mut r = "Failed to restart old container during rollback: ".to_owned();
                r.append(cause.as_str());
                r
            },
        }
    }
}

/// What is wrong with the settings, in words, and behind a colon the cause.
pub open spec fn smtp_error_text(error: SmtpError<Seq<char>>) -> Seq<char> {
    match error {
        SmtpError::InvalidPort { fault } => "SMTP_PORT must be a valid port number: "@
            + text::number_error_text(fault),
        SmtpError::MissingFrom { cause } => "SMTP_FROM must be set when SMTP_HOST is configured: "@
            + cause,
        SmtpError::InvalidFrom { cause } => "SMTP_FROM is not a valid email address: "@ + cause,
        SmtpError::MissingTo { cause } => "SMTP_TO must be set when SMTP_HOST is configured: "@
            + cause,
        SmtpError::InvalidTo { address, cause } => "SMTP_TO contains an invalid address: "@
            + address + ": "@ + cause,
        SmtpError::NoRecipient => "SMTP_TO must contain at least one email address"@,
        SmtpError::InvalidEncryption { value } => "Invalid SMTP_ENCRYPTION '"@ + value
            + "' (expected starttls, tls or none)"@,
        SmtpError::InvalidNotify { value } => "Invalid SMTP_NOTIFY '"@ + value
            + "' (expected all or errors)"@,
        SmtpError::InvalidAcceptInvalidCerts { value } => "Invalid SMTP_ACCEPT_INVALID_CERTS '"@
            + value + "' (expected true or false)"@,
    }
}

impl SmtpError<String> {
    /// The error in words.
    pub fn message(&self) -> (r: String)
        ensures
            r@ == smtp_error_text(self@),
    {
        match self {
            SmtpError::InvalidPort { fault } => {
                let mut r = "SMTP_PORT must be a valid port number: ".to_owned();
                r.append(fault.message());
                r
            },
            SmtpError::MissingFrom { cause } => {
                let mut r = "SMTP_FROM must be set when SMTP_HOST is configured: ".to_owned();
                r.append(cause.as_str());
                r
            },
            SmtpError::InvalidFrom { cause } => {
                let mut r = "SMTP_FROM is not a valid email address: ".to_owned();
                r.append(cause.as_str());
                r
            },
            SmtpError::MissingTo { cause } => {
                let mut r = "SMTP_TO must be set when SMTP_HOST is configured: ".to_owned();
                r.append(cause.as_str());
                r
            },
            SmtpError::InvalidTo { address, cause } => {
                let mut r = "SMTP_TO contains an invalid address: ".to_owned();
                r.append(address.as_str());
                r.append(": ");
                r.append(cause.as_str());
                r
            },
            SmtpError::NoRecipient => "SMTP_TO must contain at least one email address".to_owned(),
            SmtpError::InvalidEncryption { value } => {
                let mut r = "Invalid SMTP_ENCRYPTION '".to_owned();
                r.append(value.as_str());
                r.append("' (expected starttls, tls or none)");
                r
            },
            SmtpError::InvalidNotify { value } => {
                let mut r = "Invalid SMTP_NOTIFY '".to_owned();
                r.append(value.as_str());
                r.append("' (expected all or errors)");
                r
            },
            SmtpError::InvalidAcceptInvalidCerts { value } => {
                let mut r = "Invalid SMTP_ACCEPT_INVALID_CERTS '".to_owned();
                r.append(value.as_str());
                r.append("' (expected true or false)");
                r
            },
        }
    }
}

/// What the summary tells of an outcome: an update, or a failure with its reason.
/// A container that was left alone is not mentioned.
pub open spec fn tells(outcome: Outcome<Seq<char>>, event: Option<NotificationEvent>) -> bool {
    match outcome {
        Outcome::UpToDate { .. } => event is None,
        Outcome::Blocked { .. } => event is None,
        Outcome::Updated { container, old_image, new_image, .. } => match event {
            Some(NotificationEvent::Updated { container: c, old_image: o, new_image: n }) => c@
                == container && o@ == old_image && n@ == new_image,
            _ => false,
        },
        Outcome::RolledBack { container, error } => is_failure(
            event,
            container,
            update_error_text(error),
        ),
        Outcome::RollbackFailed { container, error, rollback } => is_failure(
            event,
            container,
            update_error_text(error) + "; rollback also failed: "@ + update_error_text(rollback),
        ),
        Outcome::Failed { container, error } => is_failure(
            event,
            container,
            update_error_text(error),
        ),
    }
}

/// Whether an event is the failure of `container` for this reason.
pub open spec fn is_failure(
    event: Option<NotificationEvent>,
    container: Seq<char>,
    reason: Seq<char>,
) -> bool {
    match event {
        Some(NotificationEvent::Failed { container: c, error: e }) => c@ == container && e@
            == reason,
        _ => false,
    }
}

/// Turns the outcome of an update into what the summary tells of it.
pub fn notification(outcome: Outcome<String>) -> (r: Option<NotificationEvent>)
    ensures
        tells(outcome@, r),
{
    match outcome {
        Outcome::UpToDate { .. } => None,
        Outcome::Blocked { .. } => None,
        Outcome::Updated { container, old_image, new_image, .. } => Some(
            NotificationEvent::Updated { container, old_image, new_image },
        ),
        Outcome::RolledBack { container, error } => Some(
            NotificationEvent::Failed { container, error: error.message() },
        ),
        Outcome::RollbackFailed { container, error, rollback } => {
            let mut reason = error.message();
            reason.append("; rollback also failed: ");
            reason.append(rollback.message().as_str());
            Some(NotificationEvent::Failed { container, error: reason })
        },
        Outcome::Failed { container, error } => Some(
            NotificationEvent::Failed { container, error: error.message() },
        ),
    }
}

/// The words for a failed update end with the cause as it was told, whatever it says,
/// behind words that depend on the kind of failure alone.
pub proof fn law_a_failure_is_told_with_its_cause(
    image: Seq<char>,
    cause: Seq<char>,
    code: i64,
)
    ensures
        update_error_text(UpdateError::InspectContainer { cause })
            == "Failed to inspect container: "@
            + cause,
        update_error_text(UpdateError::InspectImage { cause })
            == "Failed to inspect image after pull: "@
            + cause,
        update_error_text(UpdateError::Stop { cause }) == "Failed to stop container: "@
            + cause,
        update_error_text(UpdateError::Rename { cause }) == "Failed to rename old container: "@
            + cause,
        update_error_text(UpdateError::Create { cause }) == "Failed to create container: "@
            + cause,
        update_error_text(UpdateError::Start { cause }) == "Failed to start container: "@
            + cause,
        update_error_text(UpdateError::InspectNew { cause })
            == "Failed to inspect new container after start: "@
            + cause,
        update_error_text(UpdateError::RenameBack { cause })
            == "Failed to rename container back during rollback: "@
            + cause,
        update_error_text(UpdateError::Restart { cause })
            == "Failed to restart old container during rollback: "@
            + cause,
        update_error_text(UpdateError::Pull { image, cause }) == "Failed to pull image "@ + image
            + ": Error during image pull: "@ + cause,
        update_error_text(UpdateError::Exited { code })
            == "Container exited immediately (exit code "@ + text::signed_decimal(code as int)
            + ")"@,
        update_error_text(UpdateError::NoImage) == "Container has no image configured"@,
        update_error_text(UpdateError::NoName) == "Container has no name"@,
        update_error_text(UpdateError::NoImageId) == "Container has no current image ID"@,
        update_error_text(UpdateError::ImageWithoutId) == "Image has no ID"@,
        update_error_text(UpdateError::MissingConfig) == "Missing container config"@,
        update_error_text(UpdateError::Unhealthy) == "Container is unhealthy"@,
        update_error_text(UpdateError::TimedOut) == "Container did not become healthy in time"@,
{
}

/// The words for wrong settings name the variable, and the cause or the value as it is.
pub proof fn law_a_wrong_setting_is_told_with_its_cause(
    fault: text::NumberError,
    address: Seq<char>,
    cause: Seq<char>,
    value: Seq<char>,
)
    ensures
        smtp_error_text(SmtpError::InvalidPort { fault })
            == "SMTP_PORT must be a valid port number: "@ + text::number_error_text(fault),
        smtp_error_text(SmtpError::MissingFrom { cause })
            == "SMTP_FROM must be set when SMTP_HOST is configured: "@ + cause,
        smtp_error_text(SmtpError::InvalidFrom { cause })
            == "SMTP_FROM is not a valid email address: "@ + cause,
        smtp_error_text(SmtpError::MissingTo { cause })
            == "SMTP_TO must be set when SMTP_HOST is configured: "@ + cause,
        smtp_error_text(SmtpError::InvalidTo { address, cause })
            == "SMTP_TO contains an invalid address: "@ + address + ": "@ + cause,
        smtp_error_text(SmtpError::NoRecipient)
            == "SMTP_TO must contain at least one email address"@,
        smtp_error_text(SmtpError::InvalidEncryption { value }) == "Invalid SMTP_ENCRYPTION '"@
            + value + "' (expected starttls, tls or none)"@,
        smtp_error_text(SmtpError::InvalidNotify { value }) == "Invalid SMTP_NOTIFY '"@ + value
            + "' (expected all or errors)"@,
        smtp_error_text(SmtpError::InvalidAcceptInvalidCerts { value })
            == "Invalid SMTP_ACCEPT_INVALID_CERTS '"@ + value + "' (expected true or false)"@,
{
}

/// The summary tells of an update with its container and its two images, of every failure
/// with its container and its reason, and of nothing else; after a rollback that failed
/// it gives both reasons.
pub proof fn law_an_outcome_is_told(outcome: Outcome<Seq<char>>, event: NotificationEvent)
    ensures
        outcome is UpToDate || outcome is Blocked ==> tells(outcome, None) && !tells(
            outcome,
            Some(event),
        ),
        !(outcome is UpToDate || outcome is Blocked) ==> !tells(outcome, None),
        tells(outcome, Some(event)) ==> match outcome {
            Outcome::Updated { container, old_image, new_image, id } => {
                event matches NotificationEvent::Updated {
                    container: c,
                    old_image: o,
                    new_image: n,
                } && c@ == container && o@ == old_image && n@ == new_image
            },
            Outcome::RolledBack { container, error } => {
                event matches NotificationEvent::Failed { container: c, error: e } && c@
                    == container && e@ == update_error_text(error)
            },
            Outcome::RollbackFailed { container, error, rollback } => {
                event matches NotificationEvent::Failed { container: c, error: e } && c@
                    == container && e@ == update_error_text(error) + "; rollback also failed: "@
                    + update_error_text(rollback)
            },
            Outcome::Failed { container, error } => {
                event matches NotificationEvent::Failed { container: c, error: e } && c@
                    == container && e@ == update_error_text(error)
            },
            _ => false,
        },
{
}

} // verus!
