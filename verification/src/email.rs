//! The alert e-mail: its sender, recipient, subject and body. The mailboxes are
//! checked with `lettre`; the message itself is built and stamped with the date
//! where it is sent.
use vstd::prelude::*;
use crate::alerts::{email_body, email_body_spec, email_subject, email_subject_spec};

verus! {

/// The sender of alert e-mails.
pub const ALERT_SENDER: &'static str = "Uptime Bot <pandey@uptime.com>";

/// Whether `lettre` reads a text as a mailbox (`Name <user@domain>` or a bare address).
pub uninterp spec fn is_mailbox_text(text: Seq<char>) -> bool;

/// Calls `<lettre::message::Mailbox as FromStr>::from_str` and keeps whether it succeeded.
/// Claimed: it succeeds exactly on the texts `is_mailbox_text` names.
#[verifier::external_body]
fn is_mailbox(text: &str) -> (accepted: bool)
    ensures
        accepted == is_mailbox_text(text@),
{
    text.parse::<lettre::message::Mailbox>().is_ok()
}

/// An alert e-mail: sender and recipient mailboxes, subject and body.
pub struct AlertEmail {
    pub from: String,
    pub to: String,
    pub subject: String,
    pub body: String,
}

/// Why an alert e-mail could not be composed.
#[derive(Clone, Copy, Debug, PartialEq, Eq, Structural)]
pub enum EmailError {
    /// The sender text is not a mailbox.
    InvalidSender,
    /// The recipient's address is not a mailbox.
    InvalidRecipient,
}

/// The alert e-mail to `target_email` about `website_url`: from the alert sender,
/// with subject `DOWN ALERT: <url>` and a body that names the url and the reason.
pub fn compose_alert_email(target_email: &str, website_url: &str, reason: &str) -> (email: Result<AlertEmail, EmailError>)
    ensures
        !is_mailbox_text(ALERT_SENDER@) <==> email matches Err(EmailError::InvalidSender),
        (is_mailbox_text(ALERT_SENDER@) && !is_mailbox_text(target_email@))
            <==> email matches Err(EmailError::InvalidRecipient),
        (is_mailbox_text(ALERT_SENDER@) && is_mailbox_text(target_email@)) <==> email is Ok,
        email matches Ok(m) ==> {
            &&& m.from@ == ALERT_SENDER@
            &&& m.to@ == target_email@
            &&& m.subject@ == email_subject_spec(website_url@)
            &&& m.body@ == email_body_spec(website_url@, reason@)
            &&& m.subject@ == "DOWN ALERT: "@ + website_url@
            &&& m.body@ == "Your Website "@ + website_url@ + " is down. \nReason: "@ + reason@
        },
{
    if !is_mailbox(ALERT_SENDER) {
        return Err(EmailError::InvalidSender);
    }
    if !is_mailbox(target_email) {
        return Err(EmailError::InvalidRecipient);
    }
    Ok(AlertEmail {
        from: String::from_str(ALERT_SENDER),
        to: String::from_str(target_email),
        subject: email_subject(website_url),
        body: email_body(website_url, reason),
    })
}

} // verus!
