//! The e-mail that tells a citizen their application's status changed, and
//! the settings of the mail relay.

use vstd::prelude::*;
use lettre::message::Mailbox;
use crate::text::{blank, is_blank, parse_port, port_number};

verus! {

#[verifier::external_type_specification]
#[verifier::external_body]
pub struct ExMailbox(Mailbox);

/// What `lettre` makes of `text` as a mailbox (`Name <user@domain>` or a
/// bare address): the mailbox, or why it is not one, in the words of its
/// error's `Display`.
pub uninterp spec fn mailbox_parse(text: Seq<char>) -> Result<Mailbox, Seq<char>>;

/// `<lettre::message::Mailbox as FromStr>::from_str`. Claimed: its result is
/// `mailbox_parse` of the text, a failure carried as the error's displayed
/// text.
#[verifier::external_body]
fn parse_mailbox(text: &str) -> (r: Result<Mailbox, String>)
    ensures
        match r {
            Ok(m) => mailbox_parse(text@) == Ok::<Mailbox, Seq<char>>(m),
            Err(e) => mailbox_parse(text@) == Err::<Mailbox, Seq<char>>(e@),
        },
{
    match text.parse::<Mailbox>() {
        Ok(m) => Ok(m),
        Err(e) => Err(e.to_string()),
    }
}

/// Where and as whom to send mail. The relay is reached without TLS, and a
/// delivery gives up after `timeout_secs` seconds.
pub struct EmailSettings {
    pub host: String,
    pub port: u16,
    pub from: Mailbox,
    pub timeout_secs: u64,
}

/// The outcome of reading the mail settings from `MAIL_HOST`, `MAIL_PORT`
/// and `MAIL_FROM` (each `None` when unset): the host, port and sender, or the
/// message that says what is wrong. The sender must be a mailbox.
pub open spec fn settings_check(
    host: Option<Seq<char>>,
    port: Option<Seq<char>>,
    from: Option<Seq<char>>,
) -> Result<(Seq<char>, u16, Mailbox), Seq<char>> {
    match host {
        None => Err("MAIL_HOST must be set"@),
        Some(h) => match port {
            None => Err("MAIL_PORT must be set"@),
            Some(p) => match port_number(p) {
                None => Err("MAIL_PORT must be a valid port"@),
                Some(n) => match from {
                    None => Err("MAIL_FROM must be set"@),
                    Some(f) => match mailbox_parse(f) {
                        Err(e) => Err("MAIL_FROM is invalid: "@ + e),
                        Ok(m) => Ok((h, n, m)),
                    },
                },
            },
        },
    }
}

pub open spec fn settings_outcome(r: Result<EmailSettings, String>) -> Result<(Seq<char>, u16, Mailbox), Seq<char>> {
    match r {
        Ok(s) => Ok((s.host@, s.port, s.from)),
        Err(e) => Err(e@),
    }
}

/// Checks the mail settings, in the order host, port, sender.
pub fn email_settings(host: Option<String>, port: Option<String>, from: Option<String>) -> (r: Result<EmailSettings, String>)
    ensures
        settings_outcome(r) == settings_check(host.deep_view(), port.deep_view(), from.deep_view()),
        r matches Ok(s) ==> s.timeout_secs == 3,
{
    let host = match host {
        Some(h) => h,
        None => {
            return Err(String::from_str("MAIL_HOST must be set"));
        },
    };
    let port_text = match port {
        Some(p) => p,
        None => {
            return Err(String::from_str("MAIL_PORT must be set"));
        },
    };
    let port = match parse_port(port_text.as_str()) {
        Some(n) => n,
        None => {
            return Err(String::from_str("MAIL_PORT must be a valid port"));
        },
    };
    let from_text = match from {
        Some(f) => f,
        None => {
            return Err(String::from_str("MAIL_FROM must be set"));
        },
    };
    match parse_mailbox(from_text.as_str()) {
        Ok(m) => Ok(EmailSettings { host, port, from: m, timeout_secs: 3 }),
        Err(e) => {
            let mut msg = String::from_str("MAIL_FROM is invalid: ");
            msg.append(e.as_str());
            Err(msg)
        },
    }
}

/// A status-change notice, ready for the mailer.
pub struct StatusEmail {
    pub recipient: Mailbox,
    pub subject: String,
    pub body: String,
}

pub open spec fn status_subject(status: Seq<char>) -> Seq<char> {
    "Military Portal application status: "@ + status
}

/// The notice's text: the new status, then the review note unless it is
/// absent or blank.
pub open spec fn status_body(status: Seq<char>, note: Option<Seq<char>>) -> Seq<char> {
    let head = "The status of your military service application has changed to: "@ + status + "."@;
    match note {
        Some(n) => if is_blank(n) {
            head
        } else {
            head + "\n\nReview note:\n"@ + n
        },
        None => head,
    }
}

/// The notice for `recipient` (its mailbox, subject and body), or why the
/// address is not one.
pub open spec fn status_email_check(recipient: Seq<char>, status: Seq<char>, note: Option<Seq<char>>) -> Result<(Mailbox, Seq<char>, Seq<char>), Seq<char>> {
    match mailbox_parse(recipient) {
        Err(e) => Err("invalid recipient address: "@ + e),
        Ok(m) => Ok((m, status_subject(status), status_body(status, note))),
    }
}

pub open spec fn status_email_outcome(r: Result<StatusEmail, String>) -> Result<(Mailbox, Seq<char>, Seq<char>), Seq<char>> {
    match r {
        Ok(m) => Ok((m.recipient, m.subject@, m.body@)),
        Err(e) => Err(e@),
    }
}

/// Composes the notice that a citizen's application now has `status`.
pub fn status_change_email(recipient: &str, status: &str, review_note: Option<&str>) -> (r: Result<StatusEmail, String>)
    ensures
        status_email_outcome(r) == status_email_check(recipient@, status@, review_note.deep_view()),
{
    let to = match parse_mailbox(recipient) {
        Ok(m) => m,
        Err(e) => {
            let mut msg = String::from_str("invalid recipient address: ");
            msg.append(e.as_str());
            return Err(msg);
        },
    };
    let mut body = String::from_str("The status of your military service application has changed to: ");
    body.append(status);
    body.append(".");
    match review_note {
        Some(n) => {
            if !blank(n) {
                body.append("\n\nReview note:\n");
                body.append(n);
            }
        },
        None => {},
    }
    let mut subject = String::from_str("Military Portal application status: ");
    subject.append(status);
    Ok(StatusEmail { recipient: to, subject, body })
}

} // verus!
