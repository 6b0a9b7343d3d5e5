use military_portal::email::{email_settings, status_change_email};

fn some(s: &str) -> Option<String> {
    Some(s.to_string())
}

fn settings_error(host: Option<String>, port: Option<String>, from: Option<String>) -> String {
    match email_settings(host, port, from) {
        Ok(_) => panic!("expected an error"),
        Err(e) => e,
    }
}

#[test]
fn settings_are_checked_in_order() {
    assert_eq!(settings_error(None, None, None), "MAIL_HOST must be set");
    assert_eq!(settings_error(some("smtp"), None, None), "MAIL_PORT must be set");
    assert_eq!(settings_error(some("smtp"), some("25x"), None), "MAIL_PORT must be a valid port");
    assert_eq!(settings_error(some("smtp"), some("70000"), some("x@y.gr")), "MAIL_PORT must be a valid port");
    assert_eq!(settings_error(some("smtp"), some("25"), None), "MAIL_FROM must be set");
}

#[test]
fn sender_must_be_a_mailbox() {
    let e = settings_error(some("smtp"), some("25"), some("not an address"));
    assert_eq!(e, "MAIL_FROM is invalid: Invalid input");
}

#[test]
fn valid_settings() {
    let s = email_settings(some("mail.local"), some("1025"), some("Portal <portal@army.gr>")).ok().unwrap();
    assert_eq!(s.host, "mail.local");
    assert_eq!(s.port, 1025);
    assert_eq!(s.timeout_secs, 3);
    assert_eq!(s.from.email.to_string(), "portal@army.gr");
    assert_eq!(s.from.name.as_deref(), Some("Portal"));
}

#[test]
fn notice_with_note() {
    let m = status_change_email("citizen@example.gr", "approved", Some("Report on Monday")).ok().unwrap();
    assert_eq!(m.subject, "Military Portal application status: approved");
    assert_eq!(
        m.body,
        "The status of your military service application has changed to: approved.\n\nReview note:\nReport on Monday"
    );
    assert_eq!(m.recipient.email.to_string(), "citizen@example.gr");
}

#[test]
fn blank_or_missing_note_is_left_out() {
    let expected = "The status of your military service application has changed to: rejected.";
    assert_eq!(status_change_email("c@example.gr", "rejected", Some("  \n")).ok().unwrap().body, expected);
    assert_eq!(status_change_email("c@example.gr", "rejected", None).ok().unwrap().body, expected);
}

#[test]
fn invalid_recipient() {
    let e = match status_change_email("nobody", "approved", None) {
        Ok(_) => panic!("expected an error"),
        Err(e) => e,
    };
    assert_eq!(e, "invalid recipient address: Invalid input");
}
