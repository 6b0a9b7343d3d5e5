use military_portal::admin::{
    admin_list_query, check_override, deletion_answer, override_answer, plan_override, AdminUpdateApplication,
};
use military_portal::identity::Identity;
use military_portal::model::Application;
use military_portal::store::{DbFailure, ListQuery};

fn admin() -> Identity {
    Identity { user_id: "admin-1".to_string(), email: "a@army.gr".to_string(), amka: String::new() }
}

fn update(status: Option<&str>, note: Option<&str>) -> AdminUpdateApplication {
    AdminUpdateApplication { status: status.map(String::from), review_note: note.map(String::from) }
}

fn failure() -> DbFailure {
    DbFailure { code: Some("57014".to_string()), message: "canceling statement".to_string() }
}

#[test]
fn lists_newest_first() {
    assert!(matches!(admin_list_query(), ListQuery::All { newest_first: true }));
}

#[test]
fn status_must_be_known() {
    for s in ["pending", "approved", "rejected"] {
        assert!(check_override(&update(Some(s), None)).is_ok());
    }
    assert!(check_override(&update(None, Some("n"))).is_ok());
    let e = check_override(&update(Some("archived"), None)).err().unwrap();
    assert_eq!((e.status.code(), e.message.as_str()), (400, "invalid status value"));
}

#[test]
fn correction_of_existing_application() {
    let o = plan_override(&admin(), "123".to_string(), update(Some("pending"), None), Ok(true)).ok().unwrap();
    assert_eq!(o.amka, "123");
    assert_eq!(o.status.as_deref(), Some("pending"));
    assert_eq!(o.note, None);
    assert_eq!(o.reviewer, "admin-1");
}

#[test]
fn correction_of_missing_application() {
    let e = plan_override(&admin(), "9".to_string(), update(None, None), Ok(false)).err().unwrap();
    assert_eq!((e.status.code(), e.message.as_str()), (404, "application not found"));
    let e = plan_override(&admin(), "9".to_string(), update(None, None), Err(failure())).err().unwrap();
    assert_eq!((e.status.code(), e.message.as_str()), (500, "internal server error"));
}

#[test]
fn correction_answers() {
    let row = Application {
        applicant_amka: "123".to_string(),
        applicant_id: "s".to_string(),
        applicant_email: "e".to_string(),
        application_type: "service".to_string(),
        deferment_reason: None,
        service_division: Some("land".to_string()),
        status: "rejected".to_string(),
        reviewed_by: Some("admin-1".to_string()),
        review_note: Some("typo".to_string()),
        created_at: 0,
        updated_at: 0,
    };
    assert_eq!(override_answer(Ok(row)).ok().unwrap().status, "rejected");
    assert_eq!(override_answer(Err(failure())).err().unwrap().status.code(), 500);
}

#[test]
fn deletion_answers() {
    assert_eq!(deletion_answer(Ok(1)).ok().unwrap().code(), 204);
    let e = deletion_answer(Ok(0)).err().unwrap();
    assert_eq!((e.status.code(), e.message.as_str()), (404, "application not found"));
    let e = deletion_answer(Err(failure())).err().unwrap();
    assert_eq!((e.status.code(), e.message.as_str()), (500, "internal server error"));
}
