use military_portal::identity::Identity;
use military_portal::model::Application;
use military_portal::officer::{
    application_lookup, list_answer, lookup_answer, officer_list_query, plan_review, review_after_update,
    review_refusal, ListFilter, ReviewDecision, ReviewProgress,
};
use military_portal::store::{DbFailure, ListQuery};

fn officer() -> Identity {
    Identity { user_id: "officer-7".to_string(), email: "o@army.gr".to_string(), amka: String::new() }
}

fn row(status: &str) -> Application {
    Application {
        applicant_amka: "123".to_string(),
        applicant_id: "sub".to_string(),
        applicant_email: "c@x.gr".to_string(),
        application_type: "deferment".to_string(),
        deferment_reason: Some("studies".to_string()),
        service_division: None,
        status: status.to_string(),
        reviewed_by: Some("officer-7".to_string()),
        review_note: None,
        created_at: 5,
        updated_at: 6,
    }
}

fn failure() -> DbFailure {
    DbFailure { code: None, message: "secret detail".to_string() }
}

#[test]
fn listing_filters_by_status_oldest_first() {
    match officer_list_query(ListFilter { status: Some("pending".to_string()) }) {
        ListQuery::WithStatus { status } => assert_eq!(status, "pending"),
        _ => panic!("expected a status filter"),
    }
    assert!(matches!(officer_list_query(ListFilter { status: None }), ListQuery::All { newest_first: false }));
}

#[test]
fn listing_answers() {
    let rows = list_answer(Ok(vec![row("pending"), row("approved")])).ok().unwrap();
    assert_eq!(rows.len(), 2);
    assert_eq!(rows[1].status, "approved");
    let e = list_answer(Err(failure())).err().unwrap();
    assert_eq!((e.status.code(), e.message.as_str()), (500, "internal server error"));
}

#[test]
fn reads_by_path_amka_with_reviewer() {
    let q = application_lookup("123".to_string());
    assert_eq!(q.amka, "123");
    assert!(q.reviewer_visible);
    let a = lookup_answer(Ok(Some(row("approved")))).ok().unwrap();
    assert_eq!(a.reviewed_by.as_deref(), Some("officer-7"));
    let e = lookup_answer(Ok(None)).err().unwrap();
    assert_eq!((e.status.code(), e.message.as_str()), (404, "application not found"));
    let e = lookup_answer(Err(failure())).err().unwrap();
    assert_eq!((e.status.code(), e.message.as_str()), (500, "internal server error"));
}

#[test]
fn verdict_must_be_approved_or_rejected() {
    for d in ["pending", "APPROVED", "", "approve"] {
        let e = plan_review(&officer(), "123".to_string(), ReviewDecision { decision: d.to_string(), note: None })
            .err()
            .unwrap();
        assert_eq!((e.status.code(), e.message.as_str()), (400, "decision must be 'approved' or 'rejected'"));
    }
}

#[test]
fn verdict_update_is_in_the_officers_name() {
    let u = plan_review(&officer(), "123".to_string(),
        ReviewDecision { decision: "rejected".to_string(), note: Some("unfit".to_string()) }).ok().unwrap();
    assert_eq!(u.amka, "123");
    assert_eq!(u.decision, "rejected");
    assert_eq!(u.reviewer, "officer-7");
    assert_eq!(u.note.as_deref(), Some("unfit"));
}

#[test]
fn after_the_conditional_update() {
    assert!(matches!(review_after_update(Ok(Some(row("approved")))), ReviewProgress::Reviewed(a) if a.status == "approved"));
    assert!(matches!(review_after_update(Ok(None)), ReviewProgress::AskStatus));
    match review_after_update(Err(failure())) {
        ReviewProgress::Refused(e) => assert_eq!(e.status.code(), 500),
        _ => panic!("expected a refusal"),
    }
}

#[test]
fn why_nothing_was_updated() {
    let e = review_refusal(Ok(Some("approved".to_string())));
    assert_eq!((e.status.code(), e.message.as_str()), (409, "application already approved; cannot re-review"));
    let e = review_refusal(Ok(None));
    assert_eq!((e.status.code(), e.message.as_str()), (404, "application not found"));
    let e = review_refusal(Err(failure()));
    assert_eq!((e.status.code(), e.message.as_str()), (500, "internal server error"));
}
