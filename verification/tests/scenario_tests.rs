//! End-to-end runs of the endpoints' steps against an in-memory table that
//! executes each statement as PostgreSQL would.

use std::collections::BTreeMap;

use military_portal::admin::{check_override, deletion_answer, override_answer, plan_override, AdminUpdateApplication};
use military_portal::citizen::{
    creation_answer, own_application_answer, own_application_lookup, plan_creation, CreateApplication,
};
use military_portal::http::ApiError;
use military_portal::identity::Identity;
use military_portal::model::Application;
use military_portal::officer::{
    application_lookup, lookup_answer, plan_review, review_after_update, review_refusal, ReviewDecision,
    ReviewProgress,
};
use military_portal::store::{DbFailure, ListQuery, Lookup, NewApplication, Override, ReviewUpdate};
use military_portal::admin::admin_list_query;
use military_portal::officer::{officer_list_query, ListFilter};

#[derive(Default)]
struct Db {
    rows: BTreeMap<String, Application>,
    clock: i64,
}

fn copy(a: &Application) -> Application {
    Application {
        applicant_amka: a.applicant_amka.clone(),
        applicant_id: a.applicant_id.clone(),
        applicant_email: a.applicant_email.clone(),
        application_type: a.application_type.clone(),
        deferment_reason: a.deferment_reason.clone(),
        service_division: a.service_division.clone(),
        status: a.status.clone(),
        reviewed_by: a.reviewed_by.clone(),
        review_note: a.review_note.clone(),
        created_at: a.created_at,
        updated_at: a.updated_at,
    }
}

impl Db {
    fn lookup(&self, q: &Lookup) -> Result<Option<Application>, DbFailure> {
        Ok(self.rows.get(&q.amka).map(|a| {
            let mut r = copy(a);
            if !q.reviewer_visible {
                r.reviewed_by = None;
            }
            r
        }))
    }
    fn holds(&self, amka: &str) -> Result<bool, DbFailure> {
        Ok(self.rows.contains_key(amka))
    }
    fn insert(&mut self, n: NewApplication) -> Result<Application, DbFailure> {
        if self.rows.contains_key(&n.applicant_amka) {
            return Err(DbFailure { code: Some("23505".to_string()), message: "duplicate key".to_string() });
        }
        self.clock += 1;
        let row = Application {
            applicant_amka: n.applicant_amka.clone(),
            applicant_id: n.applicant_id,
            applicant_email: n.applicant_email,
            application_type: n.application_type,
            deferment_reason: n.deferment_reason,
            service_division: n.service_division,
            status: "pending".to_string(),
            reviewed_by: None,
            review_note: None,
            created_at: self.clock,
            updated_at: self.clock,
        };
        self.rows.insert(n.applicant_amka, copy(&row));
        Ok(row)
    }
    fn review(&mut self, u: ReviewUpdate) -> Result<Option<Application>, DbFailure> {
        match self.rows.get_mut(&u.amka) {
            Some(r) if r.status == "pending" => {
                r.status = u.decision;
                r.reviewed_by = Some(u.reviewer);
                r.review_note = u.note;
                Ok(Some(copy(r)))
            }
            _ => Ok(None),
        }
    }
    fn status_of(&self, amka: &str) -> Result<Option<String>, DbFailure> {
        Ok(self.rows.get(amka).map(|r| r.status.clone()))
    }
    fn override_row(&mut self, o: Override) -> Result<Application, DbFailure> {
        match self.rows.get_mut(&o.amka) {
            Some(r) => {
                if let Some(s) = o.status {
                    r.status = s;
                }
                if let Some(n) = o.note {
                    r.review_note = Some(n);
                }
                r.reviewed_by = Some(o.reviewer);
                Ok(copy(r))
            }
            None => Err(DbFailure { code: None, message: "no rows returned".to_string() }),
        }
    }
    fn delete(&mut self, amka: &str) -> Result<u64, DbFailure> {
        Ok(if self.rows.remove(amka).is_some() { 1 } else { 0 })
    }

    fn create(&mut self, who: &Identity, payload: CreateApplication) -> Result<Application, ApiError> {
        let existing = self.holds(&who.amka);
        let new = plan_creation(who, payload, existing)?;
        creation_answer(self.insert(new)).map(|(status, a)| {
            assert_eq!(status.code(), 201);
            a
        })
    }
    fn read_own(&self, who: &Identity) -> Result<Application, ApiError> {
        own_application_answer(self.lookup(&own_application_lookup(who)))
    }
    fn read(&self, amka: &str) -> Result<Application, ApiError> {
        lookup_answer(self.lookup(&application_lookup(amka.to_string())))
    }
    fn review_app(&mut self, who: &Identity, amka: &str, decision: &str, note: Option<&str>) -> Result<Application, ApiError> {
        let u = plan_review(who, amka.to_string(),
            ReviewDecision { decision: decision.to_string(), note: note.map(String::from) })?;
        match review_after_update(self.review(u)) {
            ReviewProgress::Reviewed(a) => Ok(a),
            ReviewProgress::Refused(e) => Err(e),
            ReviewProgress::AskStatus => Err(review_refusal(self.status_of(amka))),
        }
    }
    fn correct(&mut self, who: &Identity, amka: &str, payload: AdminUpdateApplication) -> Result<Application, ApiError> {
        check_override(&payload)?;
        let existing = self.holds(amka);
        let o = plan_override(who, amka.to_string(), payload, existing)?;
        override_answer(self.override_row(o))
    }
    fn remove(&mut self, amka: &str) -> Result<(), ApiError> {
        deletion_answer(self.delete(amka)).map(|status| assert_eq!(status.code(), 204))
    }
}

fn citizen(amka: &str) -> Identity {
    Identity { user_id: format!("sub-{amka}"), email: format!("{amka}@example.gr"), amka: amka.to_string() }
}

fn staff(id: &str) -> Identity {
    Identity { user_id: id.to_string(), email: format!("{id}@army.gr"), amka: String::new() }
}

fn code(r: Result<Application, ApiError>) -> (u16, String) {
    match r {
        Ok(_) => (200, String::new()),
        Err(e) => (e.status.code(), e.message),
    }
}

#[test]
fn submission_is_read_back_without_reviewer() {
    let mut db = Db::default();
    let me = citizen("111");
    let created = db.create(&me, CreateApplication::Service { division: "airforce".to_string() }).ok().unwrap();
    assert_eq!(created.status, "pending");
    assert_eq!(created.applicant_id, "sub-111");
    let read = db.read_own(&me).ok().unwrap();
    assert_eq!(read.service_division.as_deref(), Some("airforce"));
    db.review_app(&staff("officer-1"), "111", "approved", None).ok().unwrap();
    let read = db.read_own(&me).ok().unwrap();
    assert_eq!(read.status, "approved");
    assert_eq!(read.reviewed_by, None);
    assert_eq!(db.read("111").ok().unwrap().reviewed_by.as_deref(), Some("officer-1"));
}

#[test]
fn one_application_per_citizen_scenario() {
    let mut db = Db::default();
    let me = citizen("222");
    db.create(&me, CreateApplication::Deferment { reason: "studies".to_string() }).ok().unwrap();
    assert_eq!(code(db.create(&me, CreateApplication::Service { division: "navy".to_string() })).0, 409);
    assert_eq!(db.rows.len(), 1);
    assert_eq!(db.read_own(&me).ok().unwrap().application_type, "deferment");
}

#[test]
fn citizens_see_only_their_own() {
    let mut db = Db::default();
    db.create(&citizen("1"), CreateApplication::Service { division: "land".to_string() }).ok().unwrap();
    assert_eq!(code(db.read_own(&citizen("2"))), (404, "no application submitted".to_string()));
}

#[test]
fn second_review_is_refused_scenario() {
    let mut db = Db::default();
    db.create(&citizen("333"), CreateApplication::Service { division: "land".to_string() }).ok().unwrap();
    let first = db.review_app(&staff("o1"), "333", "rejected", Some("medical")).ok().unwrap();
    assert_eq!(first.status, "rejected");
    assert_eq!(first.review_note.as_deref(), Some("medical"));
    assert_eq!(code(db.review_app(&staff("o2"), "333", "approved", None)),
        (409, "application already rejected; cannot re-review".to_string()));
    assert_eq!(db.read("333").ok().unwrap().reviewed_by.as_deref(), Some("o1"));
    assert_eq!(code(db.review_app(&staff("o2"), "999", "approved", None)), (404, "application not found".to_string()));
}

#[test]
fn admin_overrides_a_verdict_but_not_the_submission() {
    let mut db = Db::default();
    db.create(&citizen("444"), CreateApplication::Deferment { reason: "work".to_string() }).ok().unwrap();
    db.review_app(&staff("o1"), "444", "rejected", Some("no")).ok().unwrap();
    let fixed = db.correct(&staff("admin"), "444",
        AdminUpdateApplication { status: Some("approved".to_string()), review_note: None }).ok().unwrap();
    assert_eq!(fixed.status, "approved");
    assert_eq!(fixed.review_note.as_deref(), Some("no"));
    assert_eq!(fixed.reviewed_by.as_deref(), Some("admin"));
    assert_eq!(fixed.deferment_reason.as_deref(), Some("work"));
    assert_eq!(fixed.application_type, "deferment");
    let back = db.correct(&staff("admin"), "444",
        AdminUpdateApplication { status: Some("pending".to_string()), review_note: Some("reopened".to_string()) })
        .ok().unwrap();
    assert_eq!(back.status, "pending");
    assert_eq!(back.review_note.as_deref(), Some("reopened"));
    assert_eq!(db.review_app(&staff("o3"), "444", "approved", None).ok().unwrap().status, "approved");
    assert_eq!(code(db.correct(&staff("admin"), "444",
        AdminUpdateApplication { status: Some("closed".to_string()), review_note: None })).0, 400);
    assert_eq!(code(db.correct(&staff("admin"), "555",
        AdminUpdateApplication { status: None, review_note: None })).0, 404);
}

#[test]
fn deletion_scenario() {
    let mut db = Db::default();
    let me = citizen("666");
    db.create(&me, CreateApplication::Service { division: "navy".to_string() }).ok().unwrap();
    assert!(db.remove("666").is_ok());
    assert_eq!(code(db.read("666")).0, 404);
    let again = db.remove("666").err().unwrap();
    assert_eq!(again.status.code(), 404);
    assert!(db.create(&me, CreateApplication::Service { division: "land".to_string() }).is_ok());
}

#[test]
fn statuses_stay_known_scenario() {
    let mut db = Db::default();
    for (i, d) in ["approved", "rejected", "maybe"].iter().enumerate() {
        let amka = format!("7{i}");
        db.create(&citizen(&amka), CreateApplication::Service { division: "land".to_string() }).ok().unwrap();
        let _ = db.review_app(&staff("o"), &amka, d, None);
        let _ = db.correct(&staff("a"), &amka, AdminUpdateApplication { status: Some(d.to_string()), review_note: None });
    }
    for r in db.rows.values() {
        assert!(["pending", "approved", "rejected"].contains(&r.status.as_str()), "{}", r.status);
    }
}

fn listing(db: &Db, q: ListQuery) -> Vec<Application> {
    let mut rows: Vec<Application> = db.rows.values().map(copy).collect();
    let newest_first = match &q {
        ListQuery::WithStatus { status } => {
            rows.retain(|r| &r.status == status);
            false
        }
        ListQuery::All { newest_first } => *newest_first,
    };
    rows.sort_by_key(|r| r.created_at);
    if newest_first {
        rows.reverse();
    }
    military_portal::officer::list_answer(Ok(rows)).ok().unwrap()
}

#[test]
fn listings_scenario() {
    let mut db = Db::default();
    for amka in ["a", "b", "c"] {
        db.create(&citizen(amka), CreateApplication::Service { division: "land".to_string() }).ok().unwrap();
    }
    db.review_app(&staff("o"), "b", "approved", None).ok().unwrap();
    let admin: Vec<String> = listing(&db, admin_list_query()).into_iter().map(|r| r.applicant_amka).collect();
    assert_eq!(admin, ["c", "b", "a"]);
    let all: Vec<String> =
        listing(&db, officer_list_query(ListFilter { status: None })).into_iter().map(|r| r.applicant_amka).collect();
    assert_eq!(all, ["a", "b", "c"]);
    let pending: Vec<String> = listing(&db, officer_list_query(ListFilter { status: Some("pending".to_string()) }))
        .into_iter()
        .map(|r| r.applicant_amka)
        .collect();
    assert_eq!(pending, ["a", "c"]);
    assert!(listing(&db, officer_list_query(ListFilter { status: Some("lost".to_string()) })).is_empty());
}
