//! The citizen service: a citizen reads and submits their own application,
//! found by the AMKA that the gateway asserted, never by a path.

use vstd::prelude::*;
use crate::http::{ApiError, ApiErrorView, HttpStatus, refuse, refusal};
use crate::identity::{Identity, IdentityView};
use crate::model::{Application, ApplicationView};
use crate::store::{
    DbFailure, DbFailureView, Lookup, NewApplication, NewApplicationView, Table,
    failure_answer, one_row_answer, row_answer, unique_violation_code,
};
use crate::text::{blank, is_blank, same_text};

verus! {

/// A new application, as the citizen submits it: a deferment needs a
/// reason, service needs a division.
pub enum CreateApplication {
    Deferment { reason: String },
    Service { division: String },
}

/// The divisions one can serve in.
pub open spec fn is_division(d: Seq<char>) -> bool {
    d == "land"@ || d == "navy"@ || d == "airforce"@
}

pub fn division(d: &str) -> (r: bool)
    ensures
        r == is_division(d@),
{
    same_text(d, "land") || same_text(d, "navy") || same_text(d, "airforce")
}

pub open spec fn already_submitted() -> ApiErrorView {
    refusal(
        HttpStatus::Conflict,
        "you have already submitted an application; only one application is permitted per citizen"@,
    )
}

pub open spec fn reason_required() -> ApiErrorView {
    refusal(HttpStatus::BadRequest, "a deferment reason is required"@)
}

pub open spec fn division_required() -> ApiErrorView {
    refusal(HttpStatus::BadRequest, "division must be one of: land, navy, airforce"@)
}

/// The refusal that carries a failed database call's own text.
pub open spec fn database_refusal(f: DbFailureView) -> ApiErrorView {
    refusal(HttpStatus::InternalServerError, f.message)
}

fn database_error(f: DbFailure) -> (e: ApiError)
    ensures
        e@ == database_refusal(f@),
{
    ApiError { status: HttpStatus::InternalServerError, message: f.message }
}

/// What to insert for a citizen, given whether they already have an
/// application: a second one is refused before the form is even looked at.
pub open spec fn creation_plan(
    identity: IdentityView,
    payload: CreateApplication,
    existing: Result<bool, DbFailureView>,
) -> Result<NewApplicationView, ApiErrorView> {
    match existing {
        Err(f) => Err(database_refusal(f)),
        Ok(true) => Err(already_submitted()),
        Ok(false) => match payload {
            CreateApplication::Deferment { reason } => {
                if is_blank(reason@) {
                    Err(reason_required())
                } else {
                    Ok(NewApplicationView {
                        applicant_amka: identity.amka,
                        applicant_id: identity.user_id,
                        applicant_email: identity.email,
                        application_type: "deferment"@,
                        deferment_reason: Some(reason@),
                        service_division: None,
                    })
                }
            },
            CreateApplication::Service { division } => {
                if !is_division(division@) {
                    Err(division_required())
                } else {
                    Ok(NewApplicationView {
                        applicant_amka: identity.amka,
                        applicant_id: identity.user_id,
                        applicant_email: identity.email,
                        application_type: "service"@,
                        deferment_reason: None,
                        service_division: Some(division@),
                    })
                }
            },
        },
    }
}

/// The answer to a creation once the insert has run: 201 Created with the
/// new row; a unique-key violation
/// (another request got there first) is the same refusal as an existing
/// application.
pub open spec fn creation_result(inserted: Result<ApplicationView, DbFailureView>) -> Result<(HttpStatus, ApplicationView), ApiErrorView> {
    match inserted {
        Ok(a) => Ok((HttpStatus::Created, a)),
        Err(f) => if f.code == Some(unique_violation_code()) {
            Err(already_submitted())
        } else {
            Err(database_refusal(f))
        },
    }
}

/// The answer to a citizen reading their application.
pub open spec fn own_application_result(row: Result<Option<ApplicationView>, DbFailureView>) -> Result<ApplicationView, ApiErrorView> {
    match row {
        Ok(Some(a)) => Ok(a),
        Ok(None) => Err(refusal(HttpStatus::NotFound, "no application submitted"@)),
        Err(f) => Err(database_refusal(f)),
    }
}

pub open spec fn new_application_outcome(r: Result<NewApplication, ApiError>) -> Result<NewApplicationView, ApiErrorView> {
    match r {
        Ok(n) => Ok(n@),
        Err(e) => Err(e@),
    }
}

pub open spec fn application_outcome(r: Result<Application, ApiError>) -> Result<ApplicationView, ApiErrorView> {
    match r {
        Ok(a) => Ok(a@),
        Err(e) => Err(e@),
    }
}

/// The citizen's own application, without the name of whoever decided it.
pub fn own_application_lookup(identity: &Identity) -> (q: Lookup)
    ensures
        q.amka@ == identity.amka@,
        !q.reviewer_visible,
{
    Lookup { amka: identity.amka.clone(), reviewer_visible: false }
}

/// Answers a citizen's read (`GET /application`) from what the lookup found.
pub fn own_application_answer(row: Result<Option<Application>, DbFailure>) -> (r: Result<Application, ApiError>)
    ensures
        application_outcome(r) == own_application_result(row_answer(row)),
{
    match row {
        Ok(Some(a)) => Ok(a),
        Ok(None) => Err(refuse(HttpStatus::NotFound, "no application submitted")),
        Err(f) => Err(database_error(f)),
    }
}

/// Decides a submission (`POST /application`) once the table has said
/// whether the citizen already has an application: either the row to
/// insert or the refusal.
pub fn plan_creation(identity: &Identity, payload: CreateApplication, existing: Result<bool, DbFailure>) -> (r: Result<NewApplication, ApiError>)
    ensures
        new_application_outcome(r) == creation_plan(identity@, payload, failure_answer(existing)),
{
    match existing {
        Err(f) => {
            return Err(database_error(f));
        },
        Ok(true) => {
            return Err(refuse(
                HttpStatus::Conflict,
                "you have already submitted an application; only one application is permitted per citizen",
            ));
        },
        Ok(false) => {},
    }
    match payload {
        CreateApplication::Deferment { reason } => {
            if blank(reason.as_str()) {
                Err(refuse(HttpStatus::BadRequest, "a deferment reason is required"))
            } else {
                Ok(NewApplication {
                    applicant_amka: identity.amka.clone(),
                    applicant_id: identity.user_id.clone(),
                    applicant_email: identity.email.clone(),
                    application_type: String::from_str("deferment"),
                    deferment_reason: Some(reason),
                    service_division: None,
                })
            }
        },
        CreateApplication::Service { division: d } => {
            if !division(d.as_str()) {
                Err(refuse(HttpStatus::BadRequest, "division must be one of: land, navy, airforce"))
            } else {
                Ok(NewApplication {
                    applicant_amka: identity.amka.clone(),
                    applicant_id: identity.user_id.clone(),
                    applicant_email: identity.email.clone(),
                    application_type: String::from_str("service"),
                    deferment_reason: None,
                    service_division: Some(d),
                })
            }
        },
    }
}

pub open spec fn created_outcome(r: Result<(HttpStatus, Application), ApiError>) -> Result<(HttpStatus, ApplicationView), ApiErrorView> {
    match r {
        Ok((s, a)) => Ok((s, a@)),
        Err(e) => Err(e@),
    }
}

/// Answers a submission from what the insert returned.
pub fn creation_answer(inserted: Result<Application, DbFailure>) -> (r: Result<(HttpStatus, Application), ApiError>)
    ensures
        created_outcome(r) == creation_result(one_row_answer(inserted)),
{
    match inserted {
        Ok(a) => Ok((HttpStatus::Created, a)),
        Err(f) => {
            let unique = match &f.code {
                Some(c) => same_text(c.as_str(), "23505"),
                None => false,
            };
            if unique {
                Err(refuse(
                    HttpStatus::Conflict,
                    "you have already submitted an application; only one application is permitted per citizen",
                ))
            } else {
                Err(database_error(f))
            }
        },
    }
}

/// A submission run against the table at time `now`.
pub open spec fn create_outcome(t: Table, now: i64, identity: IdentityView, payload: CreateApplication) -> (Table, Result<(HttpStatus, ApplicationView), ApiErrorView>) {
    match creation_plan(identity, payload, Ok(t.holds(identity.amka))) {
        Err(e) => (t, Err(e)),
        Ok(n) => match t.insert(n, now) {
            Ok((t2, row)) => (t2, creation_result(Ok(row))),
            Err(f) => (t, creation_result(Err(f))),
        },
    }
}

/// A citizen's read run against the table.
pub open spec fn read_own_outcome(t: Table, identity: IdentityView) -> Result<ApplicationView, ApiErrorView> {
    own_application_result(Ok(t.lookup(identity.amka, false)))
}

} // verus!
