//! The admin service: administrators list every application, correct the
//! status and review note of any application (an officer's verdict
//! included), and delete applications. They cannot rewrite what the citizen
//! submitted.

use vstd::prelude::*;
use crate::http::{ApiError, ApiErrorView, HttpStatus, refuse, refusal, internal_error, internal_error_view};
use crate::identity::{Identity, IdentityView};
use crate::model::{Application, ApplicationView, is_known_status, known_status};
use crate::officer::not_found;
use crate::store::{
    DbFailure, DbFailureView, ListQuery, ListQueryView, Override, OverrideView, Table, failure_answer,
    one_row_answer,
};

verus! {

/// An administrator's correction; an absent field keeps the stored value.
pub struct AdminUpdateApplication {
    pub status: Option<String>,
    pub review_note: Option<String>,
}

pub open spec fn invalid_status() -> ApiErrorView {
    refusal(HttpStatus::BadRequest, "invalid status value"@)
}

pub open spec fn admin_query() -> ListQueryView {
    ListQueryView::All { newest_first: true }
}

/// The administrator's listing: every application, newest first.
pub fn admin_list_query() -> (q: ListQuery)
    ensures
        q@ == admin_query(),
{
    ListQuery::All { newest_first: true }
}

pub open spec fn override_check(payload: AdminUpdateApplication) -> Result<(), ApiErrorView> {
    match payload.status {
        Some(s) => if is_known_status(s@) {
            Ok(())
        } else {
            Err(invalid_status())
        },
        None => Ok(()),
    }
}

pub open spec fn unit_outcome(r: Result<(), ApiError>) -> Result<(), ApiErrorView> {
    match r {
        Ok(()) => Ok(()),
        Err(e) => Err(e@),
    }
}

/// Starts a correction (`PUT /applications/{amka}`): a given status must be
/// `pending`, `approved` or `rejected`.
pub fn check_override(payload: &AdminUpdateApplication) -> (r: Result<(), ApiError>)
    ensures
        unit_outcome(r) == override_check(*payload),
{
    match &payload.status {
        Some(s) => if known_status(s.as_str()) {
            Ok(())
        } else {
            Err(refuse(HttpStatus::BadRequest, "invalid status value"))
        },
        None => Ok(()),
    }
}

pub open spec fn override_plan(
    identity: IdentityView,
    amka: Seq<char>,
    payload: AdminUpdateApplication,
    existing: Result<bool, DbFailureView>,
) -> Result<OverrideView, ApiErrorView> {
    match existing {
        Err(_) => Err(internal_error_view()),
        Ok(false) => Err(not_found()),
        Ok(true) => Ok(OverrideView {
            amka,
            status: payload.status.deep_view(),
            note: payload.review_note.deep_view(),
            reviewer: identity.user_id,
        }),
    }
}

pub open spec fn override_outcome_of(r: Result<Override, ApiError>) -> Result<OverrideView, ApiErrorView> {
    match r {
        Ok(o) => Ok(o@),
        Err(e) => Err(e@),
    }
}

/// Continues a correction once the table has said whether the application
/// exists: the update to run, made in the administrator's name.
pub fn plan_override(identity: &Identity, amka: String, payload: AdminUpdateApplication, existing: Result<bool, DbFailure>) -> (r: Result<Override, ApiError>)
    ensures
        override_outcome_of(r) == override_plan(identity@, amka@, payload, failure_answer(existing)),
{
    match existing {
        Err(_) => Err(internal_error()),
        Ok(false) => Err(refuse(HttpStatus::NotFound, "application not found")),
        Ok(true) => Ok(Override {
            amka,
            status: payload.status,
            note: payload.review_note,
            reviewer: identity.user_id.clone(),
        }),
    }
}

pub open spec fn updated_result(updated: Result<ApplicationView, DbFailureView>) -> Result<ApplicationView, ApiErrorView> {
    match updated {
        Ok(a) => Ok(a),
        Err(_) => Err(internal_error_view()),
    }
}

pub open spec fn application_outcome(r: Result<Application, ApiError>) -> Result<ApplicationView, ApiErrorView> {
    match r {
        Ok(a) => Ok(a@),
        Err(e) => Err(e@),
    }
}

/// Answers a correction from the updated row.
pub fn override_answer(updated: Result<Application, DbFailure>) -> (r: Result<Application, ApiError>)
    ensures
        application_outcome(r) == updated_result(one_row_answer(updated)),
{
    match updated {
        Ok(a) => Ok(a),
        Err(_) => Err(internal_error()),
    }
}

pub open spec fn deletion_result(affected: Result<u64, DbFailureView>) -> Result<HttpStatus, ApiErrorView> {
    match affected {
        Ok(n) => if n == 0 {
            Err(not_found())
        } else {
            Ok(HttpStatus::NoContent)
        },
        Err(_) => Err(internal_error_view()),
    }
}

pub open spec fn status_outcome(r: Result<HttpStatus, ApiError>) -> Result<HttpStatus, ApiErrorView> {
    match r {
        Ok(s) => Ok(s),
        Err(e) => Err(e@),
    }
}

/// Answers a deletion (`DELETE /applications/{amka}`) from the number of
/// rows it removed: 204 No Content, or 404 when there was none.
pub fn deletion_answer(affected: Result<u64, DbFailure>) -> (r: Result<HttpStatus, ApiError>)
    ensures
        status_outcome(r) == deletion_result(failure_answer(affected)),
{
    match affected {
        Ok(n) => if n == 0 {
            Err(refuse(HttpStatus::NotFound, "application not found"))
        } else {
            Ok(HttpStatus::NoContent)
        },
        Err(_) => Err(internal_error()),
    }
}

/// A correction run against the table, the updated row coming out with
/// `updated_at` set to `stamp`.
pub open spec fn override_outcome(t: Table, stamp: i64, identity: IdentityView, amka: Seq<char>, payload: AdminUpdateApplication) -> (Table, Result<ApplicationView, ApiErrorView>) {
    match override_check(payload) {
        Err(e) => (t, Err(e)),
        Ok(()) => match override_plan(identity, amka, payload, Ok(t.holds(amka))) {
            Err(e) => (t, Err(e)),
            Ok(o) => match t.override_row(o, stamp) {
                Ok((t2, row)) => (t2, updated_result(Ok(row))),
                Err(f) => (t, updated_result(Err(f))),
            },
        },
    }
}

/// A deletion run against the table.
pub open spec fn delete_outcome(t: Table, amka: Seq<char>) -> (Table, Result<HttpStatus, ApiErrorView>) {
    let (t2, n) = t.delete(amka);
    (t2, deletion_result(Ok(n)))
}

} // verus!
