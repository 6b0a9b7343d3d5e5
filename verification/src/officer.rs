//! The officer service: officers list and read every application and give
//! their verdict on pending ones.

use vstd::prelude::*;
use crate::http::{ApiError, ApiErrorView, HttpStatus, refuse, refusal, internal_error, internal_error_view};
use crate::identity::{Identity, IdentityView};
use crate::model::{Application, ApplicationView, is_verdict, verdict};
use crate::store::{
    DbFailure, DbFailureView, ListQuery, ListQueryView, Lookup, ReviewUpdate, ReviewUpdateView, Table,
    row_answer, rows_answer, text_answer,
};

verus! {

/// An officer's decision on an application, with an optional note; the
/// decision has to be `approved` or `rejected`.
pub struct ReviewDecision {
    pub decision: String,
    pub note: Option<String>,
}

/// The optional status filter of an officer's listing.
pub struct ListFilter {
    pub status: Option<String>,
}

pub open spec fn not_found() -> ApiErrorView {
    refusal(HttpStatus::NotFound, "application not found"@)
}

pub open spec fn bad_verdict() -> ApiErrorView {
    refusal(HttpStatus::BadRequest, "decision must be 'approved' or 'rejected'"@)
}

/// The refusal of a second review.
pub open spec fn already_reviewed(status: Seq<char>) -> ApiErrorView {
    refusal(HttpStatus::Conflict, "application already "@ + status + "; cannot re-review"@)
}

pub open spec fn officer_query(status: Option<Seq<char>>) -> ListQueryView {
    match status {
        Some(s) => ListQueryView::WithStatus { status: s },
        None => ListQueryView::All { newest_first: false },
    }
}

/// The listing an officer asks for: all applications, or those with the
/// given status; oldest first either way.
pub fn officer_list_query(filter: ListFilter) -> (q: ListQuery)
    ensures
        q@ == officer_query(filter.status.deep_view()),
{
    match filter.status {
        Some(s) => ListQuery::WithStatus { status: s },
        None => ListQuery::All { newest_first: false },
    }
}

pub open spec fn listing_result(rows: Result<Seq<ApplicationView>, DbFailureView>) -> Result<Seq<ApplicationView>, ApiErrorView> {
    match rows {
        Ok(v) => Ok(v),
        Err(_) => Err(internal_error_view()),
    }
}

pub open spec fn rows_outcome(r: Result<Vec<Application>, ApiError>) -> Result<Seq<ApplicationView>, ApiErrorView> {
    match r {
        Ok(v) => Ok(v@.map_values(|a: Application| a@)),
        Err(e) => Err(e@),
    }
}

/// Answers a listing: the rows as the table returned them.
pub fn list_answer(rows: Result<Vec<Application>, DbFailure>) -> (r: Result<Vec<Application>, ApiError>)
    ensures
        rows_outcome(r) == listing_result(rows_answer(rows)),
        rows matches Ok(v) ==> r matches Ok(w) && w@ == v@,
{
    match rows {
        Ok(v) => Ok(v),
        Err(_) => Err(internal_error()),
    }
}

/// An application by the AMKA in the request path, in full.
pub fn application_lookup(amka: String) -> (q: Lookup)
    ensures
        q.amka@ == amka@,
        q.reviewer_visible,
{
    Lookup { amka, reviewer_visible: true }
}

pub open spec fn lookup_result(row: Result<Option<ApplicationView>, DbFailureView>) -> Result<ApplicationView, ApiErrorView> {
    match row {
        Ok(Some(a)) => Ok(a),
        Ok(None) => Err(not_found()),
        Err(_) => Err(internal_error_view()),
    }
}

pub open spec fn application_outcome(r: Result<Application, ApiError>) -> Result<ApplicationView, ApiErrorView> {
    match r {
        Ok(a) => Ok(a@),
        Err(e) => Err(e@),
    }
}

/// Answers an officer's read (`GET /applications/{amka}`).
pub fn lookup_answer(row: Result<Option<Application>, DbFailure>) -> (r: Result<Application, ApiError>)
    ensures
        application_outcome(r) == lookup_result(row_answer(row)),
{
    match row {
        Ok(Some(a)) => Ok(a),
        Ok(None) => Err(refuse(HttpStatus::NotFound, "application not found")),
        Err(_) => Err(internal_error()),
    }
}

/// The update that a verdict asks for, or its refusal.
pub open spec fn review_plan(identity: IdentityView, amka: Seq<char>, payload: ReviewDecision) -> Result<ReviewUpdateView, ApiErrorView> {
    if is_verdict(payload.decision@) {
        Ok(ReviewUpdateView {
            amka,
            decision: payload.decision@,
            reviewer: identity.user_id,
            note: payload.note.deep_view(),
        })
    } else {
        Err(bad_verdict())
    }
}

pub open spec fn review_update_outcome(r: Result<ReviewUpdate, ApiError>) -> Result<ReviewUpdateView, ApiErrorView> {
    match r {
        Ok(u) => Ok(u@),
        Err(e) => Err(e@),
    }
}

/// Starts a review (`PUT /applications/{amka}/review`): checks the verdict
/// and names the conditional update to run.
pub fn plan_review(identity: &Identity, amka: String, payload: ReviewDecision) -> (r: Result<ReviewUpdate, ApiError>)
    ensures
        review_update_outcome(r) == review_plan(identity@, amka@, payload),
{
    if !verdict(payload.decision.as_str()) {
        return Err(refuse(HttpStatus::BadRequest, "decision must be 'approved' or 'rejected'"));
    }
    Ok(ReviewUpdate { amka, decision: payload.decision, reviewer: identity.user_id.clone(), note: payload.note })
}

/// Where a review stands after the conditional update.
pub enum ReviewProgress {
    /// The application was pending and now carries the verdict.
    Reviewed(Application),
    /// Nothing was updated: ask for the application's status to say why.
    AskStatus,
    Refused(ApiError),
}

pub enum ReviewProgressView {
    Reviewed(ApplicationView),
    AskStatus,
    Refused(ApiErrorView),
}

impl View for ReviewProgress {
    type V = ReviewProgressView;

    open spec fn view(&self) -> ReviewProgressView {
        match self {
            ReviewProgress::Reviewed(a) => ReviewProgressView::Reviewed(a@),
            ReviewProgress::AskStatus => ReviewProgressView::AskStatus,
            ReviewProgress::Refused(e) => ReviewProgressView::Refused(e@),
        }
    }
}

pub open spec fn review_progress(updated: Result<Option<ApplicationView>, DbFailureView>) -> ReviewProgressView {
    match updated {
        Ok(Some(a)) => ReviewProgressView::Reviewed(a),
        Ok(None) => ReviewProgressView::AskStatus,
        Err(_) => ReviewProgressView::Refused(internal_error_view()),
    }
}

/// Continues a review from what the conditional update returned.
pub fn review_after_update(updated: Result<Option<Application>, DbFailure>) -> (p: ReviewProgress)
    ensures
        p@ == review_progress(row_answer(updated)),
{
    match updated {
        Ok(Some(a)) => ReviewProgress::Reviewed(a),
        Ok(None) => ReviewProgress::AskStatus,
        Err(_) => ReviewProgress::Refused(internal_error()),
    }
}

pub open spec fn review_refusal_for(status: Result<Option<Seq<char>>, DbFailureView>) -> ApiErrorView {
    match status {
        Ok(Some(s)) => already_reviewed(s),
        Ok(None) => not_found(),
        Err(_) => internal_error_view(),
    }
}

/// Why a review updated nothing, from the application's current status: it
/// was already decided, or there is no such application.
pub fn review_refusal(status: Result<Option<String>, DbFailure>) -> (e: ApiError)
    ensures
        e@ == review_refusal_for(text_answer(status)),
{
    match status {
        Ok(Some(s)) => {
            let mut m = String::from_str("application already ");
            m.append(s.as_str());
            m.append("; cannot re-review");
            ApiError { status: HttpStatus::Conflict, message: m }
        },
        Ok(None) => refuse(HttpStatus::NotFound, "application not found"),
        Err(_) => internal_error(),
    }
}

/// A review run against the table, an updated row coming out with
/// `updated_at` set to `stamp`.
pub open spec fn review_outcome(t: Table, stamp: i64, identity: IdentityView, amka: Seq<char>, payload: ReviewDecision) -> (Table, Result<ApplicationView, ApiErrorView>) {
    match review_plan(identity, amka, payload) {
        Err(e) => (t, Err(e)),
        Ok(u) => {
            let (t2, row) = t.review(u, stamp);
            match review_progress(Ok(row)) {
                ReviewProgressView::Reviewed(a) => (t2, Ok(a)),
                ReviewProgressView::Refused(e) => (t2, Err(e)),
                ReviewProgressView::AskStatus => (t2, Err(review_refusal_for(Ok(t2.status_of(amka))))),
            }
        },
    }
}

/// The answers that the listing `q` can get from the table: its rows in an
/// order the table picks among rows created at the same time.
pub open spec fn listing_outcome(t: Table, q: ListQueryView, answer: Result<Seq<ApplicationView>, ApiErrorView>) -> bool {
    exists|rows: Seq<ApplicationView>| t.lists(q, rows) && answer == listing_result(Ok(rows))
}

/// An officer's read run against the table.
pub open spec fn officer_read_outcome(t: Table, amka: Seq<char>) -> Result<ApplicationView, ApiErrorView> {
    lookup_result(Ok(t.lookup(amka, true)))
}

} // verus!
