//! The application record and the statuses it moves through.

use vstd::prelude::*;
use crate::text::same_text;

verus! {

/// One citizen's application, as the `applications` table holds it.
/// Timestamps are microseconds since the Unix epoch.
pub struct Application {
    pub applicant_amka: String,
    pub applicant_id: String,
    pub applicant_email: String,
    pub application_type: String,
    pub deferment_reason: Option<String>,
    pub service_division: Option<String>,
    pub status: String,
    pub reviewed_by: Option<String>,
    pub review_note: Option<String>,
    pub created_at: i64,
    pub updated_at: i64,
}

pub struct ApplicationView {
    pub applicant_amka: Seq<char>,
    pub applicant_id: Seq<char>,
    pub applicant_email: Seq<char>,
    pub application_type: Seq<char>,
    pub deferment_reason: Option<Seq<char>>,
    pub service_division: Option<Seq<char>>,
    pub status: Seq<char>,
    pub reviewed_by: Option<Seq<char>>,
    pub review_note: Option<Seq<char>>,
    pub created_at: i64,
    pub updated_at: i64,
}

impl View for Application {
    type V = ApplicationView;

    open spec fn view(&self) -> ApplicationView {
        ApplicationView {
            applicant_amka: self.applicant_amka@,
            applicant_id: self.applicant_id@,
            applicant_email: self.applicant_email@,
            application_type: self.application_type@,
            deferment_reason: self.deferment_reason.deep_view(),
            service_division: self.service_division.deep_view(),
            status: self.status@,
            reviewed_by: self.reviewed_by.deep_view(),
            review_note: self.review_note.deep_view(),
            created_at: self.created_at,
            updated_at: self.updated_at,
        }
    }
}

impl ApplicationView {
    /// The fields that the citizen filled in (or that came from the
    /// citizen's identity), and the creation time: nobody but the citizen
    /// writes them.
    pub open spec fn same_applicant_fields(self, other: ApplicationView) -> bool {
        &&& self.applicant_amka == other.applicant_amka
        &&& self.applicant_id == other.applicant_id
        &&& self.applicant_email == other.applicant_email
        &&& self.application_type == other.application_type
        &&& self.deferment_reason == other.deferment_reason
        &&& self.service_division == other.service_division
        &&& self.created_at == other.created_at
    }
}

pub open spec fn pending_status() -> Seq<char> {
    "pending"@
}

pub open spec fn approved_status() -> Seq<char> {
    "approved"@
}

pub open spec fn rejected_status() -> Seq<char> {
    "rejected"@
}

/// The statuses an application can have.
pub open spec fn is_known_status(s: Seq<char>) -> bool {
    s == pending_status() || s == approved_status() || s == rejected_status()
}

/// The verdicts an officer can give.
pub open spec fn is_verdict(s: Seq<char>) -> bool {
    s == approved_status() || s == rejected_status()
}

/// Whether `s` is `approved` or `rejected`.
pub fn verdict(s: &str) -> (r: bool)
    ensures
        r == is_verdict(s@),
{
    same_text(s, "approved") || same_text(s, "rejected")
}

/// Whether `s` is `pending`, `approved` or `rejected`.
pub fn known_status(s: &str) -> (r: bool)
    ensures
        r == is_known_status(s@),
{
    same_text(s, "pending") || verdict(s)
}

} // verus!
