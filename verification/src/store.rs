//! What the endpoints ask of the `applications` table, what it answers,
//! and a model of the table that says what each statement does to it.

use vstd::prelude::*;
use crate::model::{Application, ApplicationView, pending_status, is_known_status};

verus! {

/// A failed database call: the SQLSTATE code when the database reported one,
/// and the error's text.
pub struct DbFailure {
    pub code: Option<String>,
    pub message: String,
}

pub struct DbFailureView {
    pub code: Option<Seq<char>>,
    pub message: Seq<char>,
}

impl View for DbFailure {
    type V = DbFailureView;

    open spec fn view(&self) -> DbFailureView {
        DbFailureView { code: self.code.deep_view(), message: self.message@ }
    }
}

/// The SQLSTATE of a unique-key violation.
pub open spec fn unique_violation_code() -> Seq<char> {
    "23505"@
}

/// Fetch one application by AMKA. With `reviewer_visible` false the
/// `reviewed_by` column comes back empty whatever the table holds.
pub struct Lookup {
    pub amka: String,
    pub reviewer_visible: bool,
}

/// Which applications to list, and in which order of creation.
pub enum ListQuery {
    All { newest_first: bool },
    /// Those with the given status, oldest first.
    WithStatus { status: String },
}

pub enum ListQueryView {
    All { newest_first: bool },
    WithStatus { status: Seq<char> },
}

impl View for ListQuery {
    type V = ListQueryView;

    open spec fn view(&self) -> ListQueryView {
        match self {
            ListQuery::All { newest_first } => ListQueryView::All { newest_first: *newest_first },
            ListQuery::WithStatus { status } => ListQueryView::WithStatus { status: status@ },
        }
    }
}

impl ListQueryView {
    /// Whether the listing includes the row.
    pub open spec fn selects(self, a: ApplicationView) -> bool {
        match self {
            ListQueryView::All { .. } => true,
            ListQueryView::WithStatus { status } => a.status == status,
        }
    }

    pub open spec fn newest_first(self) -> bool {
        match self {
            ListQueryView::All { newest_first } => newest_first,
            ListQueryView::WithStatus { .. } => false,
        }
    }
}

/// The rows are sorted by creation time, newest or oldest first (rows
/// created at the same time in any order).
pub open spec fn in_creation_order(rows: Seq<ApplicationView>, newest_first: bool) -> bool {
    forall|i: int, j: int|
        0 <= i < j < rows.len() ==> if newest_first {
            #[trigger] rows[j].created_at <= #[trigger] rows[i].created_at
        } else {
            rows[i].created_at <= rows[j].created_at
        }
}

/// The row that a citizen's new application inserts.
pub struct NewApplication {
    pub applicant_amka: String,
    pub applicant_id: String,
    pub applicant_email: String,
    pub application_type: String,
    pub deferment_reason: Option<String>,
    pub service_division: Option<String>,
}

pub struct NewApplicationView {
    pub applicant_amka: Seq<char>,
    pub applicant_id: Seq<char>,
    pub applicant_email: Seq<char>,
    pub application_type: Seq<char>,
    pub deferment_reason: Option<Seq<char>>,
    pub service_division: Option<Seq<char>>,
}

impl View for NewApplication {
    type V = NewApplicationView;

    open spec fn view(&self) -> NewApplicationView {
        NewApplicationView {
            applicant_amka: self.applicant_amka@,
            applicant_id: self.applicant_id@,
            applicant_email: self.applicant_email@,
            application_type: self.application_type@,
            deferment_reason: self.deferment_reason.deep_view(),
            service_division: self.service_division.deep_view(),
        }
    }
}

/// An officer's verdict on a pending application: it applies only while the
/// application is still pending.
pub struct ReviewUpdate {
    pub amka: String,
    pub decision: String,
    pub reviewer: String,
    pub note: Option<String>,
}

pub struct ReviewUpdateView {
    pub amka: Seq<char>,
    pub decision: Seq<char>,
    pub reviewer: Seq<char>,
    pub note: Option<Seq<char>>,
}

impl View for ReviewUpdate {
    type V = ReviewUpdateView;

    open spec fn view(&self) -> ReviewUpdateView {
        ReviewUpdateView {
            amka: self.amka@,
            decision: self.decision@,
            reviewer: self.reviewer@,
            note: self.note.deep_view(),
        }
    }
}

/// An administrator's correction: a missing status or note keeps the stored
/// one; `reviewed_by` becomes the administrator.
pub struct Override {
    pub amka: String,
    pub status: Option<String>,
    pub note: Option<String>,
    pub reviewer: String,
}

pub struct OverrideView {
    pub amka: Seq<char>,
    pub status: Option<Seq<char>>,
    pub note: Option<Seq<char>>,
    pub reviewer: Seq<char>,
}

impl View for Override {
    type V = OverrideView;

    open spec fn view(&self) -> OverrideView {
        OverrideView {
            amka: self.amka@,
            status: self.status.deep_view(),
            note: self.note.deep_view(),
            reviewer: self.reviewer@,
        }
    }
}

/// Fetches the application of `$1` (an AMKA); the citizen's form of it
/// withholds `reviewed_by`.
pub const SELECT_APPLICATION_SQL: &'static str = "SELECT applicant_amka, applicant_id, applicant_email, application_type, deferment_reason, service_division, status, reviewed_by, review_note, created_at, updated_at FROM applications WHERE applicant_amka = $1";

pub const SELECT_OWN_APPLICATION_SQL: &'static str = "SELECT applicant_amka, applicant_id, applicant_email, application_type, deferment_reason, service_division, status, NULL::text AS reviewed_by, review_note, created_at, updated_at FROM applications WHERE applicant_amka = $1";

/// Yields the AMKA back when an application for `$1` exists.
pub const APPLICATION_EXISTS_SQL: &'static str = "SELECT applicant_amka FROM applications WHERE applicant_amka = $1";

/// Inserts a new application; the table's defaults give it the status
/// `pending` and the creation time.
pub const INSERT_APPLICATION_SQL: &'static str = "INSERT INTO applications (applicant_amka, applicant_id, applicant_email, application_type, deferment_reason, service_division) VALUES ($1, $2, $3, $4, $5, $6) RETURNING applicant_amka, applicant_id, applicant_email, application_type, deferment_reason, service_division, status, NULL::text AS reviewed_by, review_note, created_at, updated_at";

pub const LIST_NEWEST_FIRST_SQL: &'static str = "SELECT applicant_amka, applicant_id, applicant_email, application_type, deferment_reason, service_division, status, reviewed_by, review_note, created_at, updated_at FROM applications ORDER BY created_at DESC";

pub const LIST_OLDEST_FIRST_SQL: &'static str = "SELECT applicant_amka, applicant_id, applicant_email, application_type, deferment_reason, service_division, status, reviewed_by, review_note, created_at, updated_at FROM applications ORDER BY created_at ASC";

pub const LIST_WITH_STATUS_SQL: &'static str = "SELECT applicant_amka, applicant_id, applicant_email, application_type, deferment_reason, service_division, status, reviewed_by, review_note, created_at, updated_at FROM applications WHERE status = $1 ORDER BY created_at ASC";

/// Binds `$1` decision, `$2` officer, `$3` note, `$4` AMKA.
pub const REVIEW_PENDING_SQL: &'static str = "UPDATE applications SET status = $1, reviewed_by = $2, review_note = $3 WHERE applicant_amka = $4 AND status = 'pending' RETURNING applicant_amka, applicant_id, applicant_email, application_type, deferment_reason, service_division, status, reviewed_by, review_note, created_at, updated_at";

pub const STATUS_OF_SQL: &'static str = "SELECT status FROM applications WHERE applicant_amka = $1";

/// Binds `$1` status, `$2` note, `$3` administrator, `$4` AMKA.
pub const OVERRIDE_SQL: &'static str = "UPDATE applications SET status = COALESCE($1, status), review_note = COALESCE($2, review_note), reviewed_by = $3 WHERE applicant_amka = $4 RETURNING applicant_amka, applicant_id, applicant_email, application_type, deferment_reason, service_division, status, reviewed_by, review_note, created_at, updated_at";

pub const DELETE_SQL: &'static str = "DELETE FROM applications WHERE applicant_amka = $1";

/// The `applications` table, keyed by the applicant's AMKA.
///
/// The update statements do not set `updated_at`, but the schema may (by a
/// trigger); the model leaves the value a row comes out with to the `stamp`
/// argument of each update, so nothing here depends on it.
pub struct Table {
    pub rows: Map<Seq<char>, ApplicationView>,
}

pub open spec fn hide_reviewer(a: ApplicationView) -> ApplicationView {
    ApplicationView { reviewed_by: None, ..a }
}

pub open spec fn new_row(n: NewApplicationView, now: i64) -> ApplicationView {
    ApplicationView {
        applicant_amka: n.applicant_amka,
        applicant_id: n.applicant_id,
        applicant_email: n.applicant_email,
        application_type: n.application_type,
        deferment_reason: n.deferment_reason,
        service_division: n.service_division,
        status: pending_status(),
        reviewed_by: None,
        review_note: None,
        created_at: now,
        updated_at: now,
    }
}

pub open spec fn reviewed_row(a: ApplicationView, u: ReviewUpdateView, stamp: i64) -> ApplicationView {
    ApplicationView { status: u.decision, reviewed_by: Some(u.reviewer), review_note: u.note, updated_at: stamp, ..a }
}

pub open spec fn overridden_row(a: ApplicationView, o: OverrideView, stamp: i64) -> ApplicationView {
    ApplicationView {
        status: match o.status {
            Some(s) => s,
            None => a.status,
        },
        review_note: match o.note {
            Some(n) => Some(n),
            None => a.review_note,
        },
        reviewed_by: Some(o.reviewer),
        updated_at: stamp,
        ..a
    }
}

/// The failure that the model gives for a key that is already taken; it does
/// not say what text the database puts with it.
pub open spec fn duplicate_key_failure() -> DbFailureView {
    DbFailureView { code: Some(unique_violation_code()), message: Seq::empty() }
}

/// The failure of a statement that had to return a row and found none.
pub open spec fn no_row_failure() -> DbFailureView {
    DbFailureView { code: None, message: Seq::empty() }
}

impl Table {
    /// Every row sits under its own AMKA.
    pub open spec fn well_formed(self) -> bool {
        forall|k: Seq<char>| #[trigger] self.rows.contains_key(k) ==> self.rows[k].applicant_amka == k
    }

    /// Every row has one of the three statuses.
    pub open spec fn statuses_known(self) -> bool {
        forall|k: Seq<char>| #[trigger] self.rows.contains_key(k) ==> is_known_status(self.rows[k].status)
    }

    pub open spec fn lookup(self, amka: Seq<char>, reviewer_visible: bool) -> Option<ApplicationView> {
        if self.rows.contains_key(amka) {
            if reviewer_visible {
                Some(self.rows[amka])
            } else {
                Some(hide_reviewer(self.rows[amka]))
            }
        } else {
            None
        }
    }

    /// `rows` is an answer that the listing statement of `q` can give: every
    /// row of the table that `q` selects, each once, in creation order.
    pub open spec fn lists(self, q: ListQueryView, rows: Seq<ApplicationView>) -> bool {
        &&& forall|i: int|
            0 <= i < rows.len() ==> self.rows.contains_key(#[trigger] rows[i].applicant_amka)
                && self.rows[rows[i].applicant_amka] == rows[i] && q.selects(rows[i])
        &&& forall|i: int, j: int|
            0 <= i < j < rows.len() ==> #[trigger] rows[i].applicant_amka != #[trigger] rows[j].applicant_amka
        &&& forall|k: Seq<char>|
            #![trigger self.rows.contains_key(k)]
            self.rows.contains_key(k) && q.selects(self.rows[k]) ==> rows.contains(self.rows[k])
        &&& in_creation_order(rows, q.newest_first())
    }

    /// No two applications were created at the same time.
    pub open spec fn distinct_creation_times(self) -> bool {
        forall|k1: Seq<char>, k2: Seq<char>|
            #![trigger self.rows.contains_key(k1), self.rows.contains_key(k2)]
            self.rows.contains_key(k1) && self.rows.contains_key(k2) && k1 != k2
                ==> self.rows[k1].created_at != self.rows[k2].created_at
    }

    pub open spec fn holds(self, amka: Seq<char>) -> bool {
        self.rows.contains_key(amka)
    }

    /// `INSERT_APPLICATION_SQL` at time `now`; the AMKA is the primary key.
    pub open spec fn insert(self, n: NewApplicationView, now: i64) -> Result<(Table, ApplicationView), DbFailureView> {
        if self.rows.contains_key(n.applicant_amka) {
            Err(duplicate_key_failure())
        } else {
            let row = new_row(n, now);
            Ok((Table { rows: self.rows.insert(n.applicant_amka, row) }, hide_reviewer(row)))
        }
    }

    /// `REVIEW_PENDING_SQL`: touches the row only while it is pending.
    pub open spec fn review(self, u: ReviewUpdateView, stamp: i64) -> (Table, Option<ApplicationView>) {
        if self.rows.contains_key(u.amka) && self.rows[u.amka].status == pending_status() {
            let row = reviewed_row(self.rows[u.amka], u, stamp);
            (Table { rows: self.rows.insert(u.amka, row) }, Some(row))
        } else {
            (self, None)
        }
    }

    pub open spec fn status_of(self, amka: Seq<char>) -> Option<Seq<char>> {
        if self.rows.contains_key(amka) {
            Some(self.rows[amka].status)
        } else {
            None
        }
    }

    /// `OVERRIDE_SQL`, which must return the updated row.
    pub open spec fn override_row(self, o: OverrideView, stamp: i64) -> Result<(Table, ApplicationView), DbFailureView> {
        if self.rows.contains_key(o.amka) {
            let row = overridden_row(self.rows[o.amka], o, stamp);
            Ok((Table { rows: self.rows.insert(o.amka, row) }, row))
        } else {
            Err(no_row_failure())
        }
    }

    /// `DELETE_SQL`, with the number of rows it removed.
    pub open spec fn delete(self, amka: Seq<char>) -> (Table, u64) {
        if self.rows.contains_key(amka) {
            (Table { rows: self.rows.remove(amka) }, 1)
        } else {
            (self, 0)
        }
    }
}

pub open spec fn failure_answer<T>(r: Result<T, DbFailure>) -> Result<T, DbFailureView> {
    match r {
        Ok(v) => Ok(v),
        Err(f) => Err(f@),
    }
}

pub open spec fn row_answer(r: Result<Option<Application>, DbFailure>) -> Result<Option<ApplicationView>, DbFailureView> {
    match r {
        Ok(Some(a)) => Ok(Some(a@)),
        Ok(None) => Ok(None),
        Err(f) => Err(f@),
    }
}

pub open spec fn one_row_answer(r: Result<Application, DbFailure>) -> Result<ApplicationView, DbFailureView> {
    match r {
        Ok(a) => Ok(a@),
        Err(f) => Err(f@),
    }
}

pub open spec fn rows_answer(r: Result<Vec<Application>, DbFailure>) -> Result<Seq<ApplicationView>, DbFailureView> {
    match r {
        Ok(v) => Ok(v@.map_values(|a: Application| a@)),
        Err(f) => Err(f@),
    }
}

pub open spec fn text_answer(r: Result<Option<String>, DbFailure>) -> Result<Option<Seq<char>>, DbFailureView> {
    match r {
        Ok(t) => Ok(t.deep_view()),
        Err(f) => Err(f@),
    }
}

} // verus!
