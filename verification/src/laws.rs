//! What the endpoints promise together, over the model of the
//! `applications` table.

use vstd::prelude::*;
use crate::admin::{AdminUpdateApplication, delete_outcome, invalid_status, override_check, override_outcome};
use crate::citizen::{
    own_application_result, CreateApplication, already_submitted, create_outcome, creation_plan, read_own_outcome,
};
use crate::http::{ApiErrorView, HttpStatus, refusal};
use crate::identity::{IdentityView, authentication, citizen_role};
use crate::model::{ApplicationView, is_known_status, is_verdict, pending_status, approved_status, rejected_status};
use crate::officer::{
    ReviewDecision, already_reviewed, bad_verdict, not_found, officer_read_outcome, review_outcome,
};
use crate::store::{ListQueryView, Table, hide_reviewer, in_creation_order, new_row};
use crate::admin::admin_query;
use crate::officer::{listing_outcome, officer_query};
use crate::cli::{CliCommandView, Scan, ServiceRole, cli_command, first_colon_at, role_named, scan, split_instance};
use crate::text::{is_blank, port_number};
use crate::email::{mailbox_parse, status_email_check};

verus! {

proof fn lemma_status_names_differ()
    ensures
        pending_status() != approved_status(),
        pending_status() != rejected_status(),
        approved_status() != rejected_status(),
{
    reveal_strlit("pending");
    reveal_strlit("approved");
    reveal_strlit("rejected");
    assert(pending_status()[0] != approved_status()[0]);
    assert(pending_status()[0] != rejected_status()[0]);
    assert(approved_status()[0] != rejected_status()[0]);
}

/// A service instance accepts only callers of its own role; an accepted
/// citizen always carries an AMKA, the key of their application, and any
/// other accepted caller carries an empty one.
pub proof fn law_accepted_callers(
    user_id: Option<Seq<char>>,
    email: Option<Seq<char>>,
    role: Option<Seq<char>>,
    amka: Option<Seq<char>>,
    expected_role: Seq<char>,
)
    ensures
        authentication(user_id, email, role, amka, expected_role) is Ok ==> role == Some(expected_role),
        authentication(user_id, email, role, amka, expected_role) is Ok && expected_role == citizen_role()
            ==> authentication(user_id, email, role, amka, expected_role)->Ok_0.amka.len() > 0,
        authentication(user_id, email, role, amka, expected_role) is Ok && expected_role != citizen_role()
            ==> authentication(user_id, email, role, amka, expected_role)->Ok_0.amka == Seq::<char>::empty(),
        role is Some && role != Some(expected_role) && user_id is Some && email is Some
            ==> authentication(user_id, email, role, amka, expected_role)
                == Err::<IdentityView, _>(refusal(HttpStatus::Forbidden, "role not permitted on this service instance"@)),
{
}

/// Whatever the role, an accepted caller is the user and e-mail address the
/// gateway named; an accepted citizen's AMKA is exactly the AMKA header.
/// A caller is accepted exactly when the user, e-mail and role headers are
/// there, the role is this instance's, and a citizen has a non-empty AMKA.
pub proof fn law_caller_is_who_the_headers_name(
    user_id: Option<Seq<char>>,
    email: Option<Seq<char>>,
    role: Option<Seq<char>>,
    amka: Option<Seq<char>>,
    expected_role: Seq<char>,
)
    ensures
        (authentication(user_id, email, role, amka, expected_role) is Ok) <==> (
            user_id is Some && email is Some && role == Some(expected_role)
            && (expected_role == "citizen"@ ==> amka is Some && amka->Some_0.len() > 0)),
        authentication(user_id, email, role, amka, expected_role) is Ok ==> {
            let i = authentication(user_id, email, role, amka, expected_role)->Ok_0;
            &&& i.user_id == user_id->Some_0
            &&& i.email == email->Some_0
            &&& expected_role == "citizen"@ ==> i.amka == amka->Some_0
        },
{
}

/// A reader's answer is the row the lookup found: a citizen's answer is
/// exactly what the citizen's lookup returned.
pub proof fn law_own_read_returns_the_found_row(a: ApplicationView)
    ensures
        own_application_result(Ok(Some(a))) == Ok::<ApplicationView, ApiErrorView>(a),
{
}

/// A service submission is accepted only with the division `land`, `navy`
/// or `airforce`, which it records; any other division is refused with 400
/// and leaves the table as it was.
pub proof fn law_service_division_must_be_known(t: Table, now: i64, identity: IdentityView, division: String)
    requires
        !t.holds(identity.amka),
    ensures
        ({
            let known = division@ == "land"@ || division@ == "navy"@ || division@ == "airforce"@;
            let plan = creation_plan(identity, CreateApplication::Service { division }, Ok(false));
            let (t2, answer) = create_outcome(t, now, identity, CreateApplication::Service { division });
            &&& (plan is Ok <==> known)
            &&& known ==> plan->Ok_0.service_division == Some(division@)
                && plan->Ok_0.application_type == "service"@
                && plan->Ok_0.deferment_reason is None
                && answer is Ok
            &&& !known ==> t2 == t && answer == Err::<(HttpStatus, ApplicationView), _>(
                refusal(HttpStatus::BadRequest, "division must be one of: land, navy, airforce"@))
        }),
{
}

/// The notice's subject names the new status, and its body is the status
/// line followed, when the note has any visible character, by
/// "\n\nReview note:\n" and the whole note; the note is its last part.
pub proof fn law_notice_carries_the_whole_note(recipient: Seq<char>, status: Seq<char>, note: Option<Seq<char>>)
    ensures
        ({
            let head = "The status of your military service application has changed to: "@ + status + "."@;
            match status_email_check(recipient, status, note) {
                Ok((m, subject, body)) => {
                    &&& mailbox_parse(recipient) == Ok::<_, Seq<char>>(m)
                    &&& subject == "Military Portal application status: "@ + status
                    &&& match note {
                        Some(n) => if is_blank(n) {
                            body == head
                        } else {
                            &&& body == head + "\n\nReview note:\n"@ + n
                            &&& body.len() >= n.len()
                            &&& body.skip(body.len() - n.len()) == n
                        },
                        None => body == head,
                    }
                },
                Err(e) => mailbox_parse(recipient) is Err
                    && e == "invalid recipient address: "@ + mailbox_parse(recipient)->Err_0,
            }
        }),
{
    if let (Some(n), Ok((m, subject, body))) = (note, status_email_check(recipient, status, note)) {
        if !is_blank(n) {
            let prefix = "The status of your military service application has changed to: "@ + status + "."@
                + "\n\nReview note:\n"@;
            assert(body == prefix + n);
            assert((prefix + n).skip(prefix.len() as int) =~= n);
        }
    }
}

/// One application per citizen: a citizen who already has an application
/// is refused with 409, whatever they submit, and the table stays as it was.
pub proof fn law_one_application_per_citizen(t: Table, now: i64, identity: IdentityView, payload: CreateApplication)
    requires
        t.holds(identity.amka),
    ensures
        create_outcome(t, now, identity, payload) == (t, Err::<(HttpStatus, ApplicationView), _>(already_submitted())),
{
}

/// A refused submission changes nothing.
pub proof fn law_refused_submission_changes_nothing(t: Table, now: i64, identity: IdentityView, payload: CreateApplication)
    ensures
        create_outcome(t, now, identity, payload).1 is Err ==> create_outcome(t, now, identity, payload).0 == t,
{
}

/// An accepted submission adds exactly one pending, unreviewed row under the
/// citizen's AMKA, answers 201 Created with it, and the citizen then reads
/// it back.
pub proof fn law_submission_is_read_back(t: Table, now: i64, identity: IdentityView, payload: CreateApplication)
    requires
        !t.holds(identity.amka),
        creation_plan(identity, payload, Ok(false)) is Ok,
    ensures
        ({
            let n = creation_plan(identity, payload, Ok(false))->Ok_0;
            let row = new_row(n, now);
            let (t2, answer) = create_outcome(t, now, identity, payload);
            &&& t2.rows == t.rows.insert(identity.amka, row)
            &&& row.status == pending_status()
            &&& row.reviewed_by is None
            &&& row.review_note is None
            &&& row.applicant_amka == identity.amka
            &&& row.applicant_id == identity.user_id
            &&& row.applicant_email == identity.email
            &&& answer == Ok::<_, ApiErrorView>((HttpStatus::Created, row))
            &&& read_own_outcome(t2, identity) == Ok::<_, ApiErrorView>(row)
        }),
{
    let n = creation_plan(identity, payload, Ok(false))->Ok_0;
    let row = new_row(n, now);
    let (t2, answer) = create_outcome(t, now, identity, payload);
    assert(hide_reviewer(row) == row);
    assert(t2.rows.contains_key(identity.amka));
}

/// A citizen reads only their own application: the stored row with the name
/// of whoever decided it cleared and every other field (the review note
/// included) as stored; without one they are told that none was submitted.
pub proof fn law_citizen_reads_only_own(t: Table, identity: IdentityView)
    requires
        t.well_formed(),
    ensures
        match read_own_outcome(t, identity) {
            Ok(a) => {
                let stored = t.rows[identity.amka];
                &&& t.holds(identity.amka)
                &&& a.applicant_amka == identity.amka
                &&& a.reviewed_by is None
                &&& a.applicant_amka == stored.applicant_amka
                &&& a.applicant_id == stored.applicant_id
                &&& a.applicant_email == stored.applicant_email
                &&& a.application_type == stored.application_type
                &&& a.deferment_reason == stored.deferment_reason
                &&& a.service_division == stored.service_division
                &&& a.status == stored.status
                &&& a.review_note == stored.review_note
                &&& a.created_at == stored.created_at
                &&& a.updated_at == stored.updated_at
            },
            Err(e) => !t.holds(identity.amka) && e == refusal(HttpStatus::NotFound, "no application submitted"@),
        },
{
}

/// A verdict on a pending application records the decision, the officer and
/// the note on that row alone, and leaves what the citizen submitted as it
/// was.
pub proof fn law_verdict_on_pending_application(t: Table, stamp: i64, officer: IdentityView, amka: Seq<char>, payload: ReviewDecision)
    requires
        t.holds(amka),
        t.rows[amka].status == pending_status(),
        is_verdict(payload.decision@),
    ensures
        ({
            let (t2, answer) = review_outcome(t, stamp, officer, amka, payload);
            let row = t2.rows[amka];
            &&& t2.rows == t.rows.insert(amka, row)
            &&& answer == Ok::<_, ApiErrorView>(row)
            &&& row.status == payload.decision@
            &&& row.reviewed_by == Some(officer.user_id)
            &&& row.review_note == payload.note.deep_view()
            &&& row.same_applicant_fields(t.rows[amka])
        }),
{
}

/// An application that is no longer pending is not reviewed again: the
/// answer is 409 naming its status, and nothing changes.
pub proof fn law_decided_application_is_not_reviewed(t: Table, stamp: i64, officer: IdentityView, amka: Seq<char>, payload: ReviewDecision)
    requires
        t.holds(amka),
        t.rows[amka].status != pending_status(),
        is_verdict(payload.decision@),
    ensures
        review_outcome(t, stamp, officer, amka, payload) == (t, Err::<ApplicationView, _>(already_reviewed(t.rows[amka].status))),
{
}

/// A review of an application that does not exist is answered 404.
pub proof fn law_review_of_missing_application(t: Table, stamp: i64, officer: IdentityView, amka: Seq<char>, payload: ReviewDecision)
    requires
        !t.holds(amka),
        is_verdict(payload.decision@),
    ensures
        review_outcome(t, stamp, officer, amka, payload) == (t, Err::<ApplicationView, _>(not_found())),
{
}

/// A decision other than `approved` or `rejected` is refused with 400 before
/// the table is touched.
pub proof fn law_unknown_verdict_is_refused(t: Table, stamp: i64, officer: IdentityView, amka: Seq<char>, payload: ReviewDecision)
    requires
        !is_verdict(payload.decision@),
    ensures
        review_outcome(t, stamp, officer, amka, payload) == (t, Err::<ApplicationView, _>(bad_verdict())),
{
}

/// Reviewing twice: once an officer's verdict is recorded, a second review
/// (by anyone, with any verdict) is refused with 409 naming the first
/// verdict.
pub proof fn law_second_review_is_refused(
    t: Table,
    stamp: i64,
    later_stamp: i64,
    first: IdentityView,
    second: IdentityView,
    amka: Seq<char>,
    p1: ReviewDecision,
    p2: ReviewDecision,
)
    requires
        review_outcome(t, stamp, first, amka, p1).1 is Ok,
        is_verdict(p2.decision@),
    ensures
        ({
            let t2 = review_outcome(t, stamp, first, amka, p1).0;
            review_outcome(t2, later_stamp, second, amka, p2) == (t2, Err::<ApplicationView, _>(already_reviewed(p1.decision@)))
        }),
{
    lemma_status_names_differ();
    let t2 = review_outcome(t, stamp, first, amka, p1).0;
    assert(t2.rows.contains_key(amka));
    assert(t2.rows[amka].status == p1.decision@);
}

/// An officer reads any application in full, or gets 404.
pub proof fn law_officer_reads_any_application(t: Table, amka: Seq<char>)
    ensures
        match officer_read_outcome(t, amka) {
            Ok(a) => t.holds(amka) && a == t.rows[amka],
            Err(e) => !t.holds(amka) && e == not_found(),
        },
{
}

/// An administrator's correction applies to an application in any status,
/// an officer's verdict included: a given status or note replaces the stored
/// one, an absent one keeps it, the administrator is recorded as the one who
/// decided, and
/// what the citizen submitted stays as it was.
pub proof fn law_correction_overrides(t: Table, stamp: i64, admin: IdentityView, amka: Seq<char>, payload: AdminUpdateApplication)
    requires
        t.holds(amka),
        override_check(payload) is Ok,
    ensures
        ({
            let (t2, answer) = override_outcome(t, stamp, admin, amka, payload);
            let old_row = t.rows[amka];
            let row = t2.rows[amka];
            &&& t2.rows == t.rows.insert(amka, row)
            &&& answer == Ok::<_, ApiErrorView>(row)
            &&& row.status == match payload.status {
                Some(s) => s@,
                None => old_row.status,
            }
            &&& row.review_note == match payload.review_note {
                Some(n) => Some(n@),
                None => old_row.review_note,
            }
            &&& row.reviewed_by == Some(admin.user_id)
            &&& row.same_applicant_fields(old_row)
        }),
{
}

/// A correction with a status other than the three known ones is refused
/// with 400; one for a missing application with 404; neither changes
/// anything.
pub proof fn law_refused_corrections(t: Table, stamp: i64, admin: IdentityView, amka: Seq<char>, payload: AdminUpdateApplication)
    ensures
        override_check(payload) is Err ==> override_outcome(t, stamp, admin, amka, payload)
            == (t, Err::<ApplicationView, _>(invalid_status())),
        override_check(payload) is Ok && !t.holds(amka) ==> override_outcome(t, stamp, admin, amka, payload)
            == (t, Err::<ApplicationView, _>(not_found())),
{
}

/// Deletion removes the application and answers 204 No Content, after which
/// the application cannot be read; a missing application is answered 404
/// and nothing changes.
pub proof fn law_deletion(t: Table, amka: Seq<char>)
    ensures
        t.holds(amka) ==> ({
            let (t2, answer) = delete_outcome(t, amka);
            &&& t2.rows == t.rows.remove(amka)
            &&& answer == Ok::<_, ApiErrorView>(HttpStatus::NoContent)
            &&& officer_read_outcome(t2, amka) == Err::<ApplicationView, _>(not_found())
        }),
        !t.holds(amka) ==> delete_outcome(t, amka) == (t, Err::<HttpStatus, _>(not_found())),
{
}

/// After an administrator deletes a citizen's application, the citizen may
/// submit a new one.
pub proof fn law_deleted_application_can_be_submitted_again(
    t: Table,
    now: i64,
    identity: IdentityView,
    payload: CreateApplication,
)
    requires
        creation_plan(identity, payload, Ok(false)) is Ok,
    ensures
        ({
            let t2 = delete_outcome(t, identity.amka).0;
            create_outcome(t2, now, identity, payload).1 is Ok
        }),
{
}

/// The rows of `rows` with the given status, in the order they come.
pub open spec fn rows_with_status(rows: Seq<ApplicationView>, status: Seq<char>) -> Seq<ApplicationView>
    decreases rows.len(),
{
    if rows.len() == 0 {
        Seq::empty()
    } else {
        let rest = rows_with_status(rows.drop_last(), status);
        if rows.last().status == status {
            rest.push(rows.last())
        } else {
            rest
        }
    }
}

/// Strictly oldest first.
pub open spec fn strictly_oldest_first(rows: Seq<ApplicationView>) -> bool {
    forall|i: int, j: int| 0 <= i < j < rows.len() ==> #[trigger] rows[i].created_at < #[trigger] rows[j].created_at
}

proof fn lemma_rows_with_status_contents(rows: Seq<ApplicationView>, status: Seq<char>, a: ApplicationView)
    ensures
        rows_with_status(rows, status).contains(a) <==> rows.contains(a) && a.status == status,
    decreases rows.len(),
{
    if rows.len() > 0 {
        let init = rows.drop_last();
        lemma_rows_with_status_contents(init, status, a);
        let rest = rows_with_status(init, status);
        let f = rows_with_status(rows, status);
        assert(forall|k: int| 0 <= k < rest.len() ==> f[k] == rest[k]);
        if rows.contains(a) && a.status == status {
            let i = choose|i: int| 0 <= i < rows.len() && rows[i] == a;
            if i < rows.len() - 1 {
                assert(init[i] == a);
                assert(rest.contains(a));
                let k = choose|k: int| 0 <= k < rest.len() && rest[k] == a;
                assert(f[k] == a);
            } else {
                assert(f[rest.len() as int] == a);
            }
        }
        if f.contains(a) {
            let i = choose|i: int| 0 <= i < f.len() && f[i] == a;
            if i < rest.len() {
                assert(rest[i] == a);
                assert(init.contains(a));
                let j = choose|j: int| 0 <= j < init.len() && init[j] == a;
                assert(rows[j] == a);
            } else {
                assert(rows[rows.len() - 1] == a);
            }
        }
    }
}

proof fn lemma_rows_with_status_order(rows: Seq<ApplicationView>, status: Seq<char>)
    requires
        strictly_oldest_first(rows),
    ensures
        strictly_oldest_first(rows_with_status(rows, status)),
    decreases rows.len(),
{
    if rows.len() > 0 {
        let init = rows.drop_last();
        assert(strictly_oldest_first(init)) by {
            assert forall|i: int, j: int| 0 <= i < j < init.len() implies #[trigger] init[i].created_at < #[trigger] init[j].created_at by {
                assert(init[i] == rows[i] && init[j] == rows[j]);
            }
        }
        lemma_rows_with_status_order(init, status);
        let rest = rows_with_status(init, status);
        if rows.last().status == status {
            let f = rest.push(rows.last());
            assert forall|i: int, j: int| 0 <= i < j < f.len() implies #[trigger] f[i].created_at < #[trigger] f[j].created_at by {
                if j == f.len() - 1 {
                    assert(f[i] == rest[i]);
                    assert(rest.contains(rest[i]));
                    lemma_rows_with_status_contents(init, status, rest[i]);
                    let k = choose|k: int| 0 <= k < init.len() && init[k] == rest[i];
                    assert(rows[k] == rest[i]);
                    assert(rows[rows.len() - 1] == rows.last());
                } else {
                    assert(f[i] == rest[i] && f[j] == rest[j]);
                }
            }
        }
    }
}

/// Two strictly ordered sequences with the same elements are equal.
proof fn lemma_same_rows_same_order(x: Seq<ApplicationView>, y: Seq<ApplicationView>)
    requires
        strictly_oldest_first(x),
        strictly_oldest_first(y),
        forall|a: ApplicationView| x.contains(a) <==> y.contains(a),
    ensures
        x == y,
    decreases x.len(),
{
    if x.len() == 0 {
        if y.len() > 0 {
            assert(y.contains(y[0]));
        }
        assert(x =~= y);
    } else {
        assert(x.contains(x[0]));
        assert(y.len() > 0);
        assert(y.contains(y[0]));
        let i = choose|i: int| 0 <= i < x.len() && x[i] == y[0];
        let j = choose|j: int| 0 <= j < y.len() && y[j] == x[0];
        if j > 0 {
            if i > 0 {
                assert(x[0].created_at < x[i].created_at);
            }
            assert(y[0].created_at < y[j].created_at);
        }
        assert(x[0] == y[0]);
        let x1 = x.drop_first();
        let y1 = y.drop_first();
        assert(strictly_oldest_first(x1)) by {
            assert forall|p: int, q: int| 0 <= p < q < x1.len() implies #[trigger] x1[p].created_at < #[trigger] x1[q].created_at by {
                assert(x1[p] == x[p + 1] && x1[q] == x[q + 1]);
            }
        }
        assert(strictly_oldest_first(y1)) by {
            assert forall|p: int, q: int| 0 <= p < q < y1.len() implies #[trigger] y1[p].created_at < #[trigger] y1[q].created_at by {
                assert(y1[p] == y[p + 1] && y1[q] == y[q + 1]);
            }
        }
        assert forall|a: ApplicationView| x1.contains(a) <==> y1.contains(a) by {
            if x1.contains(a) {
                let p = choose|p: int| 0 <= p < x1.len() && x1[p] == a;
                assert(x[p + 1] == a);
                assert(x[0].created_at < x[p + 1].created_at);
                assert(y.contains(a));
                let q = choose|q: int| 0 <= q < y.len() && y[q] == a;
                assert(q != 0);
                assert(y1[q - 1] == a);
            }
            if y1.contains(a) {
                let p = choose|p: int| 0 <= p < y1.len() && y1[p] == a;
                assert(y[p + 1] == a);
                assert(y[0].created_at < y[p + 1].created_at);
                assert(x.contains(a));
                let q = choose|q: int| 0 <= q < x.len() && x[q] == a;
                assert(q != 0);
                assert(x1[q - 1] == a);
            }
        }
        lemma_same_rows_same_order(x1, y1);
        assert(x =~= y) by {
            assert forall|k: int| 0 <= k < x.len() implies x[k] == y[k] by {
                if k > 0 {
                    assert(x[k] == x1[k - 1] && y[k] == y1[k - 1]);
                }
            }
        }
    }
}

proof fn lemma_listing_strictly_ordered(t: Table, q: ListQueryView, rows: Seq<ApplicationView>)
    requires
        t.lists(q, rows),
        !q.newest_first(),
        t.distinct_creation_times(),
    ensures
        strictly_oldest_first(rows),
{
    assert forall|i: int, j: int| 0 <= i < j < rows.len() implies #[trigger] rows[i].created_at < #[trigger] rows[j].created_at by {
        let ki = rows[i].applicant_amka;
        let kj = rows[j].applicant_amka;
        assert(t.rows.contains_key(ki) && t.rows.contains_key(kj));
        assert(ki != kj);
        assert(rows[i].created_at <= rows[j].created_at);
    }
}

/// The administrator's listing is every application, each once, newest
/// first (a database failure being answered 500).
pub proof fn law_admin_listing(t: Table, answer: Result<Seq<ApplicationView>, ApiErrorView>)
    requires
        listing_outcome(t, admin_query(), answer),
    ensures
        answer is Ok,
        forall|k: Seq<char>| #[trigger] t.rows.contains_key(k) ==> answer->Ok_0.contains(t.rows[k]),
        forall|i: int| 0 <= i < answer->Ok_0.len() ==> t.rows.contains_key(#[trigger] answer->Ok_0[i].applicant_amka)
            && t.rows[answer->Ok_0[i].applicant_amka] == answer->Ok_0[i],
        forall|i: int, j: int| 0 <= i < j < answer->Ok_0.len()
            ==> #[trigger] answer->Ok_0[i].applicant_amka != #[trigger] answer->Ok_0[j].applicant_amka,
        in_creation_order(answer->Ok_0, true),
{
    let rows = choose|rows: Seq<ApplicationView>| t.lists(admin_query(), rows) && answer == crate::officer::listing_result(Ok(rows));
    assert forall|k: Seq<char>| #[trigger] t.rows.contains_key(k) implies answer->Ok_0.contains(t.rows[k]) by {
        assert(admin_query().selects(t.rows[k]));
    }
}

/// An officer's listing is oldest first; filtered by a status, it is exactly
/// the applications with that status (none for a status nobody has), and
/// unfiltered it is every application; each once.
pub proof fn law_officer_listing(t: Table, status: Option<Seq<char>>, answer: Result<Seq<ApplicationView>, ApiErrorView>)
    requires
        listing_outcome(t, officer_query(status), answer),
    ensures
        answer is Ok,
        in_creation_order(answer->Ok_0, false),
        forall|i: int, j: int| 0 <= i < j < answer->Ok_0.len()
            ==> #[trigger] answer->Ok_0[i].applicant_amka != #[trigger] answer->Ok_0[j].applicant_amka,
        forall|i: int| 0 <= i < answer->Ok_0.len() ==> t.rows.contains_key(#[trigger] answer->Ok_0[i].applicant_amka)
            && t.rows[answer->Ok_0[i].applicant_amka] == answer->Ok_0[i],
        forall|k: Seq<char>| #[trigger] t.rows.contains_key(k) ==> (answer->Ok_0.contains(t.rows[k]) <==> match status {
            Some(s) => t.rows[k].status == s,
            None => true,
        }),
        forall|i: int| 0 <= i < answer->Ok_0.len() ==> match status {
            Some(s) => (#[trigger] answer->Ok_0[i]).status == s,
            None => true,
        },
{
    let q = officer_query(status);
    let rows = choose|rows: Seq<ApplicationView>| t.lists(q, rows) && answer == crate::officer::listing_result(Ok(rows));
    assert forall|k: Seq<char>| #[trigger] t.rows.contains_key(k) implies (rows.contains(t.rows[k]) <==> q.selects(t.rows[k])) by {
        if rows.contains(t.rows[k]) {
            let i = choose|i: int| 0 <= i < rows.len() && rows[i] == t.rows[k];
            assert(t.rows.contains_key(rows[i].applicant_amka));
            assert(q.selects(rows[i]));
        }
    }
    assert forall|i: int| 0 <= i < rows.len() implies q.selects(#[trigger] rows[i]) by {
        assert(t.rows.contains_key(rows[i].applicant_amka));
    }
}

/// The filtered officer listing is the full listing filtered by status:
/// the same applications, both oldest first; where no two applications were
/// created at the same time, exactly the full listing with the others left
/// out.
pub proof fn law_filtered_listing_is_full_listing_filtered(
    t: Table,
    status: Seq<char>,
    all: Seq<ApplicationView>,
    some: Seq<ApplicationView>,
)
    requires
        listing_outcome(t, officer_query(None), Ok(all)),
        listing_outcome(t, officer_query(Some(status)), Ok(some)),
    ensures
        forall|a: ApplicationView| #[trigger] some.contains(a) <==> all.contains(a) && a.status == status,
        in_creation_order(some, false),
        t.distinct_creation_times() ==> some == rows_with_status(all, status),
{
    let qa = officer_query(None);
    let qs = officer_query(Some(status));
    assert(t.lists(qa, all));
    assert(t.lists(qs, some));
    assert forall|a: ApplicationView| #[trigger] some.contains(a) <==> all.contains(a) && a.status == status by {
        if some.contains(a) {
            let i = choose|i: int| 0 <= i < some.len() && some[i] == a;
            assert(t.rows.contains_key(some[i].applicant_amka));
            assert(t.rows.contains_key(a.applicant_amka));
        }
        if all.contains(a) && a.status == status {
            let i = choose|i: int| 0 <= i < all.len() && all[i] == a;
            assert(t.rows.contains_key(all[i].applicant_amka));
            assert(t.rows.contains_key(a.applicant_amka));
            assert(qs.selects(t.rows[a.applicant_amka]));
        }
    }
    if t.distinct_creation_times() {
        lemma_listing_strictly_ordered(t, qa, all);
        lemma_listing_strictly_ordered(t, qs, some);
        let f = rows_with_status(all, status);
        lemma_rows_with_status_order(all, status);
        assert forall|a: ApplicationView| some.contains(a) <==> f.contains(a) by {
            lemma_rows_with_status_contents(all, status, a);
        }
        lemma_same_rows_same_order(some, f);
    }
}

/// Every operation keeps the table keyed by AMKA and every status one of
/// `pending`, `approved`, `rejected`.
pub proof fn law_statuses_stay_known(
    t: Table,
    now: i64,
    stamp: i64,
    caller: IdentityView,
    amka: Seq<char>,
    submission: CreateApplication,
    verdict: ReviewDecision,
    correction: AdminUpdateApplication,
)
    requires
        t.well_formed(),
        t.statuses_known(),
    ensures
        create_outcome(t, now, caller, submission).0.well_formed(),
        create_outcome(t, now, caller, submission).0.statuses_known(),
        review_outcome(t, stamp, caller, amka, verdict).0.well_formed(),
        review_outcome(t, stamp, caller, amka, verdict).0.statuses_known(),
        override_outcome(t, stamp, caller, amka, correction).0.well_formed(),
        override_outcome(t, stamp, caller, amka, correction).0.statuses_known(),
        delete_outcome(t, amka).0.well_formed(),
        delete_outcome(t, amka).0.statuses_known(),
{
    let t1 = create_outcome(t, now, caller, submission).0;
    assert forall|k: Seq<char>| #[trigger] t1.rows.contains_key(k) implies t1.rows[k].applicant_amka == k
        && is_known_status(t1.rows[k].status) by {
        if k != caller.amka {
            assert(t.rows.contains_key(k));
        }
    }
    let t3 = override_outcome(t, stamp, caller, amka, correction).0;
    assert forall|k: Seq<char>| #[trigger] t3.rows.contains_key(k) implies t3.rows[k].applicant_amka == k
        && is_known_status(t3.rows[k].status) by {
        assert(t.rows.contains_key(k));
    }
}

/// The role's name splits off at the colon that follows it.
proof fn lemma_instance_splits(role: ServiceRole, port: Seq<char>)
    ensures
        split_instance(role.spec_name() + ":"@ + port) == Some((role.spec_name(), port)),
{
    reveal_strlit(":");
    reveal_strlit("citizen");
    reveal_strlit("officer");
    reveal_strlit("admin");
    let name = role.spec_name();
    let v = name + ":"@ + port;
    let k = name.len() as int;
    assert(forall|j: int| 0 <= j < k ==> name[j] != ':');
    assert(first_colon_at(v, k));
    let c = choose|c: int| first_colon_at(v, c);
    if c < k {
        assert(v[c] == name[c]);
    } else if k < c {
        assert(v[k] != ':');
    }
    assert(v.take(k) =~= name);
    assert(v.skip(k + 1) =~= port);
}

/// A command line that names a role with a valid port and a host, in either
/// order, runs that role on that host and port.
pub proof fn law_command_line_is_understood(role: ServiceRole, port: Seq<char>, host: Seq<char>)
    requires
        port_number(port) is Some,
    ensures
        ({
            let instance = role.spec_name() + ":"@ + port;
            let run = CliCommandView::Run { role, bind_host: host, port: port_number(port)->Some_0 };
            &&& cli_command(seq!["--service-instance"@, instance, "--bind-host"@, host]) == run
            &&& cli_command(seq!["--bind-host"@, host, "--service-instance"@, instance]) == run
        }),
{
    reveal_strlit("-h");
    reveal_strlit("--help");
    reveal_strlit("--service-instance");
    reveal_strlit("--bind-host");
    reveal_strlit("citizen");
    reveal_strlit("officer");
    reveal_strlit("admin");
    lemma_instance_splits(role, port);
    let instance = role.spec_name() + ":"@ + port;
    let a1 = seq!["--service-instance"@, instance, "--bind-host"@, host];
    let a2 = seq!["--bind-host"@, host, "--service-instance"@, instance];
    assert("-h"@.len() == 2 && "--help"@.len() == 6);
    assert("--service-instance"@.len() == 18 && "--bind-host"@.len() == 11);
    assert("--service-instance"@ != "-h"@ && "--service-instance"@ != "--help"@);
    assert("--bind-host"@ != "-h"@ && "--bind-host"@ != "--help"@);
    assert("--bind-host"@ != "--service-instance"@);
    assert(a1[0] == "--service-instance"@ && a1[1] == instance && a1[2] == "--bind-host"@ && a1[3] == host);
    assert(a2[0] == "--bind-host"@ && a2[1] == host && a2[2] == "--service-instance"@ && a2[3] == instance);
    assert(scan(a1, 4, Some(instance), Some(host)) == Scan::Done { instance: Some(instance), host: Some(host) });
    assert(scan(a1, 2, Some(instance), None) == scan(a1, 4, Some(instance), Some(host)));
    assert(scan(a1, 0, None, None) == scan(a1, 2, Some(instance), None));
    assert(scan(a2, 4, Some(instance), Some(host)) == Scan::Done { instance: Some(instance), host: Some(host) });
    assert(scan(a2, 2, None, Some(host)) == scan(a2, 4, Some(instance), Some(host)));
    assert(scan(a2, 0, None, None) == scan(a2, 2, None, Some(host)));
    assert("citizen"@[0] == 'c' && "officer"@[0] == 'o' && "admin"@[0] == 'a');
    assert(role_named(role.spec_name()) == Some(role));
}

} // verus!
