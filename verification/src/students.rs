//! Student service: profile and recommendation shapes, and the decisions
//! of the student endpoints between their database calls.

use vstd::prelude::*;

use crate::error::{app_error, AppError, ErrorKind, Failure};
use crate::text::same_text;

verus! {

/// A student's profile as stored.
#[derive(Debug)]
pub struct StudentProfileRecord {
    pub full_name: String,
    pub email: String,
    pub school_name: Option<String>,
    pub grade_level: Option<String>,
}

/// A student's profile as answered.
#[derive(Debug)]
pub struct StudentProfileResponse {
    pub full_name: String,
    pub email: String,
    pub school_name: Option<String>,
    pub grade_level: Option<String>,
}

/// An active recommendation as stored.
#[derive(Debug)]
pub struct RecommendationRecord {
    pub topic_slug: String,
    pub topic_title: String,
    pub recommendation_type: String,
    pub reason: String,
    pub priority: i32,
}

/// An active recommendation as answered.
#[derive(Debug)]
pub struct RecommendationResponse {
    pub topic_slug: String,
    pub topic_title: String,
    pub recommendation_type: String,
    pub reason: String,
    pub priority: i32,
}

/// The content shared by a recommendation record and its response.
pub struct RecommendationView {
    pub topic_slug: Seq<char>,
    pub topic_title: Seq<char>,
    pub recommendation_type: Seq<char>,
    pub reason: Seq<char>,
    pub priority: i32,
}

impl View for RecommendationRecord {
    type V = RecommendationView;

    open spec fn view(&self) -> RecommendationView {
        RecommendationView {
            topic_slug: self.topic_slug@,
            topic_title: self.topic_title@,
            recommendation_type: self.recommendation_type@,
            reason: self.reason@,
            priority: self.priority,
        }
    }
}

impl View for RecommendationResponse {
    type V = RecommendationView;

    open spec fn view(&self) -> RecommendationView {
        RecommendationView {
            topic_slug: self.topic_slug@,
            topic_title: self.topic_title@,
            recommendation_type: self.recommendation_type@,
            reason: self.reason@,
            priority: self.priority,
        }
    }
}

/// Student-only endpoints refuse every other account, as unauthorized
/// rather than as not found.
pub fn require_student_role(role: &str) -> (r: Result<(), AppError>)
    ensures
        r is Ok <==> role@ == "student"@,
        r matches Err(e) ==> e@ == (Failure {
            kind: ErrorKind::Unauthorized,
            message: "This endpoint is only available to student accounts."@,
        }),
{
    if !same_text(role, "student") {
        return Err(
            app_error(ErrorKind::Unauthorized, "This endpoint is only available to student accounts."),
        );
    }
    Ok(())
}

/// The next step in resolving the caller's `students.id`.
#[derive(Debug)]
pub enum StudentIdStep {
    /// Answer with this error; nothing more is looked up.
    Refuse(AppError),
    /// Look up the caller's student row, then ask again with what was found.
    LookUp,
    /// The caller's student id.
    Found(u128),
}

/// Resolves the `students.id` of the caller with the given role.
/// `looked_up` is `None` before the student row has been looked up, and the
/// lookup's result after. An account that is not a student account is
/// refused as unauthorized (not as not found) before any lookup; a student
/// account without a student row is not found.
pub fn require_student_id(role: &str, looked_up: Option<Option<u128>>) -> (s: StudentIdStep)
    ensures
        role@ != "student"@ ==> (s matches StudentIdStep::Refuse(e) && e@ == (Failure {
            kind: ErrorKind::Unauthorized,
            message: "This endpoint is only available to student accounts."@,
        })),
        role@ == "student"@ && looked_up is None ==> s is LookUp,
        role@ == "student"@ && looked_up == Some(None::<u128>) ==> (s matches StudentIdStep::Refuse(
            e,
        ) && e@ == (Failure { kind: ErrorKind::NotFound, message: "Student profile not found."@ })),
        role@ == "student"@ && looked_up is Some && looked_up->Some_0 is Some ==> (s matches StudentIdStep::Found(
            x,
        ) && x == looked_up->Some_0->Some_0),
{
    match require_student_role(role) {
        Err(e) => StudentIdStep::Refuse(e),
        Ok(()) => match looked_up {
            None => StudentIdStep::LookUp,
            Some(None) => StudentIdStep::Refuse(
                app_error(ErrorKind::NotFound, "Student profile not found."),
            ),
            Some(Some(id)) => StudentIdStep::Found(id),
        },
    }
}

/// The profile answer for a stored profile, or not found.
pub fn profile_response(found: Option<StudentProfileRecord>) -> (r: Result<StudentProfileResponse, AppError>)
    ensures
        found matches Some(p) ==> (r matches Ok(x) && x.full_name == p.full_name && x.email
            == p.email && x.school_name == p.school_name && x.grade_level == p.grade_level),
        found is None ==> (r matches Err(e) && e@ == (Failure {
            kind: ErrorKind::NotFound,
            message: "Student profile not found."@,
        })),
{
    match found {
        Some(p) => Ok(
            StudentProfileResponse {
                full_name: p.full_name,
                email: p.email,
                school_name: p.school_name,
                grade_level: p.grade_level,
            },
        ),
        None => Err(app_error(ErrorKind::NotFound, "Student profile not found.")),
    }
}

/// The answer for one stored recommendation.
pub fn recommendation_response(r: RecommendationRecord) -> (x: RecommendationResponse)
    ensures
        x@ == r@,
{
    RecommendationResponse {
        topic_slug: r.topic_slug,
        topic_title: r.topic_title,
        recommendation_type: r.recommendation_type,
        reason: r.reason,
        priority: r.priority,
    }
}

/// The answers for the stored recommendations, in the same order.
pub fn recommendation_responses(records: Vec<RecommendationRecord>) -> (out: Vec<RecommendationResponse>)
    ensures
        out@.len() == records@.len(),
        forall|i: int| 0 <= i < records@.len() ==> (#[trigger] out@[i])@ == records@[i]@,
{
    let ghost input = records@;
    let mut records = records;
    let mut out: Vec<RecommendationResponse> = Vec::new();
    while records.len() > 0
        invariant
            records@ == input.skip(out@.len() as int),
            out@.len() <= input.len(),
            forall|j: int| 0 <= j < out@.len() ==> (#[trigger] out@[j])@ == input[j]@,
        decreases records@.len(),
    {
        let r = records.remove(0);
        assert(input.skip(out@.len() as int)[0] == input[out@.len() as int]);
        assert(records@ =~= input.skip(out@.len() as int + 1));
        out.push(recommendation_response(r));
    }
    assert(out@.len() == input.len());
    out
}

} // verus!
