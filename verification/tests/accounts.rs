use mudzidzi::auth::{
    auth_response, existing_user, is_unique_violation, profile_kind, registration_conflict, ProfileKind,
    ProfileRecord, UserRecord,
};
use mudzidzi::error::{app_error, ErrorKind};
use mudzidzi::students::{
    profile_response, recommendation_responses, require_student_id, require_student_role,
    RecommendationRecord, StudentIdStep, StudentProfileRecord,
};

#[test]
fn unique_violations_become_conflicts() {
    assert!(is_unique_violation(Some("23505")));
    assert!(!is_unique_violation(Some("23503")));
    assert!(!is_unique_violation(None));
    let e = registration_conflict(Some("23505")).unwrap();
    assert_eq!(e.kind(), ErrorKind::Conflict);
    assert_eq!(e.message(), "An account with this email already exists.");
    assert!(registration_conflict(Some("40001")).is_none());
}

#[test]
fn teachers_have_their_own_profile_table() {
    assert_eq!(profile_kind("teacher"), ProfileKind::Teacher);
    assert_eq!(profile_kind("student"), ProfileKind::Student);
    assert_eq!(profile_kind("Teacher"), ProfileKind::Student);
}

#[test]
fn auth_response_carries_user_and_profile() {
    let r = auth_response(
        "a".to_string(),
        "r".to_string(),
        9,
        "Tariro",
        "t@x.y",
        "student",
        ProfileRecord { school_name: Some("Harare High".to_string()), grade_level: Some("Form 3".to_string()) },
    );
    assert_eq!(r.access_token, "a");
    assert_eq!(r.refresh_token, "r");
    assert_eq!(r.user.id, 9);
    assert_eq!(r.user.full_name, "Tariro");
    assert_eq!(r.user.school_name.as_deref(), Some("Harare High"));
    assert_eq!(r.user.grade_level.as_deref(), Some("Form 3"));
}

#[test]
fn missing_users_are_unauthorized() {
    let e = existing_user(None).unwrap_err();
    assert_eq!(e.kind(), ErrorKind::Unauthorized);
    assert_eq!(e.message(), "User no longer exists.");
    let u = UserRecord {
        id: 1,
        email: "e".to_string(),
        password_hash: "h".to_string(),
        full_name: "n".to_string(),
        role: "teacher".to_string(),
    };
    assert_eq!(existing_user(Some(u)).unwrap().id, 1);
}

#[test]
fn student_endpoints_refuse_other_roles() {
    assert!(require_student_role("student").is_ok());
    let e = require_student_role("teacher").unwrap_err();
    assert_eq!(e.kind(), ErrorKind::Unauthorized);
    assert_eq!(e.message(), "This endpoint is only available to student accounts.");
    match require_student_id("teacher", None) {
        StudentIdStep::Refuse(e) => {
            assert_eq!(e.kind(), ErrorKind::Unauthorized);
            assert_eq!(e.message(), "This endpoint is only available to student accounts.");
        }
        other => panic!("expected a refusal, got {:?}", other),
    }
    // A teacher is refused even where a row was found.
    assert!(matches!(require_student_id("teacher", Some(Some(5))), StudentIdStep::Refuse(_)));
    assert!(matches!(require_student_id("student", None), StudentIdStep::LookUp));
    assert!(matches!(require_student_id("student", Some(Some(5))), StudentIdStep::Found(5)));
    match require_student_id("student", Some(None)) {
        StudentIdStep::Refuse(e) => {
            assert_eq!(e.kind(), ErrorKind::NotFound);
            assert_eq!(e.message(), "Student profile not found.");
        }
        other => panic!("expected not found, got {:?}", other),
    }
}

#[test]
fn profile_answers() {
    let p = StudentProfileRecord {
        full_name: "Tariro".to_string(),
        email: "t@x.y".to_string(),
        school_name: None,
        grade_level: Some("Form 4".to_string()),
    };
    let r = profile_response(Some(p)).unwrap();
    assert_eq!(r.full_name, "Tariro");
    assert_eq!(r.grade_level.as_deref(), Some("Form 4"));
    assert_eq!(profile_response(None).unwrap_err().kind(), ErrorKind::NotFound);
}

#[test]
fn recommendations_keep_their_order() {
    let rec = |slug: &str, priority: i32| RecommendationRecord {
        topic_slug: slug.to_string(),
        topic_title: format!("Title {slug}"),
        recommendation_type: "review".to_string(),
        reason: "low mastery".to_string(),
        priority,
    };
    let out = recommendation_responses(vec![rec("algebra", 1), rec("geometry", 2), rec("sets", 3)]);
    let slugs: Vec<&str> = out.iter().map(|r| r.topic_slug.as_str()).collect();
    assert_eq!(slugs, vec!["algebra", "geometry", "sets"]);
    assert_eq!(out[1].priority, 2);
    assert_eq!(out[2].topic_title, "Title sets");
    assert!(recommendation_responses(Vec::new()).is_empty());
}

#[test]
fn errors_keep_kind_and_message() {
    let e = app_error(ErrorKind::Internal, "password hashing failed");
    assert_eq!(e.kind(), ErrorKind::Internal);
    assert_eq!(e.message(), "password hashing failed");
}
