use openquest::api_response::ApiResponse;
use openquest::db::{user_found, users_listed, DatabaseResponse};
use openquest::jwt::{
    claims_at, is_valid_token, is_valid_token_at, new_claims, verify_cookie, verify_cookie_at, Claims,
    CookieToken, TOKEN_LIFETIME_SECS,
};
use openquest::protocol_model::Protocol;
use openquest::quiz_model::{DifficultyLevel, OptionIndex, Quiz, QuizAccess, QuizAnswer, RewardType, Status};
use openquest::routes::{
    add_staff_if_absent, authorize, create_quiz_outcome, join_gate, join_quiz, login_claims,
    record_submission, reject_if_registered, stored_response,
};
use openquest::user_model::User;

const START: i64 = 1_700_000_000;

fn quiz_with_status(status: Status) -> Quiz {
    let mut quiz = Quiz::new(
        "Q".to_string(),
        DifficultyLevel::Hard,
        "d".to_string(),
        "OpenQuest".to_string(),
        "creator".to_string(),
        vec![],
        QuizAccess::Private,
        100,
        START,
        RewardType::DistributedByRankToTopFive,
    );
    quiz.status = status;
    quiz
}

fn claims(exp: i64, user: &str) -> Claims {
    Claims { exp, user_uuid: user.to_string() }
}

fn check(r: &ApiResponse, code: u16, body: &str) {
    assert_eq!(r.status_code, code);
    assert_eq!(r.body, body);
    assert_eq!(r.response_code.as_u16(), code);
}

#[test]
fn api_responses() {
    check(&ApiResponse::new(200, "Server is healthy".to_string()), 200, "Server is healthy");
    check(&ApiResponse::new_from_macro("boom".to_string()), 500, "boom");
}

#[test]
fn tokens_live_for_a_day() {
    let c = claims_at("u1".to_string(), START);
    assert_eq!(c.exp, START + 86400);
    assert_eq!(TOKEN_LIFETIME_SECS, 86400);
    assert!(is_valid_token_at(&c, START));
    assert!(is_valid_token_at(&c, START + 86399));
    assert!(!is_valid_token_at(&c, START + 86400));
    let fresh = new_claims("u2".to_string()).unwrap();
    assert_eq!(fresh.user_uuid, "u2");
    assert!(is_valid_token(&fresh));
    assert!(!is_valid_token(&claims(START, "u3")));
}

#[test]
fn cookies_are_judged() {
    let e = verify_cookie_at(CookieToken::Missing, START).unwrap_err();
    assert_eq!((e.error_code, e.message.as_str()), (401, "Missing token"));
    let e = verify_cookie_at(CookieToken::Invalid, START).unwrap_err();
    assert_eq!((e.error_code, e.message.as_str()), (401, "Invalid token"));
    let e = verify_cookie_at(CookieToken::Decoded(claims(START, "u1")), START).unwrap_err();
    assert_eq!((e.error_code, e.message.as_str()), (401, "Invalid or expired token"));
    assert_eq!(verify_cookie_at(CookieToken::Decoded(claims(START + 1, "u1")), START).unwrap(), "u1");
    assert!(verify_cookie(CookieToken::Decoded(claims(i64::MAX, "u9"))).is_ok());
    assert!(verify_cookie(CookieToken::Missing).is_err());
}

#[test]
fn requests_are_authorized() {
    check(&authorize(CookieToken::Missing, START).unwrap_err(), 401, "Missing token");
    check(&authorize(CookieToken::Invalid, START).unwrap_err(), 401, "Invalid token");
    check(
        &authorize(CookieToken::Decoded(claims(START - 1, "u1")), START).unwrap_err(),
        401,
        "Invalid or expired token",
    );
    assert_eq!(authorize(CookieToken::Decoded(claims(START + 60, "u1")), START).unwrap(), "u1");
}

#[test]
fn registration_gate() {
    check(
        &reject_if_registered(None, "Email already registered").unwrap(),
        409,
        "Email already registered",
    );
    assert!(reject_if_registered(
        Some(DatabaseResponse::new(404, "User not found".to_string())),
        "Email already registered"
    )
    .is_none());
    check(
        &reject_if_registered(
            Some(DatabaseResponse::new(500, "Database error: down".to_string())),
            "Protocol already registered",
        )
        .unwrap(),
        500,
        "Database error: down",
    );
}

#[test]
fn writes_are_answered() {
    check(&stored_response(Ok(()), 201, "\"u1\"".to_string()), 201, "\"u1\"");
    check(
        &stored_response(Err(DatabaseResponse::new(500, "Error creating user".to_string())), 201, "x".to_string()),
        500,
        "Error creating user",
    );
}

#[test]
fn lookups_map_to_not_found() {
    let e = user_found(None).unwrap_err();
    assert_eq!((e.error_code, e.message.as_str()), (404, "User not found"));
    let user = User::new("a".to_string(), "a@x.io".to_string(), "pw".to_string()).unwrap();
    assert_eq!(user_found(Some(user)).unwrap().user_name, "a");
    let e = users_listed(vec![]).unwrap_err();
    assert_eq!((e.error_code, e.message.as_str()), (404, "No users were found"));
    let user = User::new("b".to_string(), "b@x.io".to_string(), "pw".to_string()).unwrap();
    assert_eq!(users_listed(vec![user]).unwrap().len(), 1);
}

#[test]
fn login_with_the_right_password() {
    let user = User::new("a".to_string(), "a@x.io".to_string(), "secret".to_string()).unwrap();
    let c = login_claims(&user, "secret".to_string(), START).unwrap();
    assert_eq!(c.user_uuid, user.user_uuid);
    assert_eq!(c.exp, START + 86400);
    check(
        &login_claims(&user, "wrong".to_string(), START).unwrap_err(),
        401,
        "Invalid username or password",
    );
}

#[test]
fn staff_is_added_once() {
    let mut protocol = Protocol::new("P".to_string(), "c".to_string());
    assert!(add_staff_if_absent(&mut protocol, "s1".to_string()).is_ok());
    assert!(add_staff_if_absent(&mut protocol, "s2".to_string()).is_ok());
    check(
        &add_staff_if_absent(&mut protocol, "s1".to_string()).unwrap_err(),
        409,
        "User already added to the protocol team",
    );
    assert_eq!(protocol.staffs, vec!["s1".to_string(), "s2".to_string()]);
}

#[test]
fn join_gate_by_status_and_time() {
    check(&join_gate(&quiz_with_status(Status::Completed), START).unwrap(), 400, "Quiz has already been completed");
    check(&join_gate(&quiz_with_status(Status::Canceled), START).unwrap(), 400, "Quiz has already been Canceled");
    check(&join_gate(&quiz_with_status(Status::Pending), START - 1).unwrap(), 400, "Quiz is currently pending");
    check(&join_gate(&quiz_with_status(Status::Pending), START + 101).unwrap(), 400, "Submission period exceeded");
    assert!(join_gate(&quiz_with_status(Status::Pending), START).is_none());
    assert!(join_gate(&quiz_with_status(Status::Pending), START + 100).is_none());
    assert!(join_gate(&quiz_with_status(Status::Ongoing), START + 10_000).is_none());
}

#[test]
fn joining_needs_a_wallet() {
    let mut quiz = quiz_with_status(Status::Pending);
    check(
        &join_quiz(&mut quiz, "u1".to_string(), None, START).unwrap_err(),
        400,
        "User does not have a linked wallet address",
    );
    assert_eq!(quiz.status, Status::Pending);
    assert!(quiz.participants.is_empty());
    assert!(join_quiz(&mut quiz, "u1".to_string(), Some("0xabc".to_string()), START + 5).is_ok());
    assert_eq!(quiz.status, Status::Ongoing);
    assert_eq!(quiz.participants.len(), 1);
    assert_eq!(quiz.participants[0].user_uuid, "u1");
    assert_eq!(quiz.participants[0].wallet_address, "0xabc");
    assert_eq!(quiz.participants[0].start_time, START + 5);
    assert!(join_quiz(&mut quiz, "u2".to_string(), Some("0xdef".to_string()), START + 6).is_ok());
    assert_eq!(quiz.participants.len(), 2);
}

#[test]
fn submissions_by_status_and_participant() {
    let answers = vec![QuizAnswer { question_id: 0, answer: OptionIndex::A }];
    for (status, reason) in [
        (Status::Completed, "Quiz has already been completed"),
        (Status::Pending, "Quiz is currently pending"),
        (Status::Canceled, "Quiz has already been Canceled"),
    ] {
        let mut quiz = quiz_with_status(status);
        check(&record_submission(&mut quiz, "u1", answers.clone(), START).unwrap_err(), 400, reason);
    }
    let mut quiz = quiz_with_status(Status::Ongoing);
    quiz.add_participant_at("u1".to_string(), "0x1".to_string(), START);
    quiz.add_participant_at("u2".to_string(), "0x2".to_string(), START);
    check(
        &record_submission(&mut quiz, "u3", answers.clone(), START + 50).unwrap_err(),
        404,
        "Not a registered quiz participant",
    );
    assert!(record_submission(&mut quiz, "u2", answers.clone(), START + 50).is_ok());
    assert_eq!(quiz.participants[1].answered_questions, answers);
    assert_eq!(quiz.participants[1].submission_time, START + 50);
    assert!(quiz.participants[0].answered_questions.is_empty());
    assert_eq!(quiz.participants[0].submission_time, 0);
}

#[test]
fn created_quiz_is_answered_even_if_protocol_update_fails() {
    check(&create_quiz_outcome("q-1", Ok(())), 201, "\"q-1\"");
    check(
        &create_quiz_outcome("q-2", Err(DatabaseResponse::new(500, "update failed".to_string()))),
        201,
        "\"q-2\"",
    );
}
