use chrono::{DateTime, Utc};
use openquest::clock::{EARLIEST_TIMESTAMP, LATEST_TIMESTAMP};
use openquest::jwt::{is_valid_token, new_claims, Claims};
use openquest::quiz_model::{DifficultyLevel, Quiz, QuizAccess, RewardType};

fn quiz_spanning(start_time: i64, duration: i64) -> Quiz {
    Quiz::new(
        "Q".to_string(),
        DifficultyLevel::Easy,
        "d".to_string(),
        "P".to_string(),
        "c".to_string(),
        vec![],
        QuizAccess::Public,
        duration,
        start_time,
        RewardType::DistributedByLottery,
    )
}

#[test]
fn clock_bounds_are_chronos_range() {
    assert_eq!(EARLIEST_TIMESTAMP, DateTime::<Utc>::MIN_UTC.timestamp());
    assert_eq!(LATEST_TIMESTAMP, DateTime::<Utc>::MAX_UTC.timestamp());
}

#[test]
fn quiz_spanning_all_time_is_active_and_has_time_left() {
    let quiz = quiz_spanning(EARLIEST_TIMESTAMP, LATEST_TIMESTAMP - EARLIEST_TIMESTAMP);
    assert!(quiz.is_active());
    let left = quiz.remaining_time().unwrap();
    assert!(left > 0 && left <= LATEST_TIMESTAMP);
    let never = quiz_spanning(LATEST_TIMESTAMP, -1);
    assert!(!never.is_active());
}

#[test]
fn fresh_claims_always_made_and_live() {
    let c = new_claims("u".to_string()).unwrap();
    assert_eq!(c.user_uuid, "u");
    assert!(is_valid_token(&c));
    assert!(is_valid_token(&Claims { exp: LATEST_TIMESTAMP + 1, user_uuid: "u".to_string() }));
    assert!(!is_valid_token(&Claims { exp: EARLIEST_TIMESTAMP, user_uuid: "u".to_string() }));
}
