use openquest::protocol_model::Protocol;
use openquest::quiz_model::{
    DifficultyLevel, OptionIndex, Participant, Question, Quiz, QuizAccess, QuizAnswer, QuizOption,
    RewardType, Status,
};
use openquest::user_model::{Email, Password, User, Wallet};

fn question(id: usize) -> Question {
    Question {
        id,
        question_text: format!("Question {}", id),
        options: [
            QuizOption { text: "one".to_string(), option_index: OptionIndex::A },
            QuizOption { text: "two".to_string(), option_index: OptionIndex::B },
            QuizOption { text: "three".to_string(), option_index: OptionIndex::C },
            QuizOption { text: "four".to_string(), option_index: OptionIndex::D },
        ],
        correct_answer: OptionIndex::B,
    }
}

fn sample_quiz(questions: Vec<Question>) -> Quiz {
    Quiz::new(
        "Rust basics".to_string(),
        DifficultyLevel::Easy,
        "A first quiz".to_string(),
        "OpenQuest".to_string(),
        "creator-1".to_string(),
        questions,
        QuizAccess::Public,
        3600,
        1_700_000_000,
        RewardType::DistributedByLottery,
    )
}

#[test]
fn access_names_read_back() {
    assert_eq!(QuizAccess::Public.to_string(), "Public");
    assert_eq!(QuizAccess::Private.to_string(), "Private");
    for a in [QuizAccess::Public, QuizAccess::Private] {
        assert_eq!(QuizAccess::from_str(a.to_string()), Some(a));
    }
    assert_eq!(QuizAccess::from_str("public"), None);
    assert_eq!(QuizAccess::from_str(""), None);
}

#[test]
fn difficulty_read_in_any_case() {
    assert_eq!(DifficultyLevel::from_str("EASY"), Some(DifficultyLevel::Easy));
    assert_eq!(DifficultyLevel::from_str("Medium"), Some(DifficultyLevel::Medium));
    assert_eq!(DifficultyLevel::from_str("hard"), Some(DifficultyLevel::Hard));
    assert_eq!(DifficultyLevel::from_str("mEdIuM"), Some(DifficultyLevel::Medium));
    assert_eq!(DifficultyLevel::from_str("extreme"), None);
    for d in [DifficultyLevel::Easy, DifficultyLevel::Medium, DifficultyLevel::Hard] {
        assert_eq!(DifficultyLevel::from_str(d.to_string()), Some(d));
    }
    assert_eq!(DifficultyLevel::from_lowercase("Easy"), None);
    assert_eq!(DifficultyLevel::from_lowercase("easy"), Some(DifficultyLevel::Easy));
}

#[test]
fn option_letters_read_back() {
    assert_eq!(OptionIndex::from_str("c"), Some(OptionIndex::C));
    assert_eq!(OptionIndex::from_str("D"), Some(OptionIndex::D));
    assert_eq!(OptionIndex::from_str("e"), None);
    for o in [OptionIndex::A, OptionIndex::B, OptionIndex::C, OptionIndex::D] {
        assert_eq!(OptionIndex::from_str(o.to_string()), Some(o));
    }
}

#[test]
fn reward_type_keywords_differ_from_names() {
    assert_eq!(
        RewardType::from_str("Distributed_By_Rank"),
        Some(RewardType::DistributedByRankToTopFive)
    );
    assert_eq!(
        RewardType::from_str("distributed_equally"),
        Some(RewardType::DistributedEqullyToTopFive)
    );
    assert_eq!(
        RewardType::from_lowercase("distributed_by_lottery"),
        Some(RewardType::DistributedByLottery)
    );
    assert_eq!(RewardType::DistributedByLottery.to_string(), "DistributedByLottery");
    for r in [
        RewardType::DistributedByRankToTopFive,
        RewardType::DistributedEqullyToTopFive,
        RewardType::DistributedByLottery,
    ] {
        assert_eq!(RewardType::from_str(r.to_string()), None);
    }
}

#[test]
fn new_quiz_is_pending_and_scheduled() {
    let quiz = sample_quiz(vec![question(1), question(2)]);
    assert_eq!(quiz.uuid.len(), 36);
    assert_eq!(quiz.num_questions, 2);
    assert_eq!(quiz.end_time, 1_700_003_600);
    assert_eq!(quiz.status, Status::Pending);
    assert!(!quiz.submited);
    assert!(quiz.participants.is_empty());
    assert_eq!(quiz.created_by, "creator-1");
}

#[test]
fn quiz_activity_and_remaining_time() {
    let quiz = sample_quiz(vec![question(1)]);
    assert!(!quiz.is_active_at(1_699_999_999));
    assert!(quiz.is_active_at(1_700_000_000));
    assert!(quiz.is_active_at(1_700_003_600));
    assert!(!quiz.is_active_at(1_700_003_601));
    assert_eq!(quiz.remaining_time_at(1_700_000_000), Some(3600));
    assert_eq!(quiz.remaining_time_at(1_700_003_600), Some(0));
    assert_eq!(quiz.remaining_time_at(1_700_003_601), None);
    // Any quiz that ended long ago has no time left now.
    assert_eq!(quiz.remaining_time(), None);
    assert!(!quiz.is_active());
}

#[test]
fn quiz_validation() {
    let empty = sample_quiz(vec![]);
    assert_eq!(empty.validate(false), Err("Quiz must have at least one question.".to_string()));
    let quiz = sample_quiz(vec![question(1)]);
    assert_eq!(
        quiz.validate(true),
        Err("Total reward cannot be less than max reward per user.".to_string())
    );
    assert_eq!(quiz.validate(false), Ok(()));
}

#[test]
fn participants_join_and_submit() {
    let mut quiz = sample_quiz(vec![question(1)]);
    assert!(quiz.add_participant_at("u1".to_string(), "0xabc".to_string(), 1_700_000_010));
    assert_eq!(quiz.participants.len(), 1);
    let p = &quiz.participants[0];
    assert_eq!(p.user_uuid, "u1");
    assert_eq!(p.wallet_address, "0xabc");
    assert_eq!(p.score, 0);
    assert_eq!(p.start_time, 1_700_000_010);
    assert_eq!(p.submission_time, 0);
    assert!(quiz.add_participant("u2".to_string(), "0xdef".to_string()));
    assert_eq!(quiz.participants.len(), 2);
    assert!(quiz.participants[1].start_time > 1_700_000_010);

    let mut participant: Participant = quiz.participants[0].clone();
    let answers = vec![QuizAnswer { question_id: 1, answer: OptionIndex::B }];
    assert!(participant.submit_quiz_at(answers.clone(), 1_700_000_500));
    assert_eq!(participant.answered_questions, answers);
    assert_eq!(participant.submission_time, 1_700_000_500);
    assert!(participant.submit_quiz(vec![]));
    assert!(participant.answered_questions.is_empty());
    assert!(participant.submission_time > 1_700_000_500);
}

#[test]
fn offchain_data_copies_the_quiz() {
    let mut quiz = sample_quiz(vec![question(7)]);
    quiz.add_participant_at("u1".to_string(), "0xabc".to_string(), 5);
    let data = quiz.into_offchain_quiz_data();
    assert_eq!(data.uuid, quiz.uuid);
    assert_eq!(data.protocol, "OpenQuest");
    assert_eq!(data.num_questions, 1);
    assert_eq!(data.questions[0].id, 7);
    assert_eq!(data.participants[0].user_uuid, "u1");
    assert_eq!(data.reward_type, RewardType::DistributedByLottery);
    assert_eq!(data.difficulty, DifficultyLevel::Easy);
}

#[test]
fn quiz_due_for_submission_and_marked() {
    let mut quiz = sample_quiz(vec![question(1)]);
    assert!(!quiz.is_due_for_submission(1_700_003_599));
    assert!(quiz.is_due_for_submission(1_700_003_600));
    quiz.mark_submitted();
    assert!(quiz.submited);
    assert_eq!(quiz.status, Status::Completed);
    assert!(!quiz.is_due_for_submission(1_800_000_000));
}

const PASSWORD_DIGEST: &str = "5e884898da28047151d0e56f8dc6292773603d0d6aabbdd62a11ef721d1542d8";

#[test]
fn new_user_stores_password_digest() {
    let user = User::new("alice".to_string(), "a@x.io".to_string(), "password".to_string()).unwrap();
    assert_eq!(user.user_uuid.len(), 36);
    assert_eq!(user.user_name, "alice");
    assert_eq!(user.email.email, "a@x.io");
    assert!(!user.email.verified);
    assert_eq!(user.wallet.wallet_address, None);
    assert_eq!(user.wallet.updated_at, "0000-00-00 00:00:00");
    assert_eq!(user.password.password_hash, PASSWORD_DIGEST);
    assert!(user.compare_password("password".to_string()));
    assert!(!user.compare_password("Password".to_string()));
}

#[test]
fn changed_password_is_the_one_accepted() {
    let mut user = User::new("bob".to_string(), "b@x.io".to_string(), "first".to_string()).unwrap();
    let copy = user.change_password("password".to_string()).unwrap();
    assert_eq!(user.password.password_hash, PASSWORD_DIGEST);
    assert_eq!(copy.password.password_hash, PASSWORD_DIGEST);
    assert!(user.compare_password("password".to_string()));
    assert!(!user.compare_password("first".to_string()));
    assert_eq!(user.email.email, "b@x.io");
}

#[test]
fn email_updates_reset_verification() {
    let mut email = Email::new("c@x.io".to_string()).unwrap();
    assert!(!email.get_verified());
    assert_eq!(email.verify(), Ok(true));
    assert!(email.get_verified());
    assert!(email.update_email("d@x.io".to_string()));
    assert_eq!(email.get_email(), "d@x.io");
    assert!(!email.get_verified());

    let mut user = User::new("carol".to_string(), "c@x.io".to_string(), "pw".to_string()).unwrap();
    user.email.verify().unwrap();
    let copy = user.update_email("e@x.io".to_string()).unwrap();
    assert_eq!(user.email.email, "e@x.io");
    assert!(!user.email.verified);
    assert_eq!(copy.email.email, "e@x.io");
}

#[test]
fn password_and_wallet_records() {
    let mut password = Password::new("password".to_string()).unwrap();
    assert_eq!(password.get_password_hash(), PASSWORD_DIGEST);
    assert!(password.update_password("abc".to_string()));
    assert_eq!(password.get_password_hash(), "abc");
    assert!(!password.update_password(String::new()));

    let mut wallet = Wallet::new("0x1".to_string());
    assert_eq!(wallet.wallet_address, Some("0x1".to_string()));
    assert!(wallet.update_wallet("0x2".to_string()));
    assert_eq!(wallet.wallet_address, Some("0x2".to_string()));
}

#[test]
fn display_shows_public_fields() {
    let mut user = User::new("dave".to_string(), "d@x.io".to_string(), "pw".to_string()).unwrap();
    user.wallet.update_wallet("0xfeed".to_string());
    let shown = user.display();
    assert_eq!(shown.user_uuid, user.user_uuid);
    assert_eq!(shown.user_name, "dave");
    assert_eq!(shown.email, "d@x.io");
    assert_eq!(shown.wallet_address, Some("0xfeed".to_string()));
}

#[test]
fn protocol_team_and_quizzes() {
    let mut protocol = Protocol::new("OpenQuest".to_string(), "creator-1".to_string());
    assert_eq!(protocol.protocol_uuid.len(), 36);
    assert_eq!(protocol.contract_address, " ");
    assert_eq!(protocol.created_by, "creator-1");
    assert!(protocol.staffs.is_empty() && protocol.protocol_users.is_empty() && protocol.quizes.is_empty());
    assert!(protocol.add_staff("s1".to_string()));
    assert!(protocol.add_quiz("q1".to_string()));
    assert_eq!(protocol.staffs, vec!["s1".to_string()]);
    assert_eq!(protocol.quizes, vec!["q1".to_string()]);
    protocol.record_contract_address(None);
    assert_eq!(protocol.contract_address, " ");
    protocol.record_contract_address(Some("0x78f7".to_string()));
    assert_eq!(protocol.contract_address, "0x78f7");
}

#[test]
fn leaderboard_points_update_first_entry() {
    let mut protocol = Protocol::new("OpenQuest".to_string(), "creator-1".to_string());
    assert!(!protocol.update_protocol_user_leaderboard_point("u1".to_string(), 10));
    assert!(protocol.add_protocol_user("u1".to_string()));
    assert!(protocol.add_protocol_user("u2".to_string()));
    assert!(protocol.add_protocol_user("u1".to_string()));
    assert_eq!(protocol.protocol_users[0].leaderboard_point, 0);
    assert!(protocol.update_protocol_user_leaderboard_point("u1".to_string(), 42));
    assert_eq!(protocol.protocol_users[0].leaderboard_point, 42);
    assert_eq!(protocol.protocol_users[1].leaderboard_point, 0);
    assert_eq!(protocol.protocol_users[2].leaderboard_point, 0);
    assert!(protocol.update_protocol_user_leaderboard_point("u2".to_string(), -5));
    assert_eq!(protocol.protocol_users[1].leaderboard_point, -5);
    assert!(!protocol.update_protocol_user_leaderboard_point("u3".to_string(), 1));
}
