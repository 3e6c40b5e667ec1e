//! The decisions that the HTTP handlers make between their reads and writes of
//! the store: who is asking, whether a request may go on, what is changed, and
//! what is answered.

use vstd::prelude::*;
use crate::api_response::{answers, valid_status, ApiResponse};
use crate::db::DatabaseResponse;
use crate::jwt::{claims_at, cookie_verdict, verify_cookie_at, Claims, CookieToken, TOKEN_LIFETIME_SECS};
use crate::user_model::{
    accepts_password, debug_simple_user, opt_text, simple_user_debug_text, SimpleUserStruct, User,
    UserView, WalletView,
};
use crate::protocol_model::{texts, Protocol, ProtocolView};
use crate::quiz_model::{
    joined_participant, ParticipantView, Quiz, QuizAnswer, QuizView, Status,
};
use crate::search::{first_index, lemma_first_index, lemma_first_index_is};
use crate::text::{debug_quoted, debug_text, str_eq};
use crate::clock::{names_a_calendar_time, now_formatted};

verus! {

// ---------------------------------------------------------------- request bodies

/// Body of a protocol registration.
#[derive(Debug)]
pub struct SubmitRegisterProtocol {
    pub name: String,
}

/// Body of a request to add a member to a protocol's team.
#[derive(Debug)]
pub struct SubmitAddProtocolStaff {
    pub protocol_name: String,
    pub staff_uuid: String,
}

/// Body of a request to join a quiz.
#[derive(Debug)]
pub struct SubmitStartQuiz {
    pub quiz_uuid: String,
}

/// Body of a quiz submission.
#[derive(Debug)]
pub struct SubmitSubmitQuiz {
    pub quiz_uuid: String,
    pub answers: Vec<QuizAnswer>,
}

/// Body of a user registration.
#[derive(Debug)]
pub struct SubmitRegisterUser {
    pub username: String,
    pub password: String,
    pub email: String,
}

/// Body of a request to link a wallet to a user.
#[derive(Debug)]
pub struct SubmitLinkWalletAddress {
    pub user_uuid: String,
    pub wallet_address: String,
}

/// Body of a login.
#[derive(Debug)]
pub struct SubmitLogin {
    pub email: String,
    pub password: String,
}

/// Path of a profile lookup by email.
#[derive(Debug)]
pub struct SubmitGetProfileViaEmail {
    pub email: String,
}

/// The user a request acts for, at time `now`, or the 401 answer that refuses it.
pub fn authorize(token: CookieToken, now: i64) -> (r: Result<String, ApiResponse>)
    ensures
        match cookie_verdict(token, now) {
            Ok(user) => r matches Ok(u) && u@ == user,
            Err(reason) => r matches Err(resp) && answers(resp, 401, reason),
        },
{
    match verify_cookie_at(token, now) {
        Ok(user_uuid) => Ok(user_uuid),
        Err(e) => Err(ApiResponse::new(401, e.message)),
    }
}

/// Whether a store failure can be passed on as an answer: a not-found, or a valid status.
pub open spec fn passable(e: DatabaseResponse) -> bool {
    e.error_code == 404 || valid_status(e.error_code)
}

/// Before registering something, what a lookup of it by its key says: when it
/// was found, a 409 with `conflict_message`; when it was not found, go on
/// (`None`); when the lookup failed otherwise, that failure.
pub fn reject_if_registered(lookup_error: Option<DatabaseResponse>, conflict_message: &str) -> (r:
    Option<ApiResponse>)
    requires
        lookup_error matches Some(e) ==> passable(e),
    ensures
        match lookup_error {
            None => r matches Some(resp) && answers(resp, 409, conflict_message@),
            Some(e) => if e.error_code == 404 {
                r is None
            } else {
                r matches Some(resp) && answers(resp, e.error_code, e.message@)
            },
        },
{
    match lookup_error {
        None => Some(ApiResponse::new(409, String::from_str(conflict_message))),
        Some(e) => {
            if e.error_code == 404 {
                None
            } else {
                Some(ApiResponse::new(e.error_code, e.message))
            }
        },
    }
}

/// The answer after a write to the store: `success_code` with `body` when it
/// went through, else the store's failure.
pub fn stored_response(stored: Result<(), DatabaseResponse>, success_code: u16, body: String) -> (r:
    ApiResponse)
    requires
        valid_status(success_code),
        stored matches Err(e) ==> valid_status(e.error_code),
    ensures
        match stored {
            Ok(_) => answers(r, success_code, body@),
            Err(e) => answers(r, e.error_code, e.message@),
        },
{
    match stored {
        Ok(_) => ApiResponse::new(success_code, body),
        Err(e) => ApiResponse::new(e.error_code, e.message),
    }
}

// ---------------------------------------------------------------- registering and linking

/// The answer once a new protocol named `name` is written: a 201 with the name
/// quoted, or the store's failure.
pub fn register_protocol_outcome(name: &str, stored: Result<(), DatabaseResponse>) -> (r: ApiResponse)
    requires
        stored matches Err(e) ==> valid_status(e.error_code),
    ensures
        match stored {
            Ok(_) => answers(r, 201, debug_text(name@)),
            Err(e) => answers(r, e.error_code, e.message@),
        },
{
    stored_response(stored, 201, debug_quoted(name))
}

/// The answer once the team of the protocol named `name` is written: a 200 with
/// the name quoted, or the store's failure.
pub fn add_staff_outcome(name: &str, stored: Result<(), DatabaseResponse>) -> (r: ApiResponse)
    requires
        stored matches Err(e) ==> valid_status(e.error_code),
    ensures
        match stored {
            Ok(_) => answers(r, 200, debug_text(name@)),
            Err(e) => answers(r, e.error_code, e.message@),
        },
{
    stored_response(stored, 200, debug_quoted(name))
}

/// The answer once the new user `user_uuid` is written: a 201 with the
/// identifier quoted, or the store's failure.
pub fn register_user_outcome(user_uuid: &str, stored: Result<(), DatabaseResponse>) -> (r: ApiResponse)
    requires
        stored matches Err(e) ==> valid_status(e.error_code),
    ensures
        match stored {
            Ok(_) => answers(r, 201, debug_text(user_uuid@)),
            Err(e) => answers(r, e.error_code, e.message@),
        },
{
    stored_response(stored, 201, debug_quoted(user_uuid))
}

/// Links `wallet_address` to the user, stamped `updated_at`, and gives the
/// user's public record as it now stands.
pub fn link_wallet_at(
    user: &mut User,
    wallet_address: String,
    updated_at: String,
) -> (shown: SimpleUserStruct)
    ensures
        final(user)@ == (UserView {
            wallet: WalletView { wallet_address: Some(wallet_address@), updated_at: updated_at@ },
            ..old(user)@
        }),
        shown.user_uuid@ == old(user)@.user_uuid,
        shown.user_name@ == old(user)@.user_name,
        shown.email@ == old(user)@.email.email,
        opt_text(shown.wallet_address) == Some(wallet_address@),
{
    user.wallet.update_wallet_at(wallet_address, updated_at);
    user.display()
}

/// Links `wallet_address` to the user, stamped now, and gives the user's
/// public record as it now stands.
pub fn link_wallet(user: &mut User, wallet_address: String) -> (shown: SimpleUserStruct)
    ensures
        final(user)@ == (UserView {
            wallet: WalletView {
                wallet_address: Some(wallet_address@),
                updated_at: final(user)@.wallet.updated_at,
            },
            ..old(user)@
        }),
        shown.user_uuid@ == old(user)@.user_uuid,
        shown.user_name@ == old(user)@.user_name,
        shown.email@ == old(user)@.email.email,
        opt_text(shown.wallet_address) == Some(wallet_address@),
        names_a_calendar_time(final(user)@.wallet.updated_at),
{
    let now = now_formatted();
    link_wallet_at(user, wallet_address, now)
}

/// The answer once a linked wallet is written: a 200 with the user's public
/// record, or the store's failure.
pub fn link_wallet_outcome(shown: &SimpleUserStruct, stored: Result<(), DatabaseResponse>) -> (r:
    ApiResponse)
    requires
        stored matches Err(e) ==> valid_status(e.error_code),
    ensures
        match stored {
            Ok(_) => answers(
                r,
                200,
                simple_user_debug_text(
                    shown.user_uuid@,
                    shown.user_name@,
                    shown.email@,
                    opt_text(shown.wallet_address),
                ),
            ),
            Err(e) => answers(r, e.error_code, e.message@),
        },
{
    stored_response(stored, 200, debug_simple_user(shown))
}

// ---------------------------------------------------------------- logging in

/// Logs a user in at time `now` with `password`: the claims of a day-long
/// session when the password is the user's, else a 401.
pub fn login_claims(user: &User, password: String, now: i64) -> (r: Result<Claims, ApiResponse>)
    requires
        now + TOKEN_LIFETIME_SECS <= i64::MAX,
    ensures
        accepts_password(user@, password@) ==> (r matches Ok(c) && c.user_uuid@ == user@.user_uuid
            && c.exp == now + TOKEN_LIFETIME_SECS),
        !accepts_password(user@, password@) ==> (r matches Err(resp) && answers(
            resp,
            401,
            "Invalid username or password"@,
        )),
{
    if user.compare_password(password) {
        Ok(claims_at(user.user_uuid.clone(), now))
    } else {
        Err(ApiResponse::new(401, "Invalid username or password".to_string()))
    }
}

// ---------------------------------------------------------------- protocol staff

/// Adds `staff_uuid` to the protocol's team unless it is already there, in
/// which case the protocol is left as it is and a 409 is answered.
pub fn add_staff_if_absent(protocol: &mut Protocol, staff_uuid: String) -> (r: Result<(), ApiResponse>)
    ensures
        old(protocol)@.staffs.contains(staff_uuid@) ==> final(protocol)@ == old(protocol)@ && (r matches Err(
            resp,
        ) && answers(resp, 409, "User already added to the protocol team"@)),
        !old(protocol)@.staffs.contains(staff_uuid@) ==> r is Ok && final(protocol)@ == (ProtocolView {
            staffs: old(protocol)@.staffs.push(staff_uuid@),
            ..old(protocol)@
        }),
        final(protocol)@.staffs.contains(staff_uuid@),
{
    let n = protocol.staffs.len();
    let mut i: usize = 0;
    while i < n
        invariant
            n == protocol.staffs@.len(),
            i <= n,
            forall|j: int| 0 <= j < i ==> #[trigger] protocol@.staffs[j] != staff_uuid@,
        decreases n - i,
    {
        if str_eq(protocol.staffs[i].as_str(), staff_uuid.as_str()) {
            assert(protocol@.staffs[i as int] == staff_uuid@);
            return Err(ApiResponse::new(409, "User already added to the protocol team".to_string()));
        }
        assert(protocol@.staffs[i as int] == protocol.staffs@[i as int]@);
        i = i + 1;
    }
    assert(!protocol@.staffs.contains(staff_uuid@));
    let ghost before = protocol@.staffs;
    protocol.add_staff(staff_uuid);
    assert(protocol@.staffs[before.len() as int] == staff_uuid@);
    Ok(())
}

/// A team with no member twice keeps that property when members are added through
/// `add_staff_if_absent`.
pub proof fn lemma_team_stays_distinct(staffs: Seq<Seq<char>>, staff_uuid: Seq<char>)
    requires
        staffs.no_duplicates(),
    ensures
        (if staffs.contains(staff_uuid) {
            staffs
        } else {
            staffs.push(staff_uuid)
        }).no_duplicates(),
{
    if !staffs.contains(staff_uuid) {
        let after = staffs.push(staff_uuid);
        assert forall|i: int, j: int| 0 <= i < after.len() && 0 <= j < after.len() && i != j implies after[i]
            != after[j] by {
            if i == staffs.len() as int {
                assert(after[j] == staffs[j]);
            } else if j == staffs.len() as int {
                assert(after[i] == staffs[i]);
            }
        }
    }
}

// ---------------------------------------------------------------- joining a quiz

/// Why a quiz with this status and schedule cannot be joined at time `now`, if it cannot.
pub open spec fn join_refusal(status: Status, start_time: i64, end_time: i64, now: i64) -> Option<
    Seq<char>,
> {
    match status {
        Status::Completed => Some("Quiz has already been completed"@),
        Status::Canceled => Some("Quiz has already been Canceled"@),
        Status::Pending => if start_time <= now {
            if end_time < now {
                Some("Submission period exceeded"@)
            } else {
                None
            }
        } else {
            Some("Quiz is currently pending"@)
        },
        Status::Ongoing => None,
    }
}

/// Whether the quiz can be joined at time `now`: `None` to go on, else the 400 that refuses it.
pub fn join_gate(quiz: &Quiz, now: i64) -> (r: Option<ApiResponse>)
    ensures
        match join_refusal(quiz.status, quiz.start_time, quiz.end_time, now) {
            None => r is None,
            Some(reason) => r matches Some(resp) && answers(resp, 400, reason),
        },
{
    match quiz.status {
        Status::Completed => Some(ApiResponse::new(400, "Quiz has already been completed".to_string())),
        Status::Pending => {
            if quiz.start_time <= now {
                if quiz.end_time < now {
                    Some(ApiResponse::new(400, "Submission period exceeded".to_string()))
                } else {
                    None
                }
            } else {
                Some(ApiResponse::new(400, "Quiz is currently pending".to_string()))
            }
        },
        Status::Canceled => Some(ApiResponse::new(400, "Quiz has already been Canceled".to_string())),
        Status::Ongoing => None,
    }
}

/// Lets `user_uuid` join a quiz that `join_gate` admits, at time `now`, with
/// the user's linked wallet: the quiz becomes ongoing and gains the participant.
/// A user without a linked wallet is refused with a 400 and the quiz is left as it is.
pub fn join_quiz(quiz: &mut Quiz, user_uuid: String, wallet_address: Option<String>, now: i64) -> (r:
    Result<(), ApiResponse>)
    requires
        join_refusal(old(quiz).status, old(quiz).start_time, old(quiz).end_time, now) is None,
    ensures
        match wallet_address {
            None => final(quiz)@ == old(quiz)@ && (r matches Err(resp) && answers(
                resp,
                400,
                "User does not have a linked wallet address"@,
            )),
            Some(w) => r is Ok && final(quiz)@ == (QuizView {
                status: Status::Ongoing,
                participants: old(quiz)@.participants.push(joined_participant(user_uuid@, w@, now)),
                ..old(quiz)@
            }),
        },
{
    match wallet_address {
        None => Err(ApiResponse::new(400, "User does not have a linked wallet address".to_string())),
        Some(wallet) => {
            quiz.status = Status::Ongoing;
            quiz.add_participant_at(user_uuid, wallet, now);
            Ok(())
        },
    }
}

/// A quiz lets a participant in only while it is ongoing, or while it is
/// pending with `now` between its start and its end.
pub proof fn lemma_joined_only_while_open(status: Status, start_time: i64, end_time: i64, now: i64)
    ensures
        join_refusal(status, start_time, end_time, now) is None <==> (status == Status::Ongoing || (
        status == Status::Pending && start_time <= now && now <= end_time)),
{
}

// ---------------------------------------------------------------- submitting answers

/// Why answers cannot be submitted to a quiz with this status, if they cannot.
pub open spec fn submission_refusal(status: Status) -> Option<Seq<char>> {
    match status {
        Status::Completed => Some("Quiz has already been completed"@),
        Status::Pending => Some("Quiz is currently pending"@),
        Status::Canceled => Some("Quiz has already been Canceled"@),
        Status::Ongoing => None,
    }
}

/// Whether a participant is `user_uuid`.
pub open spec fn is_participant(user_uuid: Seq<char>) -> spec_fn(ParticipantView) -> bool {
    |p: ParticipantView| p.user_uuid == user_uuid
}

/// The position of the first participant who is `user_uuid`, if any.
pub open spec fn first_participant_index(ps: Seq<ParticipantView>, user_uuid: Seq<char>) -> Option<int> {
    first_index(ps, is_participant(user_uuid))
}

/// Records `answers`, submitted at time `now`, for the first participant of
/// an ongoing quiz who is `user_uuid`. A quiz that is not ongoing answers 400,
/// a user who did not join answers 404; in both cases the quiz is left as it is.
pub fn record_submission(quiz: &mut Quiz, user_uuid: &str, answers_given: Vec<QuizAnswer>, now: i64) -> (r:
    Result<(), ApiResponse>)
    ensures
        match submission_refusal(old(quiz).status) {
            Some(reason) => final(quiz)@ == old(quiz)@ && (r matches Err(resp) && answers(
                resp,
                400,
                reason,
            )),
            None => match first_participant_index(old(quiz)@.participants, user_uuid@) {
                Some(i) => r is Ok && final(quiz)@ == (QuizView {
                    participants: old(quiz)@.participants.update(
                        i,
                        ParticipantView {
                            answered_questions: answers_given@,
                            submission_time: now,
                            ..old(quiz)@.participants[i]
                        },
                    ),
                    ..old(quiz)@
                }),
                None => final(quiz)@ == old(quiz)@ && (r matches Err(resp) && answers(
                    resp,
                    404,
                    "Not a registered quiz participant"@,
                )),
            },
        },
{
    match quiz.status {
        Status::Completed => {
            return Err(ApiResponse::new(400, "Quiz has already been completed".to_string()));
        },
        Status::Pending => {
            return Err(ApiResponse::new(400, "Quiz is currently pending".to_string()));
        },
        Status::Canceled => {
            return Err(ApiResponse::new(400, "Quiz has already been Canceled".to_string()));
        },
        Status::Ongoing => {},
    }
    let n = quiz.participants.len();
    let mut i: usize = 0;
    while i < n
        invariant
            n == quiz.participants@.len(),
            quiz@ == old(quiz)@,
            quiz.status == Status::Ongoing,
            i <= n,
            forall|j: int| 0 <= j < i ==> !is_participant(user_uuid@)(#[trigger] quiz@.participants[j]),
        decreases n - i,
    {
        if str_eq(quiz.participants[i].user_uuid.as_str(), user_uuid) {
            proof {
                assert(quiz@.participants[i as int] == quiz.participants@[i as int]@);
                lemma_first_index_is(quiz@.participants, is_participant(user_uuid@), i as int);
            }
            let ghost before = quiz.participants@;
            quiz.participants[i].submit_quiz_at(answers_given, now);
            assert(crate::quiz_model::participant_views(quiz.participants@) =~= crate::quiz_model::participant_views(before).update(
                i as int,
                ParticipantView {
                    answered_questions: answers_given@,
                    submission_time: now,
                    ..old(quiz)@.participants[i as int]
                },
            ));
            return Ok(());
        }
        assert(quiz@.participants[i as int] == quiz.participants@[i as int]@);
        i = i + 1;
    }
    proof {
        lemma_first_index(quiz@.participants, is_participant(user_uuid@));
        if first_participant_index(quiz@.participants, user_uuid@) is Some {
            let k = first_participant_index(quiz@.participants, user_uuid@)->0;
            assert(!is_participant(user_uuid@)(quiz@.participants[k]));
        }
    }
    Err(ApiResponse::new(404, "Not a registered quiz participant".to_string()))
}

// ---------------------------------------------------------------- creating a quiz

/// The answer once a new quiz is stored and its protocol fetched: a 201 with the
/// quiz's identifier, whether or not recording the quiz on the protocol succeeded.
pub fn create_quiz_outcome(quiz_uuid: &str, protocol_update: Result<(), DatabaseResponse>) -> (r:
    ApiResponse)
    requires
        protocol_update matches Err(e) ==> valid_status(e.error_code),
    ensures
        answers(r, 201, debug_text(quiz_uuid@)),
{
    match protocol_update {
        Ok(_) => {
            return ApiResponse::new(201, debug_quoted(quiz_uuid));
        },
        Err(e) => {
            let _refused = ApiResponse::new(e.error_code, e.message);
        },
    }
    ApiResponse::new(201, debug_quoted(quiz_uuid))
}

} // verus!
