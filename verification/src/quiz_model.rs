//! Quizzes, their questions, participants and the vocabularies they are described with.

use vstd::prelude::*;
use crate::text::{ascii_lowercase, lowercase_of, str_eq, to_lowercase};
use vstd::utf8::is_ascii_chars;
use crate::clock::{clock_reading, new_uuid, now_timestamp, EARLIEST_TIMESTAMP, LATEST_TIMESTAMP};

verus! {

/// Who may join a quiz.
#[derive(Debug, Clone, Copy, PartialEq, Eq, Structural)]
pub enum QuizAccess {
    Public,
    Private,
}

/// How a quiz's reward pool is shared out.
#[derive(Debug, Clone, Copy, PartialEq, Eq, Structural)]
pub enum RewardType {
    DistributedByRankToTopFive,
    DistributedEqullyToTopFive,
    DistributedByLottery,
}

/// How hard a quiz is.
#[derive(Debug, Clone, Copy, PartialEq, Eq, Structural)]
pub enum DifficultyLevel {
    Easy,
    Medium,
    Hard,
}

/// Where a quiz stands in its life.
#[derive(Debug, Clone, Copy, PartialEq, Eq, Structural)]
pub enum Status {
    Pending,
    Ongoing,
    Completed,
    Canceled,
}

/// One of the four answer slots of a question.
#[derive(Debug, Clone, Copy, PartialEq, Eq, Structural)]
pub enum OptionIndex {
    A,
    B,
    C,
    D,
}

// ---------------------------------------------------------------- records

/// One answer text of a question, with the slot it sits in.
#[derive(Debug)]
pub struct QuizOption {
    pub text: String,
    pub option_index: OptionIndex,
}

impl Clone for QuizOption {
    fn clone(&self) -> (r: Self)
        ensures
            r == *self,
    {
        QuizOption { text: self.text.clone(), option_index: self.option_index }
    }
}

/// A question with its four options and the slot of the right answer.
#[derive(Debug)]
pub struct Question {
    pub id: usize,
    pub question_text: String,
    pub options: [QuizOption; 4],
    pub correct_answer: OptionIndex,
}

impl Clone for Question {
    fn clone(&self) -> (r: Self)
        ensures
            r == *self,
    {
        let options = [
            self.options[0].clone(),
            self.options[1].clone(),
            self.options[2].clone(),
            self.options[3].clone(),
        ];
        assert(options =~= self.options) by {
            broadcast use vstd::array::group_array_axioms;
        }
        Question {
            id: self.id,
            question_text: self.question_text.clone(),
            options,
            correct_answer: self.correct_answer,
        }
    }
}

/// The slot a participant chose for one question.
#[derive(Debug, Clone, Copy, PartialEq, Eq, Structural)]
pub struct QuizAnswer {
    pub question_id: usize,
    pub answer: OptionIndex,
}

/// Someone taking a quiz: who, with which wallet, what they answered and when.
/// The reward they earn is kept beside it by the server, as a floating-point amount.
#[derive(Debug)]
pub struct Participant {
    pub user_uuid: String,
    pub wallet_address: String,
    pub score: i64,
    pub answered_questions: Vec<QuizAnswer>,
    pub submission_time: i64,
    pub start_time: i64,
}

/// The mathematical value of a participant.
pub struct ParticipantView {
    pub user_uuid: Seq<char>,
    pub wallet_address: Seq<char>,
    pub score: i64,
    pub answered_questions: Seq<QuizAnswer>,
    pub submission_time: i64,
    pub start_time: i64,
}

impl View for Participant {
    type V = ParticipantView;

    open spec fn view(&self) -> ParticipantView {
        ParticipantView {
            user_uuid: self.user_uuid@,
            wallet_address: self.wallet_address@,
            score: self.score,
            answered_questions: self.answered_questions@,
            submission_time: self.submission_time,
            start_time: self.start_time,
        }
    }
}

impl Clone for Participant {
    fn clone(&self) -> (r: Self)
        ensures
            r@ == self@,
    {
        let answers = self.answered_questions.clone();
        assert(answers@ =~= self.answered_questions@);
        Participant {
            user_uuid: self.user_uuid.clone(),
            wallet_address: self.wallet_address.clone(),
            score: self.score,
            answered_questions: answers,
            submission_time: self.submission_time,
            start_time: self.start_time,
        }
    }
}

/// A newly joined participant: no score, no answers, not yet submitted.
pub open spec fn joined_participant(
    user_uuid: Seq<char>,
    wallet_address: Seq<char>,
    now: i64,
) -> ParticipantView {
    ParticipantView {
        user_uuid,
        wallet_address,
        score: 0,
        answered_questions: Seq::empty(),
        submission_time: 0,
        start_time: now,
    }
}

/// The views of a list of participants.
pub open spec fn participant_views(ps: Seq<Participant>) -> Seq<ParticipantView> {
    ps.map_values(|p: Participant| p@)
}

impl Participant {
    /// Records the participant's answers as submitted at time `now`.
    pub fn submit_quiz_at(&mut self, answered_questions: Vec<QuizAnswer>, now: i64) -> (r: bool)
        ensures
            r,
            final(self)@ == (ParticipantView {
                answered_questions: answered_questions@,
                submission_time: now,
                ..old(self)@
            }),
    {
        self.answered_questions = answered_questions;
        self.submission_time = now;
        true
    }

    /// Records the participant's answers as submitted now.
    pub fn submit_quiz(&mut self, answered_questions: Vec<QuizAnswer>) -> (r: bool)
        ensures
            r,
            final(self)@ == (ParticipantView {
                answered_questions: answered_questions@,
                submission_time: final(self)@.submission_time,
                ..old(self)@
            }),
            EARLIEST_TIMESTAMP <= final(self)@.submission_time <= LATEST_TIMESTAMP,
    {
        let now = now_timestamp();
        self.submit_quiz_at(answered_questions, now)
    }
}

/// What of a quiz is handed to the grading contract, besides the reward
/// amounts, which the server adds as floating-point numbers.
#[derive(Debug)]
pub struct QuizOffchainData {
    pub uuid: String,
    pub protocol: String,
    pub num_questions: usize,
    pub questions: Vec<Question>,
    pub participants: Vec<Participant>,
    pub reward_type: RewardType,
    pub difficulty: DifficultyLevel,
}

/// A quiz: its questions, schedule, participants and life cycle. Its total
/// reward and reward cap per user are kept beside it by the server, as
/// floating-point amounts.
#[derive(Debug)]
pub struct Quiz {
    pub uuid: String,
    pub name: String,
    pub difficulty: DifficultyLevel,
    pub protocol: String,
    pub description: String,
    pub num_questions: usize,
    pub questions: Vec<Question>,
    pub access: QuizAccess,
    pub duration_in_sec_timestamp: i64,
    pub start_time: i64,
    pub end_time: i64,
    pub created_at: i64,
    pub created_by: String,
    pub participants: Vec<Participant>,
    pub status: Status,
    pub submited: bool,
    pub reward_type: RewardType,
}

/// The mathematical value of a quiz.
pub struct QuizView {
    pub uuid: Seq<char>,
    pub name: Seq<char>,
    pub difficulty: DifficultyLevel,
    pub protocol: Seq<char>,
    pub description: Seq<char>,
    pub num_questions: usize,
    pub questions: Seq<Question>,
    pub access: QuizAccess,
    pub duration_in_sec_timestamp: i64,
    pub start_time: i64,
    pub end_time: i64,
    pub created_at: i64,
    pub created_by: Seq<char>,
    pub participants: Seq<ParticipantView>,
    pub status: Status,
    pub submited: bool,
    pub reward_type: RewardType,
}

impl View for Quiz {
    type V = QuizView;

    open spec fn view(&self) -> QuizView {
        QuizView {
            uuid: self.uuid@,
            name: self.name@,
            difficulty: self.difficulty,
            protocol: self.protocol@,
            description: self.description@,
            num_questions: self.num_questions,
            questions: self.questions@,
            access: self.access,
            duration_in_sec_timestamp: self.duration_in_sec_timestamp,
            start_time: self.start_time,
            end_time: self.end_time,
            created_at: self.created_at,
            created_by: self.created_by@,
            participants: participant_views(self.participants@),
            status: self.status,
            submited: self.submited,
            reward_type: self.reward_type,
        }
    }
}

/// Clones a list of participants, view for view.
fn clone_participants(ps: &Vec<Participant>) -> (r: Vec<Participant>)
    ensures
        participant_views(r@) == participant_views(ps@),
{
    let r = ps.clone();
    assert(participant_views(r@) =~= participant_views(ps@));
    r
}

/// Clones a list of questions.
fn clone_questions(qs: &Vec<Question>) -> (r: Vec<Question>)
    ensures
        r@ == qs@,
{
    let r = qs.clone();
    assert(r@ =~= qs@);
    r
}

/// The seconds left at time `now` before a quiz ending at `end_time` closes.
pub open spec fn remaining_at(end_time: i64, now: i64) -> Option<int> {
    if now > end_time {
        None
    } else {
        Some(end_time - now)
    }
}

/// Whether a quiz, at time `now`, has ended and has not yet been sent for grading.
pub open spec fn due_for_submission(q: QuizView, now: i64) -> bool {
    q.end_time <= now && !q.submited
}

impl Quiz {
    /// A new pending quiz, with a fresh identifier, created at time `created_at`.
    pub fn new_at(
        name: String,
        difficulty: DifficultyLevel,
        description: String,
        protocol: String,
        created_by: String,
        questions: Vec<Question>,
        access: QuizAccess,
        duration_in_sec_timestamp: i64,
        start_time: i64,
        reward_type: RewardType,
        created_at: i64,
    ) -> (q: Quiz)
        requires
            i64::MIN <= start_time + duration_in_sec_timestamp <= i64::MAX,
        ensures
            q@.uuid.len() == 36,
            q@.name == name@,
            q@.difficulty == difficulty,
            q@.description == description@,
            q@.protocol == protocol@,
            q@.created_by == created_by@,
            q@.num_questions == questions@.len(),
            q@.questions == questions@,
            q@.access == access,
            q@.duration_in_sec_timestamp == duration_in_sec_timestamp,
            q@.start_time == start_time,
            q@.end_time == start_time + duration_in_sec_timestamp,
            q@.participants == Seq::<ParticipantView>::empty(),
            q@.status == Status::Pending,
            !q@.submited,
            q@.reward_type == reward_type,
            q@.created_at == created_at,
    {
        let uuid = new_uuid();
        let num_questions = questions.len();
        let participants: Vec<Participant> = Vec::new();
        assert(participant_views(participants@) =~= Seq::<ParticipantView>::empty());
        Quiz {
            uuid,
            name,
            difficulty,
            description,
            num_questions,
            protocol,
            created_by,
            questions,
            access,
            duration_in_sec_timestamp,
            start_time,
            end_time: start_time + duration_in_sec_timestamp,
            created_at,
            participants,
            status: Status::Pending,
            submited: false,
            reward_type,
        }
    }

    /// A new pending quiz, with a fresh identifier, created now.
    pub fn new(
        name: String,
        difficulty: DifficultyLevel,
        description: String,
        protocol: String,
        created_by: String,
        questions: Vec<Question>,
        access: QuizAccess,
        duration_in_sec_timestamp: i64,
        start_time: i64,
        reward_type: RewardType,
    ) -> (q: Quiz)
        requires
            i64::MIN <= start_time + duration_in_sec_timestamp <= i64::MAX,
        ensures
            q@.uuid.len() == 36,
            q@.name == name@,
            q@.difficulty == difficulty,
            q@.description == description@,
            q@.protocol == protocol@,
            q@.created_by == created_by@,
            q@.num_questions == questions@.len(),
            q@.questions == questions@,
            q@.access == access,
            q@.duration_in_sec_timestamp == duration_in_sec_timestamp,
            q@.start_time == start_time,
            q@.end_time == start_time + duration_in_sec_timestamp,
            q@.participants == Seq::<ParticipantView>::empty(),
            q@.status == Status::Pending,
            !q@.submited,
            q@.reward_type == reward_type,
            EARLIEST_TIMESTAMP <= q@.created_at <= LATEST_TIMESTAMP,
    {
        let created_at = now_timestamp();
        Quiz::new_at(
            name,
            difficulty,
            description,
            protocol,
            created_by,
            questions,
            access,
            duration_in_sec_timestamp,
            start_time,
            reward_type,
            created_at,
        )
    }

    /// The part of the quiz that the grading contract receives.
    pub fn into_offchain_quiz_data(&self) -> (d: QuizOffchainData)
        ensures
            d.uuid@ == self.uuid@,
            d.protocol@ == self.protocol@,
            d.num_questions == self.num_questions,
            d.questions@ == self.questions@,
            participant_views(d.participants@) == participant_views(self.participants@),
            d.reward_type == self.reward_type,
            d.difficulty == self.difficulty,
    {
        QuizOffchainData {
            uuid: self.uuid.clone(),
            protocol: self.protocol.clone(),
            num_questions: self.num_questions,
            questions: clone_questions(&self.questions),
            participants: clone_participants(&self.participants),
            reward_type: self.reward_type,
            difficulty: self.difficulty,
        }
    }

    /// Adds a participant who joins at time `now`.
    pub fn add_participant_at(&mut self, uuid: String, wallet_address: String, now: i64) -> (r: bool)
        ensures
            r,
            final(self)@ == (QuizView {
                participants: old(self)@.participants.push(
                    joined_participant(uuid@, wallet_address@, now),
                ),
                ..old(self)@
            }),
    {
        let p = Participant {
            user_uuid: uuid,
            wallet_address,
            score: 0,
            answered_questions: Vec::new(),
            submission_time: 0,
            start_time: now,
        };
        assert(p@ == joined_participant(p.user_uuid@, p.wallet_address@, now));
        self.participants.push(p);
        assert(participant_views(self.participants@) =~= participant_views(
            old(self).participants@,
        ).push(joined_participant(p.user_uuid@, p.wallet_address@, now)));
        true
    }

    /// Adds a participant who joins now.
    pub fn add_participant(&mut self, uuid: String, wallet_address: String) -> (r: bool)
        ensures
            r,
            final(self)@.participants.len() == old(self)@.participants.len() + 1,
            final(self)@.participants.drop_last() == old(self)@.participants,
            final(self)@.participants.last().user_uuid == uuid@,
            final(self)@.participants.last().wallet_address == wallet_address@,
            final(self)@.participants.last().score == 0,
            final(self)@.participants.last().answered_questions.len() == 0,
            final(self)@.participants.last().submission_time == 0,
            EARLIEST_TIMESTAMP <= final(self)@.participants.last().start_time <= LATEST_TIMESTAMP,
            final(self)@ == (QuizView { participants: final(self)@.participants, ..old(self)@ }),
    {
        let now = now_timestamp();
        self.add_participant_at(uuid, wallet_address, now)
    }

    /// Whether the quiz is open at time `now`: between its start and end, both included.
    pub fn is_active_at(&self, now: i64) -> (r: bool)
        ensures
            r == (self.start_time <= now && now <= self.end_time),
    {
        now >= self.start_time && now <= self.end_time
    }

    /// Whether the quiz is open now. The clock reads some time between
    /// `EARLIEST_TIMESTAMP` and `LATEST_TIMESTAMP`; the quiz is open when that
    /// time lies between its start and end.
    pub fn is_active(&self) -> (r: bool)
        ensures
            r ==> self.start_time <= self.end_time && self.start_time <= LATEST_TIMESTAMP
                && EARLIEST_TIMESTAMP <= self.end_time,
            !r ==> EARLIEST_TIMESTAMP < self.start_time || self.end_time < LATEST_TIMESTAMP,
            exists|t: i64|
                #[trigger] clock_reading(t) && r == (self.start_time <= t && t <= self.end_time),
    {
        let now = now_timestamp();
        assert(clock_reading(now));
        self.is_active_at(now)
    }

    /// The seconds left at time `now` before the quiz closes, or `None` once it has closed.
    pub fn remaining_time_at(&self, now: i64) -> (r: Option<i64>)
        requires
            now > self.end_time || self.end_time - now <= i64::MAX,
        ensures
            match remaining_at(self.end_time, now) {
                None => r is None,
                Some(left) => r == Some(left as i64),
            },
    {
        if now > self.end_time {
            None
        } else {
            Some(self.end_time - now)
        }
    }

    /// The seconds left before the quiz closes, or `None` once it has closed.
    /// Also `None` when the clock reads so far before the end that the
    /// difference does not fit in an `i64`. The clock reads some time between
    /// `EARLIEST_TIMESTAMP` and `LATEST_TIMESTAMP`: a quiz ending no earlier
    /// than the latest time, and early enough for the difference to fit, always
    /// has time left.
    pub fn remaining_time(&self) -> (r: Option<i64>)
        ensures
            r matches Some(left) ==> 0 <= left && EARLIEST_TIMESTAMP <= self.end_time - left
                <= LATEST_TIMESTAMP,
            r is None ==> self.end_time < LATEST_TIMESTAMP || self.end_time - EARLIEST_TIMESTAMP
                > i64::MAX,
    {
        let now = now_timestamp();
        if now <= self.end_time && (self.end_time as i128) - (now as i128) > (i64::MAX as i128) {
            None
        } else {
            self.remaining_time_at(now)
        }
    }

    /// Checks the quiz's structure. `rewards_exceed_total` tells whether the
    /// total reward is below the reward cap per user.
    pub fn validate(&self, rewards_exceed_total: bool) -> (r: Result<(), String>)
        ensures
            self.num_questions == 0 ==> (r matches Err(m) && m@
                == "Quiz must have at least one question."@),
            self.num_questions != 0 && rewards_exceed_total ==> (r matches Err(m) && m@
                == "Total reward cannot be less than max reward per user."@),
            r is Ok <==> self.num_questions != 0 && !rewards_exceed_total,
    {
        if self.num_questions == 0 {
            return Err("Quiz must have at least one question.".to_string());
        }
        if rewards_exceed_total {
            return Err("Total reward cannot be less than max reward per user.".to_string());
        }
        // Every question holds exactly four options by its type.
        Ok(())
    }

    /// Whether the quiz, at time `now`, has ended and has not yet been sent for grading.
    pub fn is_due_for_submission(&self, now: i64) -> (r: bool)
        ensures
            r == due_for_submission(self@, now),
    {
        self.end_time <= now && !self.submited
    }

    /// Marks the quiz as graded: submitted and completed.
    pub fn mark_submitted(&mut self)
        ensures
            final(self)@ == (QuizView { submited: true, status: Status::Completed, ..old(self)@ }),
    {
        self.submited = true;
        self.status = Status::Completed;
    }
}

// ---------------------------------------------------------------- names

/// The name of an access level.
pub open spec fn access_name(a: QuizAccess) -> Seq<char> {
    match a {
        QuizAccess::Public => "Public"@,
        QuizAccess::Private => "Private"@,
    }
}

/// The access level a text names; the match is exact.
pub open spec fn access_named(s: Seq<char>) -> Option<QuizAccess> {
    if s == "Public"@ {
        Some(QuizAccess::Public)
    } else if s == "Private"@ {
        Some(QuizAccess::Private)
    } else {
        None
    }
}

/// The name of a reward type.
pub open spec fn reward_type_name(r: RewardType) -> Seq<char> {
    match r {
        RewardType::DistributedByRankToTopFive => "DistributedByRankToTopFive"@,
        RewardType::DistributedEqullyToTopFive => "DistributedEqullyToTopFive"@,
        RewardType::DistributedByLottery => "DistributedByLottery"@,
    }
}

/// The reward type that an already lowercased text names.
pub open spec fn reward_type_keyword(s: Seq<char>) -> Option<RewardType> {
    if s == "distributed_by_rank"@ {
        Some(RewardType::DistributedByRankToTopFive)
    } else if s == "distributed_equally"@ {
        Some(RewardType::DistributedEqullyToTopFive)
    } else if s == "distributed_by_lottery"@ {
        Some(RewardType::DistributedByLottery)
    } else {
        None
    }
}

/// The name of a difficulty level.
pub open spec fn difficulty_name(d: DifficultyLevel) -> Seq<char> {
    match d {
        DifficultyLevel::Easy => "Easy"@,
        DifficultyLevel::Medium => "Medium"@,
        DifficultyLevel::Hard => "Hard"@,
    }
}

/// The difficulty level that an already lowercased text names.
pub open spec fn difficulty_keyword(s: Seq<char>) -> Option<DifficultyLevel> {
    if s == "easy"@ {
        Some(DifficultyLevel::Easy)
    } else if s == "medium"@ {
        Some(DifficultyLevel::Medium)
    } else if s == "hard"@ {
        Some(DifficultyLevel::Hard)
    } else {
        None
    }
}

/// The letter of an answer slot.
pub open spec fn option_letter(o: OptionIndex) -> Seq<char> {
    match o {
        OptionIndex::A => "A"@,
        OptionIndex::B => "B"@,
        OptionIndex::C => "C"@,
        OptionIndex::D => "D"@,
    }
}

/// The answer slot that an already lowercased text names.
pub open spec fn option_keyword(s: Seq<char>) -> Option<OptionIndex> {
    if s == "a"@ {
        Some(OptionIndex::A)
    } else if s == "b"@ {
        Some(OptionIndex::B)
    } else if s == "c"@ {
        Some(OptionIndex::C)
    } else if s == "d"@ {
        Some(OptionIndex::D)
    } else {
        None
    }
}

impl QuizAccess {
    /// The access level's name.
    pub fn to_string(&self) -> (r: &'static str)
        ensures
            r@ == access_name(*self),
    {
        match self {
            QuizAccess::Public => "Public",
            QuizAccess::Private => "Private",
        }
    }

    /// The access level with exactly this name, if any.
    pub fn from_str(value: &str) -> (r: Option<QuizAccess>)
        ensures
            r == access_named(value@),
    {
        if str_eq(value, "Public") {
            Some(QuizAccess::Public)
        } else if str_eq(value, "Private") {
            Some(QuizAccess::Private)
        } else {
            None
        }
    }
}

impl RewardType {
    /// The reward type's name.
    pub fn to_string(&self) -> (r: &'static str)
        ensures
            r@ == reward_type_name(*self),
    {
        match self {
            RewardType::DistributedByRankToTopFive => "DistributedByRankToTopFive",
            RewardType::DistributedEqullyToTopFive => "DistributedEqullyToTopFive",
            RewardType::DistributedByLottery => "DistributedByLottery",
        }
    }

    /// The reward type that a lowercased keyword names, if any.
    pub fn from_lowercase(lowered: &str) -> (r: Option<RewardType>)
        ensures
            r == reward_type_keyword(lowered@),
    {
        if str_eq(lowered, "distributed_by_rank") {
            Some(RewardType::DistributedByRankToTopFive)
        } else if str_eq(lowered, "distributed_equally") {
            Some(RewardType::DistributedEqullyToTopFive)
        } else if str_eq(lowered, "distributed_by_lottery") {
            Some(RewardType::DistributedByLottery)
        } else {
            None
        }
    }

    /// The reward type that a keyword names, in any letter case.
    pub fn from_str(value: &str) -> (r: Option<RewardType>)
        ensures
            r == reward_type_keyword(lowercase_of(value@)),
            is_ascii_chars(value@) ==> r == reward_type_keyword(ascii_lowercase(value@)),
    {
        let lowered = to_lowercase(value);
        RewardType::from_lowercase(lowered.as_str())
    }
}

impl DifficultyLevel {
    /// The difficulty level's name.
    pub fn to_string(&self) -> (r: &'static str)
        ensures
            r@ == difficulty_name(*self),
    {
        match self {
            DifficultyLevel::Easy => "Easy",
            DifficultyLevel::Medium => "Medium",
            DifficultyLevel::Hard => "Hard",
        }
    }

    /// The difficulty level that a lowercased keyword names, if any.
    pub fn from_lowercase(lowered: &str) -> (r: Option<DifficultyLevel>)
        ensures
            r == difficulty_keyword(lowered@),
    {
        if str_eq(lowered, "easy") {
            Some(DifficultyLevel::Easy)
        } else if str_eq(lowered, "medium") {
            Some(DifficultyLevel::Medium)
        } else if str_eq(lowered, "hard") {
            Some(DifficultyLevel::Hard)
        } else {
            None
        }
    }

    /// The difficulty level that a keyword names, in any letter case.
    pub fn from_str(value: &str) -> (r: Option<DifficultyLevel>)
        ensures
            r == difficulty_keyword(lowercase_of(value@)),
            is_ascii_chars(value@) ==> r == difficulty_keyword(ascii_lowercase(value@)),
    {
        let lowered = to_lowercase(value);
        DifficultyLevel::from_lowercase(lowered.as_str())
    }
}

impl OptionIndex {
    /// The slot's letter.
    pub fn to_string(&self) -> (r: &'static str)
        ensures
            r@ == option_letter(*self),
    {
        match self {
            OptionIndex::A => "A",
            OptionIndex::B => "B",
            OptionIndex::C => "C",
            OptionIndex::D => "D",
        }
    }

    /// The slot that a lowercased letter names, if any.
    pub fn from_lowercase(lowered: &str) -> (r: Option<OptionIndex>)
        ensures
            r == option_keyword(lowered@),
    {
        if str_eq(lowered, "a") {
            Some(OptionIndex::A)
        } else if str_eq(lowered, "b") {
            Some(OptionIndex::B)
        } else if str_eq(lowered, "c") {
            Some(OptionIndex::C)
        } else if str_eq(lowered, "d") {
            Some(OptionIndex::D)
        } else {
            None
        }
    }

    /// The slot that a letter names, in either case.
    pub fn from_str(value: &str) -> (r: Option<OptionIndex>)
        ensures
            r == option_keyword(lowercase_of(value@)),
            is_ascii_chars(value@) ==> r == option_keyword(ascii_lowercase(value@)),
    {
        let lowered = to_lowercase(value);
        OptionIndex::from_lowercase(lowered.as_str())
    }
}

// ---------------------------------------------------------------- laws

/// While a quiz is open it has time left, never more than its whole span.
pub proof fn lemma_open_quiz_has_time_left(start_time: i64, end_time: i64, now: i64)
    requires
        start_time <= now && now <= end_time,
    ensures
        remaining_at(end_time, now) matches Some(left) && 0 <= left <= end_time - start_time,
{
}

/// A quiz is due for grading exactly when it has ended and has not been
/// graded, whatever its status: a quiz that users joined (ongoing) is due once
/// it ends, as is one that nobody joined (pending).
pub proof fn lemma_due_exactly_when_ended_and_ungraded(q: QuizView, now: i64, status: Status)
    ensures
        due_for_submission(q, now) <==> (q.end_time <= now && !q.submited),
        due_for_submission(QuizView { status, ..q }, now) == due_for_submission(q, now),
{
}

/// A quiz marked as graded is never due for grading again, whatever the time.
pub proof fn lemma_graded_quiz_not_due(q: QuizView, now: i64)
    ensures
        !due_for_submission(QuizView { submited: true, status: Status::Completed, ..q }, now),
{
}

/// Every access level is read back from its own name.
pub proof fn lemma_access_name_read_back(a: QuizAccess)
    ensures
        access_named(access_name(a)) == Some(a),
{
    reveal_strlit("Public");
    reveal_strlit("Private");
    assert("Public"@.len() != "Private"@.len());
}

/// Every difficulty level's name is ASCII, and read back, in any letter case,
/// it gives the level again.
pub proof fn lemma_difficulty_name_read_back(d: DifficultyLevel)
    ensures
        is_ascii_chars(difficulty_name(d)),
        difficulty_keyword(ascii_lowercase(difficulty_name(d))) == Some(d),
{
    reveal_strlit("Easy");
    reveal_strlit("Medium");
    reveal_strlit("Hard");
    reveal_strlit("easy");
    reveal_strlit("medium");
    reveal_strlit("hard");
    assert(ascii_lowercase("Easy"@) =~= "easy"@);
    assert(ascii_lowercase("Medium"@) =~= "medium"@);
    assert(ascii_lowercase("Hard"@) =~= "hard"@);
    assert("easy"@[0] != "medium"@[0] && "easy"@[0] != "hard"@[0] && "medium"@[0] != "hard"@[0]);
}

/// Every answer slot's letter is ASCII, and read back, in either case, it gives
/// the slot again.
pub proof fn lemma_option_letter_read_back(o: OptionIndex)
    ensures
        is_ascii_chars(option_letter(o)),
        option_keyword(ascii_lowercase(option_letter(o))) == Some(o),
{
    reveal_strlit("A");
    reveal_strlit("B");
    reveal_strlit("C");
    reveal_strlit("D");
    reveal_strlit("a");
    reveal_strlit("b");
    reveal_strlit("c");
    reveal_strlit("d");
    assert(ascii_lowercase("A"@) =~= "a"@);
    assert(ascii_lowercase("B"@) =~= "b"@);
    assert(ascii_lowercase("C"@) =~= "c"@);
    assert(ascii_lowercase("D"@) =~= "d"@);
    assert("a"@[0] != "b"@[0] && "a"@[0] != "c"@[0] && "a"@[0] != "d"@[0]);
    assert("b"@[0] != "c"@[0] && "b"@[0] != "d"@[0] && "c"@[0] != "d"@[0]);
}

/// A reward type's name is ASCII but is none of the keywords that `from_str`
/// accepts, in any letter case: the names that `to_string` writes are not read back.
pub proof fn lemma_reward_type_name_not_a_keyword(r: RewardType)
    ensures
        is_ascii_chars(reward_type_name(r)),
        reward_type_keyword(ascii_lowercase(reward_type_name(r))) is None,
{
    reveal_strlit("DistributedByRankToTopFive");
    reveal_strlit("DistributedEqullyToTopFive");
    reveal_strlit("DistributedByLottery");
    reveal_strlit("distributed_by_rank");
    reveal_strlit("distributed_equally");
    reveal_strlit("distributed_by_lottery");
    let n = reward_type_name(r);
    let l = ascii_lowercase(n);
    // Every keyword holds an underscore at index 11, which no lowercased name does.
    assert(l[11] != '_');
    assert(l != "distributed_by_rank"@ && l != "distributed_equally"@
        && l != "distributed_by_lottery"@) by {
        assert("distributed_by_rank"@[11] == '_');
        assert("distributed_equally"@[11] == '_');
        assert("distributed_by_lottery"@[11] == '_');
    }
}

} // verus!
