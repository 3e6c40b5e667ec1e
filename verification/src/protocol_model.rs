//! Protocols: the projects that run quizzes, their staff and their leaderboard.

use vstd::prelude::*;
use crate::clock::{names_a_calendar_time, new_uuid, now_formatted};
use crate::text::str_eq;
use crate::search::{first_index, lemma_first_index, lemma_first_index_is};

verus! {

/// A user on a protocol's leaderboard, with the points they hold there.
#[derive(Debug)]
pub struct ProtocolUsers {
    pub user_uuid: String,
    pub leaderboard_point: i128,
}

pub struct ProtocolUsersView {
    pub user_uuid: Seq<char>,
    pub leaderboard_point: i128,
}

impl View for ProtocolUsers {
    type V = ProtocolUsersView;

    open spec fn view(&self) -> ProtocolUsersView {
        ProtocolUsersView { user_uuid: self.user_uuid@, leaderboard_point: self.leaderboard_point }
    }
}

impl Clone for ProtocolUsers {
    fn clone(&self) -> (r: Self)
        ensures
            r@ == self@,
    {
        ProtocolUsers { user_uuid: self.user_uuid.clone(), leaderboard_point: self.leaderboard_point }
    }
}

/// A registered protocol. What it has spent on quiz rewards is kept beside it
/// by the server, as a floating-point amount.
#[derive(Debug)]
pub struct Protocol {
    pub protocol_uuid: String,
    pub name: String,
    pub staffs: Vec<String>,
    pub protocol_users: Vec<ProtocolUsers>,
    pub created_at: String,
    pub created_by: String,
    pub quizes: Vec<String>,
    pub contract_address: String,
}

pub struct ProtocolView {
    pub protocol_uuid: Seq<char>,
    pub name: Seq<char>,
    pub staffs: Seq<Seq<char>>,
    pub protocol_users: Seq<ProtocolUsersView>,
    pub created_at: Seq<char>,
    pub created_by: Seq<char>,
    pub quizes: Seq<Seq<char>>,
    pub contract_address: Seq<char>,
}

/// The texts of a list of strings.
pub open spec fn texts(v: Seq<String>) -> Seq<Seq<char>> {
    v.map_values(|s: String| s@)
}

/// The views of a list of leaderboard entries.
pub open spec fn member_views(v: Seq<ProtocolUsers>) -> Seq<ProtocolUsersView> {
    v.map_values(|m: ProtocolUsers| m@)
}

impl View for Protocol {
    type V = ProtocolView;

    open spec fn view(&self) -> ProtocolView {
        ProtocolView {
            protocol_uuid: self.protocol_uuid@,
            name: self.name@,
            staffs: texts(self.staffs@),
            protocol_users: member_views(self.protocol_users@),
            created_at: self.created_at@,
            created_by: self.created_by@,
            quizes: texts(self.quizes@),
            contract_address: self.contract_address@,
        }
    }
}

/// Whether a leaderboard entry belongs to `user_uuid`.
pub open spec fn is_member(user_uuid: Seq<char>) -> spec_fn(ProtocolUsersView) -> bool {
    |m: ProtocolUsersView| m.user_uuid == user_uuid
}

/// The position of the first leaderboard entry for `user_uuid`, if any.
pub open spec fn first_member_index(members: Seq<ProtocolUsersView>, user_uuid: Seq<char>) -> Option<int> {
    first_index(members, is_member(user_uuid))
}

/// The points of the first leaderboard entry for `user_uuid`, if any.
pub open spec fn points_of(members: Seq<ProtocolUsersView>, user_uuid: Seq<char>) -> Option<i128> {
    match first_member_index(members, user_uuid) {
        Some(i) => Some(members[i].leaderboard_point),
        None => None,
    }
}

impl Protocol {
    /// A new protocol with a fresh identifier, created at `created_at` (a formatted time) by `creator_uuid`,
    /// with no staff, leaderboard or quizzes, and no contract address yet (a single space).
    pub fn new_at(name: String, creator_uuid: String, created_at: String) -> (p: Protocol)
        ensures
            p@.protocol_uuid.len() == 36,
            p@.name == name@,
            p@.created_by == creator_uuid@,
            p@.staffs == Seq::<Seq<char>>::empty(),
            p@.protocol_users == Seq::<ProtocolUsersView>::empty(),
            p@.quizes == Seq::<Seq<char>>::empty(),
            p@.contract_address == " "@,
            p@.created_at == created_at@,
    {
        let staffs: Vec<String> = Vec::new();
        let protocol_users: Vec<ProtocolUsers> = Vec::new();
        let quizes: Vec<String> = Vec::new();
        assert(texts(staffs@) =~= Seq::<Seq<char>>::empty());
        assert(member_views(protocol_users@) =~= Seq::<ProtocolUsersView>::empty());
        assert(texts(quizes@) =~= Seq::<Seq<char>>::empty());
        Protocol {
            protocol_uuid: new_uuid(),
            name,
            staffs,
            protocol_users,
            created_at,
            created_by: creator_uuid,
            quizes,
            contract_address: String::from_str(" "),
        }
    }

    /// A new protocol with a fresh identifier, created now by `creator_uuid`,
    /// with no staff, leaderboard or quizzes, and no contract address yet (a single space).
    pub fn new(name: String, creator_uuid: String) -> (p: Protocol)
        ensures
            p@.protocol_uuid.len() == 36,
            p@.name == name@,
            p@.created_by == creator_uuid@,
            p@.staffs == Seq::<Seq<char>>::empty(),
            p@.protocol_users == Seq::<ProtocolUsersView>::empty(),
            p@.quizes == Seq::<Seq<char>>::empty(),
            p@.contract_address == " "@,
            names_a_calendar_time(p@.created_at),
    {
        let created_at = now_formatted();
        Protocol::new_at(name, creator_uuid, created_at)
    }

    /// Appends a staff member.
    pub fn add_staff(&mut self, staff_uuid: String) -> (r: bool)
        ensures
            r,
            final(self)@ == (ProtocolView { staffs: old(self)@.staffs.push(staff_uuid@), ..old(self)@ }),
    {
        let ghost old_staffs = self.staffs@;
        self.staffs.push(staff_uuid);
        assert(texts(self.staffs@) =~= texts(old_staffs).push(staff_uuid@));
        true
    }

    /// Appends a leaderboard entry for `user_uuid` with no points.
    pub fn add_protocol_user(&mut self, user_uuid: String) -> (r: bool)
        ensures
            r,
            final(self)@ == (ProtocolView {
                protocol_users: old(self)@.protocol_users.push(
                    ProtocolUsersView { user_uuid: user_uuid@, leaderboard_point: 0 },
                ),
                ..old(self)@
            }),
    {
        let ghost old_users = self.protocol_users@;
        let m = ProtocolUsers { user_uuid, leaderboard_point: 0 };
        let ghost mv = m@;
        self.protocol_users.push(m);
        assert(member_views(self.protocol_users@) =~= member_views(old_users).push(mv));
        true
    }

    /// Appends a quiz.
    pub fn add_quiz(&mut self, quiz_uuid: String) -> (r: bool)
        ensures
            r,
            final(self)@ == (ProtocolView { quizes: old(self)@.quizes.push(quiz_uuid@), ..old(self)@ }),
    {
        let ghost old_quizes = self.quizes@;
        self.quizes.push(quiz_uuid);
        assert(texts(self.quizes@) =~= texts(old_quizes).push(quiz_uuid@));
        true
    }

    /// Sets the points of the first leaderboard entry for `user_uuid`; answers
    /// whether there was one. Nothing else changes.
    pub fn update_protocol_user_leaderboard_point(
        &mut self,
        user_uuid: String,
        leaderboard_point: i128,
    ) -> (r: bool)
        ensures
            r == (first_member_index(old(self)@.protocol_users, user_uuid@) is Some),
            match first_member_index(old(self)@.protocol_users, user_uuid@) {
                Some(i) => final(self)@ == (ProtocolView {
                    protocol_users: old(self)@.protocol_users.update(
                        i,
                        ProtocolUsersView { user_uuid: user_uuid@, leaderboard_point },
                    ),
                    ..old(self)@
                }),
                None => final(self)@ == old(self)@,
            },
    {
        let n = self.protocol_users.len();
        let mut i: usize = 0;
        while i < n
            invariant
                n == self.protocol_users@.len(),
                self@ == old(self)@,
                i <= n,
                forall|j: int| 0 <= j < i ==> !is_member(user_uuid@)(#[trigger] self@.protocol_users[j]),
            decreases n - i,
        {
            if str_eq(self.protocol_users[i].user_uuid.as_str(), user_uuid.as_str()) {
                proof {
                    assert(self@.protocol_users[i as int] == self.protocol_users@[i as int]@);
                    lemma_first_index_is(self@.protocol_users, is_member(user_uuid@), i as int);
                }
                let ghost old_users = self.protocol_users@;
                self.protocol_users[i].leaderboard_point = leaderboard_point;
                assert(member_views(self.protocol_users@) =~= member_views(old_users).update(
                    i as int,
                    ProtocolUsersView { user_uuid: user_uuid@, leaderboard_point },
                ));
                return true;
            }
            proof {
                assert(self@.protocol_users[i as int] == self.protocol_users@[i as int]@);
            }
            i = i + 1;
        }
        proof {
            lemma_first_index(self@.protocol_users, is_member(user_uuid@));
            if first_member_index(self@.protocol_users, user_uuid@) is Some {
                let k = first_member_index(self@.protocol_users, user_uuid@)->0;
                assert(!is_member(user_uuid@)(self@.protocol_users[k]));
            }
        }
        false
    }

    /// The points of the first leaderboard entry for `user_uuid`, if any.
    pub fn leaderboard_point(&self, user_uuid: &str) -> (r: Option<i128>)
        ensures
            r == points_of(self@.protocol_users, user_uuid@),
    {
        let n = self.protocol_users.len();
        let mut i: usize = 0;
        while i < n
            invariant
                n == self.protocol_users@.len(),
                i <= n,
                forall|j: int| 0 <= j < i ==> !is_member(user_uuid@)(#[trigger] self@.protocol_users[j]),
            decreases n - i,
        {
            assert(self@.protocol_users[i as int] == self.protocol_users@[i as int]@);
            if str_eq(self.protocol_users[i].user_uuid.as_str(), user_uuid) {
                proof {
                    lemma_first_index_is(self@.protocol_users, is_member(user_uuid@), i as int);
                }
                return Some(self.protocol_users[i].leaderboard_point);
            }
            i = i + 1;
        }
        proof {
            lemma_first_index(self@.protocol_users, is_member(user_uuid@));
            if first_member_index(self@.protocol_users, user_uuid@) is Some {
                let k = first_member_index(self@.protocol_users, user_uuid@)->0;
                assert(!is_member(user_uuid@)(self@.protocol_users[k]));
            }
        }
        None
    }

    /// Credits `user_uuid` with `points` on the leaderboard: its first entry
    /// gains them, or, when the user has no entry, a new entry holding them is
    /// appended.
    pub fn credit_leaderboard_points(&mut self, user_uuid: String, points: i128)
        requires
            points_of(old(self)@.protocol_users, user_uuid@) matches Some(p) ==> i128::MIN <= p
                + points <= i128::MAX,
        ensures
            match first_member_index(old(self)@.protocol_users, user_uuid@) {
                Some(i) => final(self)@ == (ProtocolView {
                    protocol_users: old(self)@.protocol_users.update(
                        i,
                        ProtocolUsersView {
                            user_uuid: user_uuid@,
                            leaderboard_point: (old(self)@.protocol_users[i].leaderboard_point
                                + points) as i128,
                        },
                    ),
                    ..old(self)@
                }),
                None => final(self)@ == (ProtocolView {
                    protocol_users: old(self)@.protocol_users.push(
                        ProtocolUsersView { user_uuid: user_uuid@, leaderboard_point: points },
                    ),
                    ..old(self)@
                }),
            },
            points_of(final(self)@.protocol_users, user_uuid@) == Some(
                (match points_of(old(self)@.protocol_users, user_uuid@) {
                    Some(p) => p + points,
                    None => points as int,
                }) as i128,
            ),
    {
        match self.leaderboard_point(user_uuid.as_str()) {
            Some(current) => {
                proof {
                    lemma_first_index(self@.protocol_users, is_member(user_uuid@));
                    lemma_points_read_back(self@.protocol_users, user_uuid@, (current + points) as i128);
                }
                self.update_protocol_user_leaderboard_point(user_uuid, current + points);
            },
            None => {
                let ghost before = self@.protocol_users;
                self.add_protocol_user(user_uuid.clone());
                proof {
                    lemma_new_member_has_no_points(before, user_uuid@);
                    lemma_first_index(self@.protocol_users, is_member(user_uuid@));
                    lemma_points_read_back(self@.protocol_users, user_uuid@, points);
                }
                let ghost middle = self@.protocol_users;
                self.update_protocol_user_leaderboard_point(user_uuid, points);
                proof {
                    assert(first_member_index(middle, user_uuid@) == Some(before.len() as int)) by {
                        lemma_first_index(before, is_member(user_uuid@));
                        assert forall|j: int| 0 <= j < before.len() implies !is_member(user_uuid@)(
                            #[trigger] middle[j],
                        ) by {
                            assert(middle[j] == before[j]);
                        }
                        lemma_first_index_is(middle, is_member(user_uuid@), before.len() as int);
                    }
                    assert(middle.update(before.len() as int, ProtocolUsersView { user_uuid: user_uuid@, leaderboard_point: points })
                        =~= before.push(ProtocolUsersView { user_uuid: user_uuid@, leaderboard_point: points }));
                }
            },
        }
    }

    /// Records the address of the protocol's deployed contract, when there is one.
    pub fn record_contract_address(&mut self, deployed: Option<String>)
        ensures
            match deployed {
                Some(a) => final(self)@ == (ProtocolView { contract_address: a@, ..old(self)@ }),
                None => final(self)@ == old(self)@,
            },
    {
        if let Some(address) = deployed {
            self.contract_address = address;
        }
    }
}

// ---------------------------------------------------------------- laws

/// A user just added to a protocol's leaderboard starts with no points, unless
/// an earlier entry for the same user was already there.
pub proof fn lemma_new_member_has_no_points(
    before: Seq<ProtocolUsersView>,
    user_uuid: Seq<char>,
)
    requires
        first_member_index(before, user_uuid) is None,
    ensures
        points_of(before.push(ProtocolUsersView { user_uuid, leaderboard_point: 0 }), user_uuid)
            == Some(0i128),
{
    let after = before.push(ProtocolUsersView { user_uuid, leaderboard_point: 0 });
    lemma_first_index(before, is_member(user_uuid));
    assert forall|j: int| 0 <= j < before.len() implies !is_member(user_uuid)(#[trigger] after[j]) by {
        assert(after[j] == before[j]);
    }
    lemma_first_index_is(after, is_member(user_uuid), before.len() as int);
}

/// Setting a user's points on the leaderboard, then reading them, gives the points set.
pub proof fn lemma_points_read_back(
    members: Seq<ProtocolUsersView>,
    user_uuid: Seq<char>,
    points: i128,
)
    requires
        first_member_index(members, user_uuid) is Some,
    ensures
        points_of(
            members.update(
                first_member_index(members, user_uuid)->0,
                ProtocolUsersView { user_uuid, leaderboard_point: points },
            ),
            user_uuid,
        ) == Some(points),
{
    let i = first_member_index(members, user_uuid)->0;
    let after = members.update(i, ProtocolUsersView { user_uuid, leaderboard_point: points });
    lemma_first_index(members, is_member(user_uuid));
    assert forall|j: int| 0 <= j < i implies !is_member(user_uuid)(#[trigger] after[j]) by {
        assert(after[j] == members[j]);
    }
    lemma_first_index_is(after, is_member(user_uuid), i);
}

} // verus!
