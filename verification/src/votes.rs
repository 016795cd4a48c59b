use vstd::prelude::*;

verus! {

/// One entry of a review's list of up- or down-voters, as the stored JSON array holds it:
/// a number that reads as an `i64`, or any other JSON value, kept as its JSON text.
#[derive(Debug, Clone, PartialEq, Eq)]
pub enum VoterEntry {
    Id(i64),
    Other(String),
}

/// Whether an entry counts as a vote of `user`: a number counts when its low 32 bits, read
/// as an `i32`, equal the user's id; any other value counts as `-1`.
pub open spec fn entry_matches(e: VoterEntry, user: i32) -> bool {
    match e {
        VoterEntry::Id(v) => (v as i32) == user,
        VoterEntry::Other(_) => user == -1,
    }
}

/// How many entries of `s` count as votes of `user`.
pub open spec fn match_count(s: Seq<VoterEntry>, user: i32) -> nat
    decreases s.len(),
{
    if s.len() == 0 {
        0
    } else {
        match_count(s.drop_last(), user) + (if entry_matches(s.last(), user) { 1nat } else { 0nat })
    }
}

/// The index of the first entry of `s` that counts as a vote of `user`.
pub open spec fn first_match(s: Seq<VoterEntry>, user: i32) -> Option<int>
    decreases s.len(),
{
    if s.len() == 0 {
        None
    } else {
        match first_match(s.drop_last(), user) {
            Some(i) => Some(i),
            None => if entry_matches(s.last(), user) {
                Some(s.len() - 1)
            } else {
                None
            },
        }
    }
}

/// `s` after `Vec::swap_remove(i)`: the last entry takes the place of entry `i`.
pub open spec fn swap_removed(s: Seq<VoterEntry>, i: int) -> Seq<VoterEntry> {
    s.update(i, s.last()).drop_last()
}

/// The two voter lists after `user` votes up (`upvote`) or down.
///
/// A vote of a kind the user has not cast yet is appended to that list, and the user's
/// first vote of the other kind, if any, is taken away; a vote of a kind the user has
/// already cast withdraws the first such vote.
pub open spec fn voted(
    up: Seq<VoterEntry>,
    down: Seq<VoterEntry>,
    user: i32,
    upvote: bool,
) -> (Seq<VoterEntry>, Seq<VoterEntry>) {
    if upvote {
        match first_match(up, user) {
            None => (
                up.push(VoterEntry::Id(user as i64)),
                match first_match(down, user) {
                    Some(j) => swap_removed(down, j),
                    None => down,
                },
            ),
            Some(i) => (swap_removed(up, i), down),
        }
    } else {
        match first_match(down, user) {
            None => (
                match first_match(up, user) {
                    Some(j) => swap_removed(up, j),
                    None => up,
                },
                down.push(VoterEntry::Id(user as i64)),
            ),
            Some(i) => (up, swap_removed(down, i)),
        }
    }
}

/// The up- and down-voters of a review.
#[derive(Debug, Clone, PartialEq, Eq)]
pub struct ReviewVotes {
    pub upvoters: Vec<VoterEntry>,
    pub downvoters: Vec<VoterEntry>,
}

impl View for ReviewVotes {
    type V = (Seq<VoterEntry>, Seq<VoterEntry>);

    open spec fn view(&self) -> (Seq<VoterEntry>, Seq<VoterEntry>) {
        (self.upvoters@, self.downvoters@)
    }
}

/// A user's votes on one review are in order: at most one of each kind, and not both kinds.
pub open spec fn votes_well_formed(up: Seq<VoterEntry>, down: Seq<VoterEntry>, user: i32) -> bool {
    &&& match_count(up, user) <= 1
    &&& match_count(down, user) <= 1
    &&& !(match_count(up, user) > 0 && match_count(down, user) > 0)
}

/// No entry counts as the user's vote exactly when there is no first such entry.
pub proof fn lemma_first_match_none(s: Seq<VoterEntry>, user: i32)
    ensures
        first_match(s, user) is None <==> match_count(s, user) == 0,
        first_match(s, user) is None <==> (forall|j: int|
            0 <= j < s.len() ==> !entry_matches(#[trigger] s[j], user)),
    decreases s.len(),
{
    if s.len() > 0 {
        let t = s.drop_last();
        lemma_first_match_none(t, user);
        if first_match(s, user) is None {
            assert forall|j: int| 0 <= j < s.len() implies !entry_matches(#[trigger] s[j], user) by {
                if j < s.len() - 1 {
                    assert(s[j] == t[j]);
                }
            }
        } else {
            if first_match(t, user) is Some {
                let j = choose|j: int| 0 <= j < t.len() && entry_matches(#[trigger] t[j], user);
                assert(s[j] == t[j]);
            }
        }
    }
}

/// The first entry that counts as the user's vote is one, and none before it is.
pub proof fn lemma_first_match_some(s: Seq<VoterEntry>, user: i32)
    requires
        first_match(s, user) is Some,
    ensures
        0 <= first_match(s, user)->0 < s.len(),
        entry_matches(s[first_match(s, user)->0], user),
        forall|j: int|
            0 <= j < first_match(s, user)->0 ==> !entry_matches(#[trigger] s[j], user),
    decreases s.len(),
{
    let t = s.drop_last();
    if first_match(t, user) is Some {
        lemma_first_match_some(t, user);
        let i = first_match(t, user)->0;
        assert(s[i] == t[i]);
        assert forall|j: int| 0 <= j < i implies !entry_matches(#[trigger] s[j], user) by {
            assert(s[j] == t[j]);
        }
    } else {
        lemma_first_match_none(t, user);
        assert forall|j: int| 0 <= j < s.len() - 1 implies !entry_matches(#[trigger] s[j], user) by {
            assert(s[j] == t[j]);
        }
    }
}

proof fn lemma_first_match_at(s: Seq<VoterEntry>, user: i32, i: int)
    requires
        0 <= i < s.len(),
        entry_matches(s[i], user),
        forall|j: int| 0 <= j < i ==> !entry_matches(#[trigger] s[j], user),
    ensures
        first_match(s, user) == Some(i),
{
    assert(first_match(s, user) is Some) by {
        lemma_first_match_none(s, user);
    }
    lemma_first_match_some(s, user);
    let k = first_match(s, user)->0;
    if k < i {
        assert(!entry_matches(s[k], user));
    }
    if k > i {
        assert(!entry_matches(s[i], user));
    }
}

proof fn lemma_count_push(s: Seq<VoterEntry>, e: VoterEntry, user: i32)
    ensures
        match_count(s.push(e), user) == match_count(s, user) + (if entry_matches(e, user) { 1nat } else { 0nat }),
{
    assert(s.push(e).drop_last() =~= s);
}

proof fn lemma_count_update(s: Seq<VoterEntry>, i: int, e: VoterEntry, user: i32)
    requires
        0 <= i < s.len(),
    ensures
        match_count(s.update(i, e), user) + (if entry_matches(s[i], user) { 1int } else { 0int })
            == match_count(s, user) + (if entry_matches(e, user) { 1int } else { 0int }),
    decreases s.len(),
{
    let u = s.update(i, e);
    if i == s.len() - 1 {
        assert(u.drop_last() =~= s.drop_last());
    } else {
        assert(u.drop_last() =~= s.drop_last().update(i, e));
        lemma_count_update(s.drop_last(), i, e, user);
    }
}

proof fn lemma_count_swap_removed(s: Seq<VoterEntry>, i: int, user: i32)
    requires
        0 <= i < s.len(),
    ensures
        match_count(swap_removed(s, i), user) + (if entry_matches(s[i], user) { 1int } else { 0int })
            == match_count(s, user),
{
    let u = s.update(i, s.last());
    lemma_count_update(s, i, s.last(), user);
    assert(u.last() == s.last());
}

proof fn lemma_own_entry_matches(user: i32, other: i32)
    ensures
        entry_matches(VoterEntry::Id(user as i64), other) <==> user == other,
{
}

proof fn lemma_match_is_personal(e: VoterEntry, user: i32, other: i32)
    requires
        entry_matches(e, user),
        user != other,
    ensures
        !entry_matches(e, other),
{
}

/// Which entries count as a user's vote: the user's own id does; a number in the `i32`
/// range counts for exactly that id; any other JSON value counts for `-1` only.
pub proof fn lemma_entry_matching(v: i64, text: String, user: i32)
    ensures
        entry_matches(VoterEntry::Id(user as i64), user),
        i32::MIN <= v <= i32::MAX ==> (entry_matches(VoterEntry::Id(v), user) <==> v == user),
        entry_matches(VoterEntry::Other(text), user) <==> user == -1,
{
}

/// How a vote of `user` changes the number of entries that count as votes of `other`.
pub(crate) proof fn lemma_vote_counts(up: Seq<VoterEntry>, down: Seq<VoterEntry>, user: i32, upvote: bool, other: i32)
    ensures
        ({
            let (up2, down2) = voted(up, down, user, upvote);
            let own = if upvote { up } else { down };
            let opp = if upvote { down } else { up };
            let own2 = if upvote { up2 } else { down2 };
            let opp2 = if upvote { down2 } else { up2 };
            &&& other != user ==> match_count(own2, other) == match_count(own, other)
            &&& other != user ==> match_count(opp2, other) == match_count(opp, other)
            &&& match_count(own, user) == 0 ==> match_count(own2, user) == 1
            &&& match_count(own, user) == 0 ==> match_count(opp2, user) + (if match_count(opp, user) > 0 { 1int } else { 0int }) == match_count(opp, user)
            &&& match_count(own, user) > 0 ==> match_count(own2, user) + 1 == match_count(own, user)
            &&& match_count(own, user) > 0 ==> opp2 == opp
        }),
{
    let own = if upvote { up } else { down };
    let opp = if upvote { down } else { up };
    lemma_first_match_none(own, user);
    lemma_first_match_none(opp, user);
    lemma_own_entry_matches(user, other);
    lemma_own_entry_matches(user, user);
    match first_match(own, user) {
        None => {
            lemma_count_push(own, VoterEntry::Id(user as i64), user);
            lemma_count_push(own, VoterEntry::Id(user as i64), other);
            match first_match(opp, user) {
                Some(j) => {
                    lemma_first_match_some(opp, user);
                    lemma_count_swap_removed(opp, j, user);
                    lemma_count_swap_removed(opp, j, other);
                    if other != user {
                        lemma_match_is_personal(opp[j], user, other);
                    }
                },
                None => {},
            }
        },
        Some(i) => {
            lemma_first_match_some(own, user);
            lemma_count_swap_removed(own, i, user);
            lemma_count_swap_removed(own, i, other);
            if other != user {
                lemma_match_is_personal(own[i], user, other);
            }
        },
    }
}

/// A vote toggles the voter's vote of that kind and leaves no vote of the other kind: when
/// the user's votes are in order, voting up (down) again withdraws the up (down) vote, and
/// voting up (down) otherwise leaves exactly one up (down) vote and no down (up) vote.
pub proof fn lemma_vote_toggles(up: Seq<VoterEntry>, down: Seq<VoterEntry>, user: i32, upvote: bool)
    requires
        votes_well_formed(up, down, user),
    ensures
        ({
            let (up2, down2) = voted(up, down, user, upvote);
            let own = if upvote { up } else { down };
            let own2 = if upvote { up2 } else { down2 };
            let opp2 = if upvote { down2 } else { up2 };
            &&& match_count(own2, user) == (if match_count(own, user) == 1 { 0nat } else { 1nat })
            &&& match_count(opp2, user) == 0
            &&& votes_well_formed(up2, down2, user)
        }),
{
    lemma_vote_counts(up, down, user, upvote, user);
}

/// A vote of one user never changes how many votes of any other user either list holds.
pub proof fn lemma_vote_leaves_others(up: Seq<VoterEntry>, down: Seq<VoterEntry>, user: i32, upvote: bool, other: i32)
    requires
        other != user,
    ensures
        match_count(voted(up, down, user, upvote).0, other) == match_count(up, other),
        match_count(voted(up, down, user, upvote).1, other) == match_count(down, other),
{
    lemma_vote_counts(up, down, user, upvote, other);
}

/// Votes stay in order: if every user's votes are in order before a vote, they are after it.
pub proof fn lemma_vote_keeps_well_formed(up: Seq<VoterEntry>, down: Seq<VoterEntry>, user: i32, upvote: bool)
    requires
        forall|w: i32| votes_well_formed(up, down, w),
    ensures
        forall|w: i32| #[trigger] votes_well_formed(voted(up, down, user, upvote).0, voted(up, down, user, upvote).1, w),
{
    assert forall|w: i32| #[trigger] votes_well_formed(voted(up, down, user, upvote).0, voted(up, down, user, upvote).1, w) by {
        assert(votes_well_formed(up, down, w));
        if w == user {
            lemma_vote_toggles(up, down, user, upvote);
        } else {
            lemma_vote_leaves_others(up, down, user, upvote, w);
        }
    }
}

/// Casting the same vote twice, when the user had not voted that way, gives back that list
/// exactly as it was, and leaves the user with no vote of the other kind.
pub proof fn lemma_repeat_vote_restores(up: Seq<VoterEntry>, down: Seq<VoterEntry>, user: i32, upvote: bool)
    requires
        votes_well_formed(up, down, user),
        match_count(if upvote { up } else { down }, user) == 0,
    ensures
        ({
            let once = voted(up, down, user, upvote);
            let twice = voted(once.0, once.1, user, upvote);
            &&& (if upvote { twice.0 } else { twice.1 }) == (if upvote { up } else { down })
            &&& match_count(if upvote { twice.1 } else { twice.0 }, user) == 0
        }),
{
    let own = if upvote { up } else { down };
    let once = voted(up, down, user, upvote);
    let own1 = if upvote { once.0 } else { once.1 };
    lemma_first_match_none(own, user);
    lemma_own_entry_matches(user, user);
    assert(own1 == own.push(VoterEntry::Id(user as i64)));
    assert forall|j: int| 0 <= j < own1.len() - 1 implies !entry_matches(#[trigger] own1[j], user) by {
        assert(own1[j] == own[j]);
    }
    lemma_first_match_at(own1, user, own1.len() - 1);
    assert(swap_removed(own1, own1.len() - 1) =~= own);
    lemma_vote_toggles(up, down, user, upvote);
    lemma_vote_toggles(once.0, once.1, user, upvote);
}

/// Whether `entry` counts as a vote of `user`.
fn entry_matches_exec(entry: &VoterEntry, user: i32) -> (b: bool)
    ensures
        b == entry_matches(*entry, user),
{
    match entry {
        VoterEntry::Id(v) => (*v as i32) == user,
        VoterEntry::Other(_) => user == -1,
    }
}

/// The index of the first entry of `voters` that counts as a vote of `user`.
pub fn find_vote(voters: &Vec<VoterEntry>, user: i32) -> (r: Option<usize>)
    ensures
        match r {
            Some(i) => first_match(voters@, user) == Some(i as int),
            None => first_match(voters@, user) is None,
        },
{
    let mut i: usize = 0;
    while i < voters.len()
        invariant
            i <= voters.len(),
            forall|j: int| 0 <= j < i ==> !entry_matches(#[trigger] voters@[j], user),
        decreases voters.len() - i,
    {
        if entry_matches_exec(&voters[i], user) {
            proof {
                lemma_first_match_at(voters@, user, i as int);
            }
            return Some(i);
        }
        i = i + 1;
    }
    proof {
        lemma_first_match_none(voters@, user);
    }
    None
}

impl ReviewVotes {
    /// Records a vote of `user`: up when `upvote`, down otherwise.
    pub fn cast_vote(&mut self, user: i32, upvote: bool)
        ensures
            final(self)@ == voted(old(self)@.0, old(self)@.1, user, upvote),
    {
        let up_pos = find_vote(&self.upvoters, user);
        let down_pos = find_vote(&self.downvoters, user);
        if upvote {
            match up_pos {
                None => {
                    self.upvoters.push(VoterEntry::Id(user as i64));
                    if let Some(p) = down_pos {
                        proof {
                            lemma_first_match_some(self.downvoters@, user);
                        }
                        self.downvoters.swap_remove(p);
                    }
                },
                Some(p) => {
                    proof {
                        lemma_first_match_some(self.upvoters@, user);
                    }
                    self.upvoters.swap_remove(p);
                },
            }
        } else {
            match down_pos {
                None => {
                    self.downvoters.push(VoterEntry::Id(user as i64));
                    if let Some(p) = up_pos {
                        proof {
                            lemma_first_match_some(self.upvoters@, user);
                        }
                        self.upvoters.swap_remove(p);
                    }
                },
                Some(p) => {
                    proof {
                        lemma_first_match_some(self.downvoters@, user);
                    }
                    self.downvoters.swap_remove(p);
                },
            }
        }
    }
}

} // verus!
