use curriculum_board::votes::{find_vote, ReviewVotes, VoterEntry};

fn ids(v: &[i64]) -> Vec<VoterEntry> {
    v.iter().map(|i| VoterEntry::Id(*i)).collect()
}

fn votes(up: &[i64], down: &[i64]) -> ReviewVotes {
    ReviewVotes { upvoters: ids(up), downvoters: ids(down) }
}

#[test]
fn first_upvote_is_appended() {
    let mut v = votes(&[1, 2], &[]);
    v.cast_vote(3, true);
    assert_eq!(v, votes(&[1, 2, 3], &[]));
}

#[test]
fn second_upvote_withdraws() {
    let mut v = votes(&[1, 2], &[]);
    v.cast_vote(3, true);
    v.cast_vote(3, true);
    assert_eq!(v, votes(&[1, 2], &[]));
}

#[test]
fn upvote_moves_a_downvote() {
    let mut v = votes(&[1], &[5, 3, 6]);
    v.cast_vote(3, true);
    // the last downvoter takes the place of the removed one
    assert_eq!(v, votes(&[1, 3], &[5, 6]));
}

#[test]
fn downvote_moves_an_upvote() {
    let mut v = votes(&[4, 8, 9], &[]);
    v.cast_vote(4, false);
    assert_eq!(v, votes(&[9, 8], &[4]));
}

#[test]
fn withdrawing_a_middle_vote_swaps_in_the_last() {
    let mut v = votes(&[4, 8, 9], &[1]);
    v.cast_vote(4, true);
    assert_eq!(v, votes(&[9, 8], &[1]));
}

#[test]
fn downvote_twice_withdraws() {
    let mut v = votes(&[], &[2]);
    v.cast_vote(7, false);
    v.cast_vote(7, false);
    assert_eq!(v, votes(&[], &[2]));
}

#[test]
fn other_users_are_untouched() {
    let mut v = votes(&[1, 2], &[3]);
    v.cast_vote(4, false);
    assert_eq!(v, votes(&[1, 2], &[3, 4]));
}

#[test]
fn ids_match_by_their_low_32_bits() {
    let wide = (1i64 << 32) + 5;
    let v = vec![VoterEntry::Id(wide)];
    assert_eq!(find_vote(&v, 5), Some(0));
    assert_eq!(find_vote(&v, 6), None);
}

#[test]
fn non_numbers_count_as_minus_one() {
    let v = vec![VoterEntry::Id(3), VoterEntry::Other("\"x\"".to_string())];
    assert_eq!(find_vote(&v, -1), Some(1));
    assert_eq!(find_vote(&v, 3), Some(0));
    let mut r = ReviewVotes { upvoters: v.clone(), downvoters: vec![] };
    r.cast_vote(-1, true);
    assert_eq!(r.upvoters, vec![VoterEntry::Id(3)]);
}

#[test]
fn first_match_is_found() {
    let v = ids(&[2, 7, 7]);
    assert_eq!(find_vote(&v, 7), Some(1));
    assert_eq!(find_vote(&ids(&[]), 7), None);
}
