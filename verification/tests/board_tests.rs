use curriculum_board::board::courses::{add_course_begin, add_course_step, get_course_begin, get_course_step, AddCourseState, CourseState};
use curriculum_board::board::groups::{
    get_course_group_begin, get_course_group_step, get_course_groups_begin, get_course_groups_step,
    CourseGroupState, CourseGroupsState,
};
use curriculum_board::board::hello_text;
use curriculum_board::board::reviews::{
    add_review_begin, add_review_step, get_reviews_begin, get_reviews_step, has_own_review,
    history_entry_text,
    modify_review_begin, modify_review_step, vote_for_review_begin, vote_for_review_step,
    AddReviewState, ModifyReviewState, OwnReviewsState, VoteState,
};
use curriculum_board::entity::course_review::Model;
use curriculum_board::exchange::{Action, Event, Reply, UserInfo};
use curriculum_board::votes::{ReviewVotes, VoterEntry};

const ALICE: UserInfo = UserInfo { id: 3, is_admin: false };
const ADMIN: UserInfo = UserInfo { id: 1, is_admin: true };

fn failed(s: &str) -> Event {
    Event::Failed(s.to_string())
}

fn respond(r: Reply) -> Action {
    Action::Respond(r)
}

#[test]
fn hello_greets() {
    assert_eq!(
        hello_text(),
        "Welcome to curriculum_board backend. Search for API documents on GitHub please."
    );
}

#[test]
fn course_groups_listed() {
    let (s, a) = get_course_groups_begin();
    assert_eq!(a, Action::ListGroups);
    assert_eq!(get_course_groups_step(s, Event::Completed), (CourseGroupsState::Finished, respond(Reply::Success)));
    assert_eq!(
        get_course_groups_step(s, failed("db down")),
        (CourseGroupsState::Finished, respond(Reply::InternalError("db down".to_string())))
    );
}

#[test]
fn course_group_bad_id() {
    let (s, a) = get_course_group_begin("abc");
    assert_eq!(a, Action::Authenticate);
    assert_eq!(s, CourseGroupState::Start { requested: None });
    let (s2, a2) = get_course_group_step(s, Event::Authenticated(ALICE));
    assert_eq!(s2, CourseGroupState::Finished);
    assert_eq!(a2, respond(Reply::BadRequest("Invalid id syntax.".to_string())));
}

#[test]
fn course_group_auth_first() {
    let (s, _) = get_course_group_begin("abc");
    assert_eq!(get_course_group_step(s, Event::AuthRejected), (CourseGroupState::Finished, respond(Reply::AuthFailure)));
}

#[test]
fn course_group_not_found() {
    let (s, _) = get_course_group_begin("-12");
    let (s, a) = get_course_group_step(s, Event::Authenticated(ALICE));
    assert_eq!(a, Action::FetchGroup { group_id: -12 });
    let (_, a) = get_course_group_step(s, Event::Absent);
    assert_eq!(a, respond(Reply::NotFound("Course group with id -12 is not found.".to_string())));
}

#[test]
fn course_group_loads_each_course() {
    let (s, _) = get_course_group_begin("7");
    let (s, _) = get_course_group_step(s, Event::Authenticated(ALICE));
    let (s, a) = get_course_group_step(s, Event::Counted(2));
    assert_eq!(a, Action::LoadGroupCourse { index: 0, user_id: 3 });
    let (s, a) = get_course_group_step(s, Event::Completed);
    assert_eq!(a, Action::LoadGroupCourse { index: 1, user_id: 3 });
    let (s, a) = get_course_group_step(s, Event::Completed);
    assert_eq!((s, a), (CourseGroupState::Finished, respond(Reply::Success)));
}

#[test]
fn course_group_course_fails() {
    let (s, _) = get_course_group_begin("7");
    let (s, _) = get_course_group_step(s, Event::Authenticated(ALICE));
    let (s, _) = get_course_group_step(s, Event::Counted(1));
    assert!(s.accepts(&Event::Completed));
    assert!(!s.accepts(&Event::Absent));
    let (_, a) = get_course_group_step(s, failed("boom"));
    assert_eq!(a, respond(Reply::InternalError("Unable to load course group with id 7. Error: boom".to_string())));
}

#[test]
fn course_group_without_courses() {
    let (s, _) = get_course_group_begin("7");
    let (s, _) = get_course_group_step(s, Event::Authenticated(ALICE));
    assert_eq!(get_course_group_step(s, Event::Counted(0)), (CourseGroupState::Finished, respond(Reply::Success)));
}

#[test]
fn add_course_needs_admin() {
    let (s, a) = add_course_begin("CS101".to_string());
    assert_eq!(a, Action::Authenticate);
    let (s2, a2) = add_course_step(s, Event::Authenticated(ALICE));
    assert_eq!(s2, AddCourseState::Finished);
    assert_eq!(a2, respond(Reply::Unauthorized("Only admin can add new course".to_string())));
}

#[test]
fn add_course_creates_group() {
    let (s, _) = add_course_begin("CS101".to_string());
    let (s, a) = add_course_step(s, Event::Authenticated(ADMIN));
    assert_eq!(a, Action::FindGroupByCode { code: "CS101".to_string() });
    let (s, a) = add_course_step(s, Event::Absent);
    assert_eq!(a, Action::CreateGroup { code: "CS101".to_string() });
    let (s, a) = add_course_step(s, Event::Found(11));
    assert_eq!(a, Action::InsertCourse);
    let (s, a) = add_course_step(s, Event::Found(21));
    assert_eq!(a, Action::LinkCourse { group_id: 11, course_id: 21 });
    assert!(s.accepts(&Event::Completed));
    assert_eq!(add_course_step(s, Event::Completed), (AddCourseState::Finished, respond(Reply::Success)));
}

#[test]
fn add_course_uses_existing_group() {
    let (s, _) = add_course_begin("MA2".to_string());
    let (s, _) = add_course_step(s, Event::Authenticated(ADMIN));
    let (s, a) = add_course_step(s, Event::Found(7));
    assert_eq!(a, Action::InsertCourse);
    let (_, a) = add_course_step(s, Event::Found(30));
    assert_eq!(a, Action::LinkCourse { group_id: 7, course_id: 30 });
}

#[test]
fn add_course_errors() {
    let (s, _) = add_course_begin("CS101".to_string());
    let (s, _) = add_course_step(s, Event::Authenticated(ADMIN));
    assert_eq!(add_course_step(s.clone(), failed("e0")).1, respond(Reply::InternalError("e0".to_string())));
    let (g, _) = add_course_step(s.clone(), Event::Absent);
    assert_eq!(
        add_course_step(g, failed("e1")).1,
        respond(Reply::InternalError("Unable to create new course group. Error: e1".to_string()))
    );
    let (c, _) = add_course_step(s, Event::Found(4));
    assert_eq!(
        add_course_step(c.clone(), failed("e2")).1,
        respond(Reply::InternalError("Unable to create new course. Error: e2".to_string()))
    );
    let (l, _) = add_course_step(c, Event::Found(5));
    assert_eq!(
        add_course_step(l, failed("e3")).1,
        respond(Reply::InternalError("Unable to link between course and course group. Error: e3".to_string()))
    );
}

#[test]
fn get_course_flow() {
    let (s, _) = get_course_begin("15");
    let (s, a) = get_course_step(s, Event::Authenticated(ALICE));
    assert_eq!(a, Action::FetchCourse { course_id: 15 });
    assert_eq!(get_course_step(s, Event::Absent).1, respond(Reply::NotFound("Course with id 15 is not found.".to_string())));
    let (d, a) = get_course_step(s, Event::Completed);
    assert_eq!(a, Action::LoadCourse { course_id: 15, user_id: 3 });
    assert_eq!(
        get_course_step(d, failed("x")).1,
        respond(Reply::InternalError("Unable to load course with id 15. Error: x".to_string()))
    );
    assert_eq!(get_course_step(d, Event::Completed), (CourseState::Finished, respond(Reply::Success)));
}

#[test]
fn add_review_flow() {
    let (s, _) = add_review_begin("9");
    let (s, a) = add_review_step(s, Event::Authenticated(ALICE));
    assert_eq!(a, Action::FetchCourse { course_id: 9 });
    assert_eq!(
        add_review_step(s, failed("f")).1,
        respond(Reply::InternalError("Unable to fetch the course. Error: f".to_string()))
    );
    assert_eq!(add_review_step(s, Event::Absent).1, respond(Reply::NotFound("Course with id 9 is not found.".to_string())));
    let (r, a) = add_review_step(s, Event::Completed);
    assert_eq!(a, Action::LoadReviews { course_id: 9, user_id: 3 });
    assert_eq!(
        add_review_step(r, failed("g")).1,
        respond(Reply::InternalError("Unable to fetch the review list of Course with id 9. Error: g".to_string()))
    );
    assert_eq!(
        add_review_step(r, Event::Flags(vec![false, true])).1,
        respond(Reply::Conflict("You cannot post more than one review.".to_string()))
    );
    let (i, a) = add_review_step(r, Event::Flags(vec![false, false]));
    assert_eq!(a, Action::InsertReview { reviewer_id: 3 });
    assert_eq!(
        add_review_step(i, failed("h")).1,
        respond(Reply::InternalError("Unable to create new review. Error: h".to_string()))
    );
    let (l, a) = add_review_step(i, Event::Found(40));
    assert_eq!(a, Action::LinkReview { link: Model { course_id: 9, review_id: 40 } });
    assert_eq!(
        add_review_step(l, failed("k")).1,
        respond(Reply::InternalError("Unable to link between review and course. Error: k".to_string()))
    );
    assert_eq!(add_review_step(l, Event::Completed), (AddReviewState::Finished, respond(Reply::Success)));
}

#[test]
fn own_review_flags() {
    assert!(!has_own_review(&vec![]));
    assert!(!has_own_review(&vec![false, false]));
    assert!(has_own_review(&vec![false, true, false]));
}

fn history_read() -> Event {
    Event::History {
        entries: vec!["{\"alter_by\":4}".to_string()],
        snapshot: "{\"content\":\"old\"}".to_string(),
        time: "\"2024-05-01T10:00:00\"".to_string(),
    }
}

#[test]
fn modify_review_permissions() {
    let (s, _) = modify_review_begin("5");
    let (s, a) = modify_review_step(s, Event::Authenticated(ALICE));
    assert_eq!(a, Action::FetchReview { review_id: 5 });
    assert_eq!(
        modify_review_step(s, Event::Found(4)).1,
        respond(Reply::Unauthorized("You have no permission to modify this review!".to_string()))
    );
    let (h, a) = modify_review_step(s, Event::Found(3));
    assert_eq!(a, Action::ReadHistory { review_id: 5 });
    assert!(h.accepts(&history_read()));
    assert!(!h.accepts(&Event::Completed));
    let (u, a) = modify_review_step(h, history_read());
    let entry = "{\"alter_by\":3,\"time\":\"2024-05-01T10:00:00\",\"original\":{\"content\":\"old\"}}".to_string();
    assert_eq!(
        a,
        Action::UpdateReview { review_id: 5, history: vec!["{\"alter_by\":4}".to_string(), entry] }
    );
    assert_eq!(
        modify_review_step(u, failed("z")).1,
        respond(Reply::InternalError("Unable to update the review. Error: z".to_string()))
    );
    assert_eq!(modify_review_step(u, Event::Completed), (ModifyReviewState::Finished, respond(Reply::Success)));
    assert_eq!(modify_review_step(s, Event::Absent).1, respond(Reply::NotFound("Review with id 5 is not found.".to_string())));
    assert_eq!(modify_review_step(s, failed("db")).1, respond(Reply::InternalError("db".to_string())));
}

#[test]
fn admin_modifies_any_review() {
    let (s, _) = modify_review_begin("5");
    let (s, _) = modify_review_step(s, Event::Authenticated(ADMIN));
    let (h, a) = modify_review_step(s, Event::Found(4));
    assert_eq!(a, Action::ReadHistory { review_id: 5 });
    match modify_review_step(h, history_read()).1 {
        Action::UpdateReview { review_id, history } => {
            assert_eq!(review_id, 5);
            assert_eq!(history.len(), 2);
            let v: serde_json::Value = serde_json::from_str(&history[1]).unwrap();
            assert_eq!(v["alter_by"], serde_json::Value::from(1));
            assert_eq!(v["original"]["content"], serde_json::Value::from("old"));
            assert_eq!(v["time"], serde_json::Value::from("2024-05-01T10:00:00"));
        },
        other => panic!("unexpected {:?}", other),
    }
}

#[test]
fn history_entry_is_json() {
    let e = history_entry_text(-12, &"\"t\"".to_string(), &"[1,2]".to_string());
    assert_eq!(e, "{\"alter_by\":-12,\"time\":\"t\",\"original\":[1,2]}");
    assert!(serde_json::from_str::<serde_json::Value>(&e).is_ok());
}

#[test]
fn vote_flow() {
    let (s, _) = vote_for_review_begin("8", true);
    let (s, a) = vote_for_review_step(s, Event::Authenticated(ALICE));
    assert_eq!(a, Action::FetchReview { review_id: 8 });
    let found = ReviewVotes { upvoters: vec![VoterEntry::Id(2)], downvoters: vec![VoterEntry::Id(3)] };
    let (v, a) = vote_for_review_step(s, Event::Votes(found));
    assert_eq!(
        a,
        Action::SaveVotes {
            review_id: 8,
            votes: ReviewVotes { upvoters: vec![VoterEntry::Id(2), VoterEntry::Id(3)], downvoters: vec![] },
        }
    );
    assert_eq!(vote_for_review_step(v, Event::Completed), (VoteState::Finished, respond(Reply::Success)));
    assert_eq!(
        vote_for_review_step(v, failed("q")).1,
        respond(Reply::InternalError("Unable to update the review. Error: q".to_string()))
    );
    assert_eq!(vote_for_review_step(s, Event::Absent).1, respond(Reply::NotFound("Review with id 8 is not found.".to_string())));
    let (b, _) = vote_for_review_begin("8x", false);
    assert_eq!(vote_for_review_step(b, Event::Authenticated(ALICE)).1, respond(Reply::BadRequest("Invalid id syntax.".to_string())));
}

#[test]
fn own_reviews_flow() {
    let (s, a) = get_reviews_begin();
    assert_eq!(a, Action::Authenticate);
    assert_eq!(get_reviews_step(s, Event::AuthRejected), (OwnReviewsState::Finished, respond(Reply::AuthFailure)));
    let (l, a) = get_reviews_step(s, Event::Authenticated(ALICE));
    assert_eq!(a, Action::ListOwnReviews { user_id: 3 });
    assert_eq!(get_reviews_step(l, Event::Completed), (OwnReviewsState::Finished, respond(Reply::Success)));
    assert_eq!(get_reviews_step(l, failed("w")).1, respond(Reply::InternalError("w".to_string())));
}
