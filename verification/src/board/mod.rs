pub mod courses;
pub mod groups;
pub mod reviews;

use vstd::prelude::*;

use crate::board::courses::{
    add_course_accepts, add_course_next, course_accepts, course_next, AddCourseStateView,
    CourseState,
};
use crate::board::groups::{
    course_group_accepts, course_group_next, course_groups_accepts, course_groups_next, CourseGroupState,
    CourseGroupsState,
};
use crate::board::reviews::{
    add_review_accepts, add_review_next, modify_review_accepts, modify_review_next,
    own_reviews_accepts, own_reviews_next, vote_accepts, vote_next, AddReviewState,
    ModifyReviewState, OwnReviewsState, VoteState,
};
use crate::entity::course_review;
use crate::votes::VoterEntry;
use crate::exchange::{invalid_id_reply, text, ActionView, EventView, ReplyView, UserInfo};
use crate::text::{int_text, parse_i32_spec};

verus! {

/// The greeting of the service's root page.
pub open spec fn welcome_message() -> Seq<char> {
    "Welcome to curriculum_board backend. Search for API documents on GitHub please."@
}

/// The body of the answer to `GET /`.
pub fn hello_text() -> (r: String)
    ensures
        r@ == welcome_message(),
{
    text("Welcome to curriculum_board backend. Search for API documents on GitHub please.")
}

/// A caller whom authentication turns away gets the answer that authentication produced,
/// and the request touches nothing else, whatever it asked for.
pub proof fn lemma_rejected_caller_answered(requested: Option<i32>, upvote: bool, code: Seq<char>)
    ensures
        course_group_next(CourseGroupState::Start { requested }, EventView::AuthRejected)
            == (CourseGroupState::Finished, ActionView::Respond(ReplyView::AuthFailure)),
        add_course_next(AddCourseStateView::Start { code }, EventView::AuthRejected)
            == (AddCourseStateView::Finished, ActionView::Respond(ReplyView::AuthFailure)),
        course_next(CourseState::Start { requested }, EventView::AuthRejected)
            == (CourseState::Finished, ActionView::Respond(ReplyView::AuthFailure)),
        add_review_next(AddReviewState::Start { requested }, EventView::AuthRejected)
            == (AddReviewState::Finished, ActionView::Respond(ReplyView::AuthFailure)),
        modify_review_next(ModifyReviewState::Start { requested }, EventView::AuthRejected)
            == (ModifyReviewState::Finished, ActionView::Respond(ReplyView::AuthFailure)),
        vote_next(VoteState::Start { requested, upvote }, EventView::AuthRejected)
            == (VoteState::Finished, ActionView::Respond(ReplyView::AuthFailure)),
        own_reviews_next(OwnReviewsState::Start, EventView::AuthRejected)
            == (OwnReviewsState::Finished, ActionView::Respond(ReplyView::AuthFailure)),
{
}

/// An authenticated request whose path id does not read as an `i32` is answered
/// `400 Invalid id syntax.` before any database call.
pub proof fn lemma_bad_id_answered(raw_id: Seq<char>, user: UserInfo, upvote: bool)
    requires
        parse_i32_spec(raw_id) is None,
    ensures
        ({
            let requested = parse_i32_spec(raw_id);
            let auth = EventView::Authenticated(user);
            let answer = ActionView::Respond(invalid_id_reply());
            &&& course_group_next(CourseGroupState::Start { requested }, auth) == (CourseGroupState::Finished, answer)
            &&& course_next(CourseState::Start { requested }, auth) == (CourseState::Finished, answer)
            &&& add_review_next(AddReviewState::Start { requested }, auth) == (AddReviewState::Finished, answer)
            &&& modify_review_next(ModifyReviewState::Start { requested }, auth) == (
                ModifyReviewState::Finished,
                answer,
            )
            &&& vote_next(VoteState::Start { requested, upvote }, auth) == (VoteState::Finished, answer)
        }),
{
}

/// Every state that waits for authentication takes both of its outcomes, and every state
/// that waits for a database call takes each outcome that call can have: its failure, and
/// each of its successes (a result found, nothing found, the call done).
pub proof fn lemma_waiting_states_accept_outcomes(
    requested: Option<i32>,
    upvote: bool,
    code: Seq<char>,
    user: UserInfo,
    id: i32,
    other_id: i32,
    n: usize,
    next: usize,
    total: usize,
    e: Seq<char>,
    flags: Seq<bool>,
    up: Seq<VoterEntry>,
    down: Seq<VoterEntry>,
    entries: Seq<Seq<char>>,
    snapshot: Seq<char>,
    time: Seq<char>,
)
    requires
        next < total,
    ensures
        // authentication
        course_group_accepts(CourseGroupState::Start { requested }, EventView::Authenticated(user)),
        course_group_accepts(CourseGroupState::Start { requested }, EventView::AuthRejected),
        add_course_accepts(AddCourseStateView::Start { code }, EventView::Authenticated(user)),
        add_course_accepts(AddCourseStateView::Start { code }, EventView::AuthRejected),
        course_accepts(CourseState::Start { requested }, EventView::Authenticated(user)),
        course_accepts(CourseState::Start { requested }, EventView::AuthRejected),
        add_review_accepts(AddReviewState::Start { requested }, EventView::Authenticated(user)),
        add_review_accepts(AddReviewState::Start { requested }, EventView::AuthRejected),
        modify_review_accepts(ModifyReviewState::Start { requested }, EventView::Authenticated(user)),
        modify_review_accepts(ModifyReviewState::Start { requested }, EventView::AuthRejected),
        vote_accepts(VoteState::Start { requested, upvote }, EventView::Authenticated(user)),
        vote_accepts(VoteState::Start { requested, upvote }, EventView::AuthRejected),
        own_reviews_accepts(OwnReviewsState::Start, EventView::Authenticated(user)),
        own_reviews_accepts(OwnReviewsState::Start, EventView::AuthRejected),
        // GET /courses
        course_groups_accepts(CourseGroupsState::Listing, EventView::Failed(e)),
        course_groups_accepts(CourseGroupsState::Listing, EventView::Completed),
        // GET /group/{group_id}
        course_group_accepts(CourseGroupState::AwaitGroup { group_id: id, user }, EventView::Failed(e)),
        course_group_accepts(CourseGroupState::AwaitGroup { group_id: id, user }, EventView::Absent),
        course_group_accepts(CourseGroupState::AwaitGroup { group_id: id, user }, EventView::Counted(n)),
        course_group_accepts(CourseGroupState::LoadingCourses { group_id: id, user, next, total }, EventView::Failed(e)),
        course_group_accepts(CourseGroupState::LoadingCourses { group_id: id, user, next, total }, EventView::Completed),
        // POST /courses
        add_course_accepts(AddCourseStateView::AwaitGroup { user, code }, EventView::Failed(e)),
        add_course_accepts(AddCourseStateView::AwaitGroup { user, code }, EventView::Absent),
        add_course_accepts(AddCourseStateView::AwaitGroup { user, code }, EventView::Found(id)),
        add_course_accepts(AddCourseStateView::AwaitNewGroup { user, code }, EventView::Failed(e)),
        add_course_accepts(AddCourseStateView::AwaitNewGroup { user, code }, EventView::Found(id)),
        add_course_accepts(AddCourseStateView::AwaitCourse { user, group_id: id, code }, EventView::Failed(e)),
        add_course_accepts(AddCourseStateView::AwaitCourse { user, group_id: id, code }, EventView::Found(other_id)),
        add_course_accepts(
            AddCourseStateView::AwaitLink { user, group_id: id, course_id: other_id, code },
            EventView::Failed(e),
        ),
        add_course_accepts(
            AddCourseStateView::AwaitLink { user, group_id: id, course_id: other_id, code },
            EventView::Completed,
        ),
        // GET /courses/{course_id}
        course_accepts(CourseState::AwaitCourse { course_id: id, user }, EventView::Failed(e)),
        course_accepts(CourseState::AwaitCourse { course_id: id, user }, EventView::Absent),
        course_accepts(CourseState::AwaitCourse { course_id: id, user }, EventView::Completed),
        course_accepts(CourseState::AwaitDetails { course_id: id }, EventView::Failed(e)),
        course_accepts(CourseState::AwaitDetails { course_id: id }, EventView::Completed),
        // POST /courses/{course_id}/reviews
        add_review_accepts(AddReviewState::AwaitCourse { course_id: id, user }, EventView::Failed(e)),
        add_review_accepts(AddReviewState::AwaitCourse { course_id: id, user }, EventView::Absent),
        add_review_accepts(AddReviewState::AwaitCourse { course_id: id, user }, EventView::Completed),
        add_review_accepts(AddReviewState::AwaitReviews { course_id: id, user }, EventView::Failed(e)),
        add_review_accepts(AddReviewState::AwaitReviews { course_id: id, user }, EventView::Flags(flags)),
        add_review_accepts(AddReviewState::AwaitInsert { course_id: id, reviewer: user.id }, EventView::Failed(e)),
        add_review_accepts(AddReviewState::AwaitInsert { course_id: id, reviewer: user.id }, EventView::Found(other_id)),
        add_review_accepts(
            AddReviewState::AwaitLink { link: course_review::Model { course_id: id, review_id: other_id }, reviewer: user.id },
            EventView::Failed(e),
        ),
        add_review_accepts(
            AddReviewState::AwaitLink { link: course_review::Model { course_id: id, review_id: other_id }, reviewer: user.id },
            EventView::Completed,
        ),
        // PUT /reviews/{review_id}
        modify_review_accepts(ModifyReviewState::AwaitReview { review_id: id, user }, EventView::Failed(e)),
        modify_review_accepts(ModifyReviewState::AwaitReview { review_id: id, user }, EventView::Absent),
        modify_review_accepts(ModifyReviewState::AwaitReview { review_id: id, user }, EventView::Found(other_id)),
        modify_review_accepts(
            ModifyReviewState::AwaitHistory { review_id: id, user },
            EventView::History { entries, snapshot, time },
        ),
        modify_review_accepts(ModifyReviewState::AwaitUpdate, EventView::Failed(e)),
        modify_review_accepts(ModifyReviewState::AwaitUpdate, EventView::Completed),
        // PATCH /reviews/{review_id}
        vote_accepts(VoteState::AwaitReview { review_id: id, user, upvote }, EventView::Failed(e)),
        vote_accepts(VoteState::AwaitReview { review_id: id, user, upvote }, EventView::Absent),
        vote_accepts(VoteState::AwaitReview { review_id: id, user, upvote }, EventView::Votes((up, down))),
        vote_accepts(VoteState::AwaitSave, EventView::Failed(e)),
        vote_accepts(VoteState::AwaitSave, EventView::Completed),
        // GET /reviews/me
        own_reviews_accepts(OwnReviewsState::Listing, EventView::Failed(e)),
        own_reviews_accepts(OwnReviewsState::Listing, EventView::Completed),
{
}

/// `m` ends with `e`.
pub open spec fn ends_with(m: Seq<char>, e: Seq<char>) -> bool {
    m.len() >= e.len() && m.subrange(m.len() - e.len(), m.len() as int) == e
}

/// The action answers `500` with a message that ends with the error's text `e`.
pub open spec fn answers_error(action: ActionView, e: Seq<char>) -> bool {
    action matches ActionView::Respond(ReplyView::InternalError(m)) && ends_with(m, e)
}

proof fn lemma_ends_with_concat(p: Seq<char>, e: Seq<char>)
    ensures
        ends_with(p + e, e),
{
    assert((p + e).subrange(p.len() as int, (p + e).len() as int) =~= e);
}

/// A failed database call ends the exchange: it is answered `500`, with a message that
/// ends with the database's error text, and nothing more happens.
pub proof fn lemma_failure_answered(
    code: Seq<char>,
    user: UserInfo,
    id: i32,
    other_id: i32,
    next: usize,
    total: usize,
    upvote: bool,
    e: Seq<char>,
)
    requires
        next < total,
    ensures
        ({
            let f = EventView::Failed(e);
            &&& course_groups_next(CourseGroupsState::Listing, f).0 == CourseGroupsState::Finished
            &&& answers_error(course_groups_next(CourseGroupsState::Listing, f).1, e)
            &&& course_group_next(CourseGroupState::AwaitGroup { group_id: id, user }, f).0 == CourseGroupState::Finished
            &&& answers_error(course_group_next(CourseGroupState::AwaitGroup { group_id: id, user }, f).1, e)
            &&& course_group_next(CourseGroupState::LoadingCourses { group_id: id, user, next, total }, f).0
                == CourseGroupState::Finished
            &&& answers_error(
                course_group_next(CourseGroupState::LoadingCourses { group_id: id, user, next, total }, f).1,
                e,
            )
            &&& add_course_next(AddCourseStateView::AwaitGroup { user, code }, f).0 == AddCourseStateView::Finished
            &&& answers_error(add_course_next(AddCourseStateView::AwaitGroup { user, code }, f).1, e)
            &&& add_course_next(AddCourseStateView::AwaitNewGroup { user, code }, f).0 == AddCourseStateView::Finished
            &&& answers_error(add_course_next(AddCourseStateView::AwaitNewGroup { user, code }, f).1, e)
            &&& add_course_next(AddCourseStateView::AwaitCourse { user, group_id: id, code }, f).0
                == AddCourseStateView::Finished
            &&& answers_error(add_course_next(AddCourseStateView::AwaitCourse { user, group_id: id, code }, f).1, e)
            &&& add_course_next(AddCourseStateView::AwaitLink { user, group_id: id, course_id: other_id, code }, f).0
                == AddCourseStateView::Finished
            &&& answers_error(
                add_course_next(AddCourseStateView::AwaitLink { user, group_id: id, course_id: other_id, code }, f).1,
                e,
            )
            &&& course_next(CourseState::AwaitCourse { course_id: id, user }, f).0 == CourseState::Finished
            &&& answers_error(course_next(CourseState::AwaitCourse { course_id: id, user }, f).1, e)
            &&& course_next(CourseState::AwaitDetails { course_id: id }, f).0 == CourseState::Finished
            &&& answers_error(course_next(CourseState::AwaitDetails { course_id: id }, f).1, e)
            &&& add_review_next(AddReviewState::AwaitCourse { course_id: id, user }, f).0 == AddReviewState::Finished
            &&& answers_error(add_review_next(AddReviewState::AwaitCourse { course_id: id, user }, f).1, e)
            &&& add_review_next(AddReviewState::AwaitReviews { course_id: id, user }, f).0 == AddReviewState::Finished
            &&& answers_error(add_review_next(AddReviewState::AwaitReviews { course_id: id, user }, f).1, e)
            &&& add_review_next(AddReviewState::AwaitInsert { course_id: id, reviewer: user.id }, f).0
                == AddReviewState::Finished
            &&& answers_error(add_review_next(AddReviewState::AwaitInsert { course_id: id, reviewer: user.id }, f).1, e)
            &&& add_review_next(
                AddReviewState::AwaitLink {
                    link: course_review::Model { course_id: id, review_id: other_id },
                    reviewer: user.id,
                },
                f,
            ).0 == AddReviewState::Finished
            &&& answers_error(
                add_review_next(
                    AddReviewState::AwaitLink {
                        link: course_review::Model { course_id: id, review_id: other_id },
                        reviewer: user.id,
                    },
                    f,
                ).1,
                e,
            )
            &&& modify_review_next(ModifyReviewState::AwaitReview { review_id: id, user }, f).0
                == ModifyReviewState::Finished
            &&& answers_error(modify_review_next(ModifyReviewState::AwaitReview { review_id: id, user }, f).1, e)
            &&& modify_review_next(ModifyReviewState::AwaitUpdate, f).0 == ModifyReviewState::Finished
            &&& answers_error(modify_review_next(ModifyReviewState::AwaitUpdate, f).1, e)
            &&& vote_next(VoteState::AwaitReview { review_id: id, user, upvote }, f).0 == VoteState::Finished
            &&& answers_error(vote_next(VoteState::AwaitReview { review_id: id, user, upvote }, f).1, e)
            &&& vote_next(VoteState::AwaitSave, f).0 == VoteState::Finished
            &&& answers_error(vote_next(VoteState::AwaitSave, f).1, e)
            &&& own_reviews_next(OwnReviewsState::Listing, f).0 == OwnReviewsState::Finished
            &&& answers_error(own_reviews_next(OwnReviewsState::Listing, f).1, e)
        }),
{
    let t = int_text(id as int);
    lemma_ends_with_concat(Seq::empty(), e);
    assert(Seq::<char>::empty() + e =~= e);
    lemma_ends_with_concat("Unable to load course group with id "@ + t + ". Error: "@, e);
    lemma_ends_with_concat("Unable to create new course group. Error: "@, e);
    lemma_ends_with_concat("Unable to create new course. Error: "@, e);
    lemma_ends_with_concat("Unable to link between course and course group. Error: "@, e);
    lemma_ends_with_concat("Unable to load course with id "@ + t + ". Error: "@, e);
    lemma_ends_with_concat("Unable to fetch the course. Error: "@, e);
    lemma_ends_with_concat("Unable to fetch the review list of Course with id "@ + t + ". Error: "@, e);
    lemma_ends_with_concat("Unable to create new review. Error: "@, e);
    lemma_ends_with_concat("Unable to link between review and course. Error: "@, e);
    lemma_ends_with_concat("Unable to update the review. Error: "@, e);
}

/// Only an admin gets past the start of `POST /courses`, and the group is then looked up
/// by the new course's own code; anyone else is answered `401`.
pub proof fn lemma_add_course_start(code: Seq<char>, user: UserInfo)
    ensures
        user.is_admin ==> add_course_next(AddCourseStateView::Start { code }, EventView::Authenticated(user)) == (
            AddCourseStateView::AwaitGroup { user, code },
            ActionView::FindGroupByCode { code },
        ),
        !user.is_admin ==> add_course_next(AddCourseStateView::Start { code }, EventView::Authenticated(user))
            == (AddCourseStateView::Finished, ActionView::Respond(
            ReplyView::Unauthorized("Only admin can add new course"@),
        )),
{
}

/// The successful course of `GET /courses`, `GET /group/{group_id}` and `GET /reviews/me`:
/// each asks for exactly what the request names, for the authenticated caller, and
/// answers `200` when the data is in; a missing group is answered `404` naming its id.
pub proof fn lemma_listing_paths(group_id: i32, user: UserInfo)
    ensures
        course_groups_next(CourseGroupsState::Listing, EventView::Completed) == (
            CourseGroupsState::Finished,
            ActionView::Respond(ReplyView::Success),
        ),
        course_group_next(CourseGroupState::Start { requested: Some(group_id) }, EventView::Authenticated(user))
            == (CourseGroupState::AwaitGroup { group_id, user }, ActionView::FetchGroup { group_id }),
        course_group_next(CourseGroupState::AwaitGroup { group_id, user }, EventView::Counted(0)) == (
            CourseGroupState::Finished,
            ActionView::Respond(ReplyView::Success),
        ),
        course_group_next(CourseGroupState::AwaitGroup { group_id, user }, EventView::Absent) == (
            CourseGroupState::Finished,
            ActionView::Respond(
                ReplyView::NotFound("Course group with id "@ + int_text(group_id as int) + " is not found."@),
            ),
        ),
        own_reviews_next(OwnReviewsState::Start, EventView::Authenticated(user)) == (
            OwnReviewsState::Listing,
            ActionView::ListOwnReviews { user_id: user.id },
        ),
        own_reviews_next(OwnReviewsState::Listing, EventView::Completed) == (
            OwnReviewsState::Finished,
            ActionView::Respond(ReplyView::Success),
        ),
{
}

/// The successful course of `POST /courses` for an admin: an existing group with the code
/// is used, or else a group with the code is created; then the course is inserted, linked
/// to that group, and the answer is `200`.
pub proof fn lemma_add_course_path(user: UserInfo, code: Seq<char>, group_id: i32, course_id: i32)
    ensures
        add_course_next(AddCourseStateView::AwaitGroup { user, code }, EventView::Found(group_id)) == (
            AddCourseStateView::AwaitCourse { user, group_id, code },
            ActionView::InsertCourse,
        ),
        add_course_next(AddCourseStateView::AwaitGroup { user, code }, EventView::Absent) == (
            AddCourseStateView::AwaitNewGroup { user, code },
            ActionView::CreateGroup { code },
        ),
        add_course_next(AddCourseStateView::AwaitNewGroup { user, code }, EventView::Found(group_id)) == (
            AddCourseStateView::AwaitCourse { user, group_id, code },
            ActionView::InsertCourse,
        ),
        add_course_next(AddCourseStateView::AwaitCourse { user, group_id, code }, EventView::Found(course_id)) == (
            AddCourseStateView::AwaitLink { user, group_id, course_id, code },
            ActionView::LinkCourse { group_id, course_id },
        ),
        add_course_next(AddCourseStateView::AwaitLink { user, group_id, course_id, code }, EventView::Completed)
            == (AddCourseStateView::Finished, ActionView::Respond(ReplyView::Success)),
{
}

/// The successful course of `GET /courses/{course_id}`: the course named by the path is
/// fetched, its details are loaded for the caller, and the answer is `200`; a missing
/// course is answered `404` naming its id.
pub proof fn lemma_course_path(course_id: i32, user: UserInfo)
    ensures
        course_next(CourseState::Start { requested: Some(course_id) }, EventView::Authenticated(user)) == (
            CourseState::AwaitCourse { course_id, user },
            ActionView::FetchCourse { course_id },
        ),
        course_next(CourseState::AwaitCourse { course_id, user }, EventView::Completed) == (
            CourseState::AwaitDetails { course_id },
            ActionView::LoadCourse { course_id, user_id: user.id },
        ),
        course_next(CourseState::AwaitCourse { course_id, user }, EventView::Absent) == (
            CourseState::Finished,
            ActionView::Respond(ReplyView::NotFound("Course with id "@ + int_text(course_id as int) + " is not found."@)),
        ),
        course_next(CourseState::AwaitDetails { course_id }, EventView::Completed) == (
            CourseState::Finished,
            ActionView::Respond(ReplyView::Success),
        ),
{
}

/// The successful course of `POST /courses/{course_id}/reviews`: the course named by the
/// path is fetched, its reviews are loaded for the caller, the new review is linked to that
/// course, and the answer is `200`; a missing course is answered `404` naming its id.
pub proof fn lemma_add_review_path(course_id: i32, user: UserInfo, review_id: i32)
    ensures
        add_review_next(AddReviewState::Start { requested: Some(course_id) }, EventView::Authenticated(user)) == (
            AddReviewState::AwaitCourse { course_id, user },
            ActionView::FetchCourse { course_id },
        ),
        add_review_next(AddReviewState::AwaitCourse { course_id, user }, EventView::Completed) == (
            AddReviewState::AwaitReviews { course_id, user },
            ActionView::LoadReviews { course_id, user_id: user.id },
        ),
        add_review_next(AddReviewState::AwaitCourse { course_id, user }, EventView::Absent) == (
            AddReviewState::Finished,
            ActionView::Respond(ReplyView::NotFound("Course with id "@ + int_text(course_id as int) + " is not found."@)),
        ),
        add_review_next(AddReviewState::AwaitInsert { course_id, reviewer: user.id }, EventView::Found(review_id)) == (
            AddReviewState::AwaitLink { link: course_review::Model { course_id, review_id }, reviewer: user.id },
            ActionView::LinkReview { link: course_review::Model { course_id, review_id } },
        ),
        add_review_next(
            AddReviewState::AwaitLink { link: course_review::Model { course_id, review_id }, reviewer: user.id },
            EventView::Completed,
        ) == (AddReviewState::Finished, ActionView::Respond(ReplyView::Success)),
{
}

/// The successful course of `PUT /reviews/{review_id}` and `PATCH /reviews/{review_id}`:
/// the review named by the path is fetched; a change stores the old history with one entry
/// added that records the caller, the time and the old content; and the answer is `200`.
/// A missing review is answered `404` naming its id.
pub proof fn lemma_review_change_paths(
    review_id: i32,
    user: UserInfo,
    upvote: bool,
    entries: Seq<Seq<char>>,
    snapshot: Seq<char>,
    time: Seq<char>,
)
    ensures
        modify_review_next(ModifyReviewState::Start { requested: Some(review_id) }, EventView::Authenticated(user))
            == (ModifyReviewState::AwaitReview { review_id, user }, ActionView::FetchReview { review_id }),
        modify_review_next(ModifyReviewState::AwaitReview { review_id, user }, EventView::Absent) == (
            ModifyReviewState::Finished,
            ActionView::Respond(ReplyView::NotFound("Review with id "@ + int_text(review_id as int) + " is not found."@)),
        ),
        modify_review_next(
            ModifyReviewState::AwaitHistory { review_id, user },
            EventView::History { entries, snapshot, time },
        ) == (
            ModifyReviewState::AwaitUpdate,
            ActionView::UpdateReview {
                review_id,
                history: entries.push(
                    "{\"alter_by\":"@ + int_text(user.id as int) + ",\"time\":"@ + time + ",\"original\":"@ + snapshot
                        + "}"@,
                ),
            },
        ),
        modify_review_next(ModifyReviewState::AwaitUpdate, EventView::Completed) == (
            ModifyReviewState::Finished,
            ActionView::Respond(ReplyView::Success),
        ),
        vote_next(VoteState::Start { requested: Some(review_id), upvote }, EventView::Authenticated(user)) == (
            VoteState::AwaitReview { review_id, user, upvote },
            ActionView::FetchReview { review_id },
        ),
        vote_next(VoteState::AwaitReview { review_id, user, upvote }, EventView::Absent) == (
            VoteState::Finished,
            ActionView::Respond(ReplyView::NotFound("Review with id "@ + int_text(review_id as int) + " is not found."@)),
        ),
        vote_next(VoteState::AwaitSave, EventView::Completed) == (
            VoteState::Finished,
            ActionView::Respond(ReplyView::Success),
        ),
{
}

} // verus!
