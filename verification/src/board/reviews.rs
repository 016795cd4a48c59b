use vstd::prelude::*;

use crate::board::courses::course_not_found;
use crate::entity::course_review;
use crate::exchange::{
    id_error_message, id_message, invalid_id, invalid_id_reply, text, text_with_error,
    text_with_id, text_with_id_and_error, Action, ActionView, Event, EventView, Reply, ReplyView,
    UserInfo,
};
use crate::text::{i32_text, int_text, parse_i32, parse_i32_spec};
use crate::votes::{lemma_first_match_none, lemma_vote_counts, match_count, voted, VoterEntry};

verus! {

/// Whether any flag is set.
pub open spec fn any_flag(flags: Seq<bool>) -> bool {
    exists|i: int| 0 <= i < flags.len() && flags[i]
}

/// Whether any of the course's reviews was written by the caller.
pub fn has_own_review(flags: &Vec<bool>) -> (r: bool)
    ensures
        r == any_flag(flags@),
        r <==> exists|i: int| 0 <= i < flags@.len() && flags@[i],
{
    let mut i: usize = 0;
    while i < flags.len()
        invariant
            i <= flags.len(),
            forall|j: int| 0 <= j < i ==> !flags@[j],
        decreases flags.len() - i,
    {
        if flags[i] {
            return true;
        }
        i = i + 1;
    }
    false
}

// ---------------------------------------------------------------------------
// POST /courses/{course_id}/reviews: add the caller's review of a course.
// ---------------------------------------------------------------------------

/// Where an exchange that adds a review stands.
#[derive(Debug, Clone, Copy, PartialEq, Eq)]
pub enum AddReviewState {
    /// Waiting for authentication; `requested` is the id of the path, if it reads as one.
    Start { requested: Option<i32> },
    /// Waiting for the course.
    AwaitCourse { course_id: i32, user: UserInfo },
    /// Waiting for the course's reviews.
    AwaitReviews { course_id: i32, user: UserInfo },
    /// Waiting for the new review.
    AwaitInsert { course_id: i32, reviewer: i32 },
    /// Waiting for the row `link`, which puts the new review under its course.
    AwaitLink { link: course_review::Model, reviewer: i32 },
    /// The request has been answered.
    Finished,
}

/// The events that `state` can be handed.
pub open spec fn add_review_accepts(state: AddReviewState, event: EventView) -> bool {
    match state {
        AddReviewState::Start { .. } => event is Authenticated || event is AuthRejected,
        AddReviewState::AwaitCourse { .. } => event is Failed || event is Absent || event is Completed,
        AddReviewState::AwaitReviews { .. } => event is Failed || event is Flags,
        AddReviewState::AwaitInsert { .. } => event is Failed || event is Found,
        AddReviewState::AwaitLink { .. } => event is Failed || event is Completed,
        AddReviewState::Finished => false,
    }
}

impl AddReviewState {
    /// Whether this state can be handed `event`.
    pub fn accepts(&self, event: &Event) -> (b: bool)
        ensures
            b == add_review_accepts(*self, event@),
    {
        match self {
            AddReviewState::Start { .. } => matches!(event, Event::Authenticated(_) | Event::AuthRejected),
            AddReviewState::AwaitCourse { .. } => matches!(event, Event::Failed(_) | Event::Absent | Event::Completed),
            AddReviewState::AwaitReviews { .. } => matches!(event, Event::Failed(_) | Event::Flags(_)),
            AddReviewState::AwaitInsert { .. } => matches!(event, Event::Failed(_) | Event::Found(_)),
            AddReviewState::AwaitLink { .. } => matches!(event, Event::Failed(_) | Event::Completed),
            AddReviewState::Finished => false,
        }
    }
}

/// The answer to a caller who already reviewed the course.
pub open spec fn second_review_message() -> Seq<char> {
    "You cannot post more than one review."@
}

/// The next state and action of `POST /courses/{course_id}/reviews`.
pub open spec fn add_review_next(state: AddReviewState, event: EventView) -> (AddReviewState, ActionView) {
    let done = |r: ReplyView| (AddReviewState::Finished, ActionView::Respond(r));
    match state {
        AddReviewState::Start { requested } => match event {
            EventView::Authenticated(user) => match requested {
                Some(c) => (AddReviewState::AwaitCourse { course_id: c, user }, ActionView::FetchCourse { course_id: c }),
                None => done(invalid_id_reply()),
            },
            _ => done(ReplyView::AuthFailure),
        },
        AddReviewState::AwaitCourse { course_id, user } => match event {
            EventView::Failed(e) => done(ReplyView::InternalError("Unable to fetch the course. Error: "@ + e)),
            EventView::Absent => done(ReplyView::NotFound(course_not_found(course_id))),
            _ => (
                AddReviewState::AwaitReviews { course_id, user },
                ActionView::LoadReviews { course_id, user_id: user.id },
            ),
        },
        AddReviewState::AwaitReviews { course_id, user } => match event {
            EventView::Failed(e) => done(
                ReplyView::InternalError(
                    id_error_message("Unable to fetch the review list of Course with id "@, course_id, ". Error: "@, e),
                ),
            ),
            EventView::Flags(f) => if any_flag(f) {
                done(ReplyView::Conflict(second_review_message()))
            } else {
                (AddReviewState::AwaitInsert { course_id, reviewer: user.id }, ActionView::InsertReview { reviewer_id: user.id })
            },
            _ => done(ReplyView::Success),
        },
        AddReviewState::AwaitInsert { course_id, reviewer } => match event {
            EventView::Failed(e) => done(ReplyView::InternalError("Unable to create new review. Error: "@ + e)),
            EventView::Found(r) => (
                AddReviewState::AwaitLink { link: course_review::Model { course_id, review_id: r }, reviewer },
                ActionView::LinkReview { link: course_review::Model { course_id, review_id: r } },
            ),
            _ => done(ReplyView::Success),
        },
        AddReviewState::AwaitLink { .. } => match event {
            EventView::Failed(e) => done(
                ReplyView::InternalError("Unable to link between review and course. Error: "@ + e),
            ),
            _ => done(ReplyView::Success),
        },
        AddReviewState::Finished => done(ReplyView::Success),
    }
}

/// A measure of the work left, which every step lowers.
pub open spec fn add_review_measure(state: AddReviewState) -> int {
    match state {
        AddReviewState::Start { .. } => 5,
        AddReviewState::AwaitCourse { .. } => 4,
        AddReviewState::AwaitReviews { .. } => 3,
        AddReviewState::AwaitInsert { .. } => 2,
        AddReviewState::AwaitLink { .. } => 1,
        AddReviewState::Finished => 0,
    }
}

/// One review per user and course: a review is inserted only right after the course's
/// reviews were loaded and none of them was the caller's, and it is written in the
/// caller's name.
pub proof fn lemma_one_review_per_user(state: AddReviewState, event: EventView)
    requires
        add_review_accepts(state, event),
        add_review_next(state, event).1 is InsertReview,
    ensures
        state matches AddReviewState::AwaitReviews { user, .. } && add_review_next(state, event).1
            == (ActionView::InsertReview { reviewer_id: user.id }),
        event matches EventView::Flags(f) && !any_flag(f),
{
}

/// The stored reviews (id to author) and links (course id, review id), as far as
/// `POST /courses/{course_id}/reviews` touches them.
pub struct ReviewStore {
    pub authors: Map<i32, i32>,
    pub links: Set<(i32, i32)>,
}

/// Some review of `author` is linked to the course `course_id`.
pub open spec fn has_review_by(store: ReviewStore, course_id: i32, author: i32) -> bool {
    exists|r: i32|
        #![trigger store.links.contains((course_id, r))]
        store.links.contains((course_id, r)) && store.authors.contains_key(r) && store.authors[r] == author
}

/// Every user has at most one review linked to each course.
pub open spec fn one_review_each(store: ReviewStore) -> bool {
    forall|c: i32, r1: i32, r2: i32|
        #![trigger store.links.contains((c, r1)), store.links.contains((c, r2))]
        store.links.contains((c, r1)) && store.links.contains((c, r2)) && store.authors.contains_key(r1)
            && store.authors.contains_key(r2) && store.authors[r1] == store.authors[r2] ==> r1 == r2
}

/// The events of `POST /courses/{course_id}/reviews` tell the truth about the store: a
/// review is flagged as the caller's exactly when the caller wrote it, and a new review has
/// an id that nothing stored uses yet.
pub open spec fn add_review_reports(state: AddReviewState, event: EventView, store: ReviewStore) -> bool {
    match state {
        AddReviewState::AwaitReviews { course_id, user } => match event {
            EventView::Flags(f) => any_flag(f) == has_review_by(store, course_id, user.id),
            _ => true,
        },
        AddReviewState::AwaitInsert { .. } => match event {
            EventView::Found(r) => !store.authors.contains_key(r) && forall|c: i32|
                !(#[trigger] store.links.contains((c, r))),
            _ => true,
        },
        _ => true,
    }
}

/// The store after the action that `state` waited for reported `event`: an inserted review
/// is stored with its author, and a completed link is stored. A failed call writes nothing.
pub open spec fn add_review_effect(state: AddReviewState, event: EventView, store: ReviewStore) -> ReviewStore {
    match state {
        AddReviewState::AwaitInsert { reviewer, .. } => match event {
            EventView::Found(r) => ReviewStore { authors: store.authors.insert(r, reviewer), links: store.links },
            _ => store,
        },
        AddReviewState::AwaitLink { link, .. } => match event {
            EventView::Completed => ReviewStore {
                authors: store.authors,
                links: store.links.insert((link.course_id, link.review_id)),
            },
            _ => store,
        },
        _ => store,
    }
}

/// What each state of `POST /courses/{course_id}/reviews` knows of the store.
pub open spec fn add_review_store_inv(state: AddReviewState, store: ReviewStore) -> bool {
    match state {
        AddReviewState::AwaitInsert { course_id, reviewer } => !has_review_by(store, course_id, reviewer),
        AddReviewState::AwaitLink { link, reviewer } => {
            &&& !has_review_by(store, link.course_id, reviewer)
            &&& store.authors.contains_key(link.review_id)
            &&& store.authors[link.review_id] == reviewer
        },
        _ => true,
    }
}

/// Every user keeps at most one review linked to each course, whatever the answer: each
/// step of `POST /courses/{course_id}/reviews`, with events that tell the truth about a
/// store that nothing else writes, keeps the rule and what the state knows of the store.
pub proof fn lemma_add_review_keeps_one_each(state: AddReviewState, event: EventView, store: ReviewStore)
    requires
        add_review_accepts(state, event),
        one_review_each(store),
        add_review_store_inv(state, store),
        add_review_reports(state, event, store),
    ensures
        one_review_each(add_review_effect(state, event, store)),
        add_review_store_inv(add_review_next(state, event).0, add_review_effect(state, event, store)),
{
    let s2 = add_review_effect(state, event, store);
    match state {
        AddReviewState::AwaitInsert { course_id, reviewer } => {
            if let EventView::Found(r) = event {
                assert forall|c: i32, r1: i32, r2: i32|
                    #![trigger s2.links.contains((c, r1)), s2.links.contains((c, r2))]
                    s2.links.contains((c, r1)) && s2.links.contains((c, r2)) && s2.authors.contains_key(r1)
                        && s2.authors.contains_key(r2) && s2.authors[r1] == s2.authors[r2] implies r1 == r2 by {
                    assert(r1 != r && r2 != r);
                    assert(store.links.contains((c, r1)) && store.links.contains((c, r2)));
                }
                if has_review_by(s2, course_id, reviewer) {
                    let w = choose|w: i32|
                        #![trigger s2.links.contains((course_id, w))]
                        s2.links.contains((course_id, w)) && s2.authors.contains_key(w) && s2.authors[w] == reviewer;
                    assert(w != r);
                    assert(store.links.contains((course_id, w)));
                }
            }
        },
        AddReviewState::AwaitLink { link, reviewer } => {
            if event is Completed {
                let nl = (link.course_id, link.review_id);
                assert forall|c: i32, r1: i32, r2: i32|
                    #![trigger s2.links.contains((c, r1)), s2.links.contains((c, r2))]
                    s2.links.contains((c, r1)) && s2.links.contains((c, r2)) && s2.authors.contains_key(r1)
                        && s2.authors.contains_key(r2) && s2.authors[r1] == s2.authors[r2] implies r1 == r2 by {
                    if (c, r1) == nl && (c, r2) != nl {
                        assert(store.links.contains((c, r2)));
                        assert(has_review_by(store, link.course_id, reviewer));
                    } else if (c, r2) == nl && (c, r1) != nl {
                        assert(store.links.contains((c, r1)));
                        assert(has_review_by(store, link.course_id, reviewer));
                    } else if (c, r1) != nl && (c, r2) != nl {
                        assert(store.links.contains((c, r1)) && store.links.contains((c, r2)));
                    }
                }
            }
        },
        _ => {},
    }
}

/// A caller who already has a review of the course is answered `409 Conflict`, and never
/// gets a second one inserted; a caller who has none gets one inserted, in the caller's
/// name: the answer turns on whether any flag, the first one included, is set.
pub proof fn lemma_review_conflict_iff_own_review(course_id: i32, user: UserInfo, flags: Seq<bool>)
    ensures
        (exists|i: int| 0 <= i < flags.len() && flags[i]) ==> add_review_next(
            AddReviewState::AwaitReviews { course_id, user },
            EventView::Flags(flags),
        ) == (AddReviewState::Finished, ActionView::Respond(
            ReplyView::Conflict("You cannot post more than one review."@),
        )),
        (forall|i: int| 0 <= i < flags.len() ==> !flags[i]) ==> add_review_next(
            AddReviewState::AwaitReviews { course_id, user },
            EventView::Flags(flags),
        ) == (AddReviewState::AwaitInsert { course_id, reviewer: user.id }, ActionView::InsertReview {
            reviewer_id: user.id,
        }),
        flags.len() > 0 && flags[0] ==> add_review_next(
            AddReviewState::AwaitReviews { course_id, user },
            EventView::Flags(flags),
        ).1 is Respond,
{
    if flags.len() > 0 && flags[0] {
        assert(0 <= 0 < flags.len() && flags[0]);
    }
}

/// How `POST /courses/{course_id}/reviews` starts: the id of the path is read, then the
/// caller is authenticated.
pub fn add_review_begin(raw_id: &str) -> (r: (AddReviewState, Action))
    ensures
        r.0 == (AddReviewState::Start { requested: parse_i32_spec(raw_id@) }),
        r.1@ == ActionView::Authenticate,
{
    (AddReviewState::Start { requested: parse_i32(raw_id) }, Action::Authenticate)
}

/// One step of `POST /courses/{course_id}/reviews`.
pub fn add_review_step(state: AddReviewState, event: Event) -> (r: (AddReviewState, Action))
    requires
        add_review_accepts(state, event@),
    ensures
        (r.0, r.1@) == add_review_next(state, event@),
        r.1@ is Respond <==> r.0 is Finished,
        add_review_measure(r.0) < add_review_measure(state),
{
    match state {
        AddReviewState::Start { requested } => match event {
            Event::Authenticated(user) => match requested {
                Some(c) => (AddReviewState::AwaitCourse { course_id: c, user }, Action::FetchCourse { course_id: c }),
                None => (AddReviewState::Finished, Action::Respond(invalid_id())),
            },
            _ => (AddReviewState::Finished, Action::Respond(Reply::AuthFailure)),
        },
        AddReviewState::AwaitCourse { course_id, user } => match event {
            Event::Failed(e) => {
                let m = text_with_error("Unable to fetch the course. Error: ", &e);
                (AddReviewState::Finished, Action::Respond(Reply::InternalError(m)))
            },
            Event::Absent => {
                let m = text_with_id("Course with id ", course_id, " is not found.");
                (AddReviewState::Finished, Action::Respond(Reply::NotFound(m)))
            },
            _ => (
                AddReviewState::AwaitReviews { course_id, user },
                Action::LoadReviews { course_id, user_id: user.id },
            ),
        },
        AddReviewState::AwaitReviews { course_id, user } => match event {
            Event::Failed(e) => {
                let m = text_with_id_and_error(
                    "Unable to fetch the review list of Course with id ",
                    course_id,
                    ". Error: ",
                    &e,
                );
                (AddReviewState::Finished, Action::Respond(Reply::InternalError(m)))
            },
            Event::Flags(f) => if has_own_review(&f) {
                let m = text("You cannot post more than one review.");
                (AddReviewState::Finished, Action::Respond(Reply::Conflict(m)))
            } else {
                (AddReviewState::AwaitInsert { course_id, reviewer: user.id }, Action::InsertReview { reviewer_id: user.id })
            },
            _ => (AddReviewState::Finished, Action::Respond(Reply::Success)),
        },
        AddReviewState::AwaitInsert { course_id, reviewer } => match event {
            Event::Failed(e) => {
                let m = text_with_error("Unable to create new review. Error: ", &e);
                (AddReviewState::Finished, Action::Respond(Reply::InternalError(m)))
            },
            Event::Found(r) => {
                let link = course_review::Model { course_id, review_id: r };
                (AddReviewState::AwaitLink { link, reviewer }, Action::LinkReview { link })
            },
            _ => (AddReviewState::Finished, Action::Respond(Reply::Success)),
        },
        AddReviewState::AwaitLink { .. } => match event {
            Event::Failed(e) => {
                let m = text_with_error("Unable to link between review and course. Error: ", &e);
                (AddReviewState::Finished, Action::Respond(Reply::InternalError(m)))
            },
            _ => (AddReviewState::Finished, Action::Respond(Reply::Success)),
        },
        AddReviewState::Finished => (AddReviewState::Finished, Action::Respond(Reply::Success)),
    }
}

// ---------------------------------------------------------------------------
// PUT /reviews/{review_id}: change a review, keeping its old text in its history.
// ---------------------------------------------------------------------------

/// Where an exchange that changes a review stands.
#[derive(Debug, Clone, Copy, PartialEq, Eq)]
pub enum ModifyReviewState {
    /// Waiting for authentication; `requested` is the id of the path, if it reads as one.
    Start { requested: Option<i32> },
    /// Waiting for the review; a found review is reported by its author's id.
    AwaitReview { review_id: i32, user: UserInfo },
    /// Waiting for the review's history, content and the time.
    AwaitHistory { review_id: i32, user: UserInfo },
    /// Waiting for the update.
    AwaitUpdate,
    /// The request has been answered.
    Finished,
}

/// The events that `state` can be handed.
pub open spec fn modify_review_accepts(state: ModifyReviewState, event: EventView) -> bool {
    match state {
        ModifyReviewState::Start { .. } => event is Authenticated || event is AuthRejected,
        ModifyReviewState::AwaitReview { .. } => event is Failed || event is Absent || event is Found,
        ModifyReviewState::AwaitHistory { .. } => event is History,
        ModifyReviewState::AwaitUpdate => event is Failed || event is Completed,
        ModifyReviewState::Finished => false,
    }
}

impl ModifyReviewState {
    /// Whether this state can be handed `event`.
    pub fn accepts(&self, event: &Event) -> (b: bool)
        ensures
            b == modify_review_accepts(*self, event@),
    {
        match self {
            ModifyReviewState::Start { .. } => matches!(event, Event::Authenticated(_) | Event::AuthRejected),
            ModifyReviewState::AwaitReview { .. } => matches!(event, Event::Failed(_) | Event::Absent | Event::Found(_)),
            ModifyReviewState::AwaitHistory { .. } => matches!(event, Event::History { .. }),
            ModifyReviewState::AwaitUpdate => matches!(event, Event::Failed(_) | Event::Completed),
            ModifyReviewState::Finished => false,
        }
    }
}

/// The message of a missing review.
pub open spec fn review_not_found(review_id: i32) -> Seq<char> {
    id_message("Review with id "@, review_id, " is not found."@)
}

/// The answer to a caller who may not change the review.
pub open spec fn no_permission_message() -> Seq<char> {
    "You have no permission to modify this review!"@
}

/// Whether `user` may change a review written by `author`.
pub open spec fn may_modify(user: UserInfo, author: i32) -> bool {
    author == user.id || user.is_admin
}

/// The JSON text of a history entry: who changed the review, when, and what it held before.
pub open spec fn history_entry(alter_by: i32, time: Seq<char>, original: Seq<char>) -> Seq<char> {
    "{\"alter_by\":"@ + int_text(alter_by as int) + ",\"time\":"@ + time + ",\"original\":"@ + original + "}"@
}

/// Frames the JSON text of a history entry from its parts, which are JSON texts themselves.
pub fn history_entry_text(alter_by: i32, time: &String, original: &String) -> (r: String)
    ensures
        r@ == history_entry(alter_by, time@, original@),
{
    let mut out = text("{\"alter_by\":");
    let id = i32_text(alter_by);
    out.append(id.as_str());
    out.append(",\"time\":");
    out.append(time.as_str());
    out.append(",\"original\":");
    out.append(original.as_str());
    out.append("}");
    out
}

/// The message of a failed update of a review.
pub open spec fn update_failed(error: Seq<char>) -> Seq<char> {
    "Unable to update the review. Error: "@ + error
}

/// The next state and action of `PUT /reviews/{review_id}`.
pub open spec fn modify_review_next(state: ModifyReviewState, event: EventView) -> (ModifyReviewState, ActionView) {
    let done = |r: ReplyView| (ModifyReviewState::Finished, ActionView::Respond(r));
    match state {
        ModifyReviewState::Start { requested } => match event {
            EventView::Authenticated(user) => match requested {
                Some(r) => (ModifyReviewState::AwaitReview { review_id: r, user }, ActionView::FetchReview { review_id: r }),
                None => done(invalid_id_reply()),
            },
            _ => done(ReplyView::AuthFailure),
        },
        ModifyReviewState::AwaitReview { review_id, user } => match event {
            EventView::Failed(e) => done(ReplyView::InternalError(e)),
            EventView::Found(author) => if !may_modify(user, author) {
                done(ReplyView::Unauthorized(no_permission_message()))
            } else {
                (ModifyReviewState::AwaitHistory { review_id, user }, ActionView::ReadHistory { review_id })
            },
            _ => done(ReplyView::NotFound(review_not_found(review_id))),
        },
        ModifyReviewState::AwaitHistory { review_id, user } => match event {
            EventView::History { entries, snapshot, time } => (
                ModifyReviewState::AwaitUpdate,
                ActionView::UpdateReview { review_id, history: entries.push(history_entry(user.id, time, snapshot)) },
            ),
            _ => done(ReplyView::Success),
        },
        ModifyReviewState::AwaitUpdate => match event {
            EventView::Failed(e) => done(ReplyView::InternalError(update_failed(e))),
            _ => done(ReplyView::Success),
        },
        ModifyReviewState::Finished => done(ReplyView::Success),
    }
}

/// A measure of the work left, which every step lowers.
pub open spec fn modify_review_measure(state: ModifyReviewState) -> int {
    match state {
        ModifyReviewState::Start { .. } => 4,
        ModifyReviewState::AwaitReview { .. } => 3,
        ModifyReviewState::AwaitHistory { .. } => 2,
        ModifyReviewState::AwaitUpdate => 1,
        ModifyReviewState::Finished => 0,
    }
}

/// The step from `state` on `event` is one where an allowed caller's review was found.
pub open spec fn modify_allowed(state: ModifyReviewState, event: EventView) -> bool {
    &&& state matches ModifyReviewState::AwaitReview { user, .. }
    &&& event matches EventView::Found(author)
    &&& may_modify(user, author)
}

/// The step from `state` on `event` stores the review's history with one entry added, which
/// records the caller, the time and the old content.
pub open spec fn modify_records_history(state: ModifyReviewState, event: EventView, action: ActionView) -> bool {
    &&& state matches ModifyReviewState::AwaitHistory { review_id, user }
    &&& event matches EventView::History { entries, snapshot, time }
    &&& action == (ActionView::UpdateReview { review_id, history: entries.push(history_entry(user.id, time, snapshot)) })
}

/// Only the author of a review, or an admin, changes it: the history is read, and the
/// review written, only in an exchange that found the caller allowed, and the change
/// keeps every earlier history entry and adds one that records the caller.
pub proof fn lemma_only_author_or_admin_modifies(state: ModifyReviewState, event: EventView)
    requires
        modify_review_accepts(state, event),
    ensures
        modify_review_next(state, event).1 is ReadHistory ==> modify_allowed(state, event),
        modify_review_next(state, event).0 is AwaitHistory ==> modify_allowed(state, event),
        modify_review_next(state, event).1 is UpdateReview ==> modify_records_history(
            state,
            event,
            modify_review_next(state, event).1,
        ),
{
}

/// The author of a review may change it, and so may an admin, any review; everyone else
/// is refused with `401`, before the review's history is read.
pub proof fn lemma_modify_permission(review_id: i32, user: UserInfo, author: i32)
    ensures
        (author == user.id || user.is_admin) ==> modify_review_next(
            ModifyReviewState::AwaitReview { review_id, user },
            EventView::Found(author),
        ) == (ModifyReviewState::AwaitHistory { review_id, user }, ActionView::ReadHistory { review_id }),
        !(author == user.id || user.is_admin) ==> modify_review_next(
            ModifyReviewState::AwaitReview { review_id, user },
            EventView::Found(author),
        ) == (ModifyReviewState::Finished, ActionView::Respond(
            ReplyView::Unauthorized("You have no permission to modify this review!"@),
        )),
{
}

/// How `PUT /reviews/{review_id}` starts: the id of the path is read, then the caller is
/// authenticated.
pub fn modify_review_begin(raw_id: &str) -> (r: (ModifyReviewState, Action))
    ensures
        r.0 == (ModifyReviewState::Start { requested: parse_i32_spec(raw_id@) }),
        r.1@ == ActionView::Authenticate,
{
    (ModifyReviewState::Start { requested: parse_i32(raw_id) }, Action::Authenticate)
}

/// One step of `PUT /reviews/{review_id}`.
pub fn modify_review_step(state: ModifyReviewState, event: Event) -> (r: (ModifyReviewState, Action))
    requires
        modify_review_accepts(state, event@),
    ensures
        (r.0, r.1@) == modify_review_next(state, event@),
        r.1@ is Respond <==> r.0 is Finished,
        modify_review_measure(r.0) < modify_review_measure(state),
{
    match state {
        ModifyReviewState::Start { requested } => match event {
            Event::Authenticated(user) => match requested {
                Some(r) => (ModifyReviewState::AwaitReview { review_id: r, user }, Action::FetchReview { review_id: r }),
                None => (ModifyReviewState::Finished, Action::Respond(invalid_id())),
            },
            _ => (ModifyReviewState::Finished, Action::Respond(Reply::AuthFailure)),
        },
        ModifyReviewState::AwaitReview { review_id, user } => match event {
            Event::Failed(e) => (ModifyReviewState::Finished, Action::Respond(Reply::InternalError(e))),
            Event::Found(author) => if author != user.id && !user.is_admin {
                let m = text("You have no permission to modify this review!");
                (ModifyReviewState::Finished, Action::Respond(Reply::Unauthorized(m)))
            } else {
                (ModifyReviewState::AwaitHistory { review_id, user }, Action::ReadHistory { review_id })
            },
            _ => {
                let m = text_with_id("Review with id ", review_id, " is not found.");
                (ModifyReviewState::Finished, Action::Respond(Reply::NotFound(m)))
            },
        },
        ModifyReviewState::AwaitHistory { review_id, user } => match event {
            Event::History { entries, snapshot, time } => {
                let entry = history_entry_text(user.id, &time, &snapshot);
                let mut history = entries;
                let ghost before = history.deep_view();
                history.push(entry);
                assert(history.deep_view() =~= before.push(history_entry(user.id, time@, snapshot@)));
                (ModifyReviewState::AwaitUpdate, Action::UpdateReview { review_id, history })
            },
            _ => (ModifyReviewState::Finished, Action::Respond(Reply::Success)),
        },
        ModifyReviewState::AwaitUpdate => match event {
            Event::Failed(e) => {
                let m = text_with_error("Unable to update the review. Error: ", &e);
                (ModifyReviewState::Finished, Action::Respond(Reply::InternalError(m)))
            },
            _ => (ModifyReviewState::Finished, Action::Respond(Reply::Success)),
        },
        ModifyReviewState::Finished => (ModifyReviewState::Finished, Action::Respond(Reply::Success)),
    }
}

// ---------------------------------------------------------------------------
// PATCH /reviews/{review_id}: vote a review up or down.
// ---------------------------------------------------------------------------

/// Where an exchange that votes on a review stands.
#[derive(Debug, Clone, Copy, PartialEq, Eq)]
pub enum VoteState {
    /// Waiting for authentication; `requested` is the id of the path, if it reads as one,
    /// and `upvote` tells the kind of the vote.
    Start { requested: Option<i32>, upvote: bool },
    /// Waiting for the review's voters.
    AwaitReview { review_id: i32, user: UserInfo, upvote: bool },
    /// Waiting for the new voters to be stored.
    AwaitSave,
    /// The request has been answered.
    Finished,
}

/// The events that `state` can be handed.
pub open spec fn vote_accepts(state: VoteState, event: EventView) -> bool {
    match state {
        VoteState::Start { .. } => event is Authenticated || event is AuthRejected,
        VoteState::AwaitReview { .. } => event is Failed || event is Absent || event is Votes,
        VoteState::AwaitSave => event is Failed || event is Completed,
        VoteState::Finished => false,
    }
}

impl VoteState {
    /// Whether this state can be handed `event`.
    pub fn accepts(&self, event: &Event) -> (b: bool)
        ensures
            b == vote_accepts(*self, event@),
    {
        match self {
            VoteState::Start { .. } => matches!(event, Event::Authenticated(_) | Event::AuthRejected),
            VoteState::AwaitReview { .. } => matches!(event, Event::Failed(_) | Event::Absent | Event::Votes(_)),
            VoteState::AwaitSave => matches!(event, Event::Failed(_) | Event::Completed),
            VoteState::Finished => false,
        }
    }
}

/// The next state and action of `PATCH /reviews/{review_id}`.
pub open spec fn vote_next(state: VoteState, event: EventView) -> (VoteState, ActionView) {
    let done = |r: ReplyView| (VoteState::Finished, ActionView::Respond(r));
    match state {
        VoteState::Start { requested, upvote } => match event {
            EventView::Authenticated(user) => match requested {
                Some(r) => (VoteState::AwaitReview { review_id: r, user, upvote }, ActionView::FetchReview { review_id: r }),
                None => done(invalid_id_reply()),
            },
            _ => done(ReplyView::AuthFailure),
        },
        VoteState::AwaitReview { review_id, user, upvote } => match event {
            EventView::Failed(e) => done(ReplyView::InternalError(e)),
            EventView::Votes(v) => (
                VoteState::AwaitSave,
                ActionView::SaveVotes { review_id, votes: voted(v.0, v.1, user.id, upvote) },
            ),
            _ => done(ReplyView::NotFound(review_not_found(review_id))),
        },
        VoteState::AwaitSave => match event {
            EventView::Failed(e) => done(ReplyView::InternalError(update_failed(e))),
            _ => done(ReplyView::Success),
        },
        VoteState::Finished => done(ReplyView::Success),
    }
}

/// A measure of the work left, which every step lowers.
pub open spec fn vote_measure(state: VoteState) -> int {
    match state {
        VoteState::Start { .. } => 3,
        VoteState::AwaitReview { .. } => 2,
        VoteState::AwaitSave => 1,
        VoteState::Finished => 0,
    }
}

/// The voters saved for a review follow the kind of vote that the request asked for: a
/// caller with no vote of that kind gets one appended to that list, and loses a vote of
/// the other kind; a caller with a vote of that kind has one withdrawn from that list, and
/// the other list stays as it was.
pub proof fn lemma_vote_saves_requested_kind(
    review_id: i32,
    user: UserInfo,
    upvote: bool,
    up: Seq<VoterEntry>,
    down: Seq<VoterEntry>,
)
    ensures
        ({
            let (st, a) = vote_next(VoteState::AwaitReview { review_id, user, upvote }, EventView::Votes((up, down)));
            &&& st == VoteState::AwaitSave
            &&& a is SaveVotes
            &&& a matches ActionView::SaveVotes { review_id: r, votes } ==> ({
                let own = if upvote { up } else { down };
                let opp = if upvote { down } else { up };
                let own2 = if upvote { votes.0 } else { votes.1 };
                let opp2 = if upvote { votes.1 } else { votes.0 };
                &&& r == review_id
                &&& match_count(own, user.id) == 0 ==> own2 == own.push(VoterEntry::Id(user.id as i64))
                &&& match_count(own, user.id) == 0 ==> match_count(opp2, user.id) + (if match_count(opp, user.id) > 0 {
                    1int
                } else {
                    0int
                }) == match_count(opp, user.id)
                &&& match_count(own, user.id) > 0 ==> match_count(own2, user.id) + 1 == match_count(own, user.id)
                &&& match_count(own, user.id) > 0 ==> opp2 == opp
            })
        }),
{
    lemma_vote_counts(up, down, user.id, upvote, user.id);
    lemma_first_match_none(up, user.id);
    lemma_first_match_none(down, user.id);
}

/// How `PATCH /reviews/{review_id}` starts: the id of the path is read, then the caller
/// is authenticated.
pub fn vote_for_review_begin(raw_id: &str, upvote: bool) -> (r: (VoteState, Action))
    ensures
        r.0 == (VoteState::Start { requested: parse_i32_spec(raw_id@), upvote }),
        r.1@ == ActionView::Authenticate,
{
    (VoteState::Start { requested: parse_i32(raw_id), upvote }, Action::Authenticate)
}

/// One step of `PATCH /reviews/{review_id}`.
pub fn vote_for_review_step(state: VoteState, event: Event) -> (r: (VoteState, Action))
    requires
        vote_accepts(state, event@),
    ensures
        (r.0, r.1@) == vote_next(state, event@),
        r.1@ is Respond <==> r.0 is Finished,
        vote_measure(r.0) < vote_measure(state),
{
    match state {
        VoteState::Start { requested, upvote } => match event {
            Event::Authenticated(user) => match requested {
                Some(r) => (VoteState::AwaitReview { review_id: r, user, upvote }, Action::FetchReview { review_id: r }),
                None => (VoteState::Finished, Action::Respond(invalid_id())),
            },
            _ => (VoteState::Finished, Action::Respond(Reply::AuthFailure)),
        },
        VoteState::AwaitReview { review_id, user, upvote } => match event {
            Event::Failed(e) => (VoteState::Finished, Action::Respond(Reply::InternalError(e))),
            Event::Votes(v) => {
                let mut votes = v;
                votes.cast_vote(user.id, upvote);
                (VoteState::AwaitSave, Action::SaveVotes { review_id, votes })
            },
            _ => {
                let m = text_with_id("Review with id ", review_id, " is not found.");
                (VoteState::Finished, Action::Respond(Reply::NotFound(m)))
            },
        },
        VoteState::AwaitSave => match event {
            Event::Failed(e) => {
                let m = text_with_error("Unable to update the review. Error: ", &e);
                (VoteState::Finished, Action::Respond(Reply::InternalError(m)))
            },
            _ => (VoteState::Finished, Action::Respond(Reply::Success)),
        },
        VoteState::Finished => (VoteState::Finished, Action::Respond(Reply::Success)),
    }
}

// ---------------------------------------------------------------------------
// GET /reviews/me: the caller's reviews, each with its course.
// ---------------------------------------------------------------------------

/// Where an exchange that lists the caller's reviews stands.
#[derive(Debug, Clone, Copy, PartialEq, Eq)]
pub enum OwnReviewsState {
    /// Waiting for authentication.
    Start,
    /// Waiting for the caller's reviews.
    Listing,
    /// The request has been answered.
    Finished,
}

/// The events that `state` can be handed.
pub open spec fn own_reviews_accepts(state: OwnReviewsState, event: EventView) -> bool {
    match state {
        OwnReviewsState::Start => event is Authenticated || event is AuthRejected,
        OwnReviewsState::Listing => event is Failed || event is Completed,
        OwnReviewsState::Finished => false,
    }
}

impl OwnReviewsState {
    /// Whether this state can be handed `event`.
    pub fn accepts(&self, event: &Event) -> (b: bool)
        ensures
            b == own_reviews_accepts(*self, event@),
    {
        match self {
            OwnReviewsState::Start => matches!(event, Event::Authenticated(_) | Event::AuthRejected),
            OwnReviewsState::Listing => matches!(event, Event::Failed(_) | Event::Completed),
            OwnReviewsState::Finished => false,
        }
    }
}

/// The next state and action of `GET /reviews/me`.
pub open spec fn own_reviews_next(state: OwnReviewsState, event: EventView) -> (OwnReviewsState, ActionView) {
    let done = |r: ReplyView| (OwnReviewsState::Finished, ActionView::Respond(r));
    match state {
        OwnReviewsState::Start => match event {
            EventView::Authenticated(user) => (OwnReviewsState::Listing, ActionView::ListOwnReviews { user_id: user.id }),
            _ => done(ReplyView::AuthFailure),
        },
        OwnReviewsState::Listing => match event {
            EventView::Failed(e) => done(ReplyView::InternalError(e)),
            _ => done(ReplyView::Success),
        },
        OwnReviewsState::Finished => done(ReplyView::Success),
    }
}

/// A measure of the work left, which every step lowers.
pub open spec fn own_reviews_measure(state: OwnReviewsState) -> int {
    match state {
        OwnReviewsState::Start => 2,
        OwnReviewsState::Listing => 1,
        OwnReviewsState::Finished => 0,
    }
}

/// How `GET /reviews/me` starts: the caller is authenticated.
pub fn get_reviews_begin() -> (r: (OwnReviewsState, Action))
    ensures
        r.0 == OwnReviewsState::Start,
        r.1@ == ActionView::Authenticate,
{
    (OwnReviewsState::Start, Action::Authenticate)
}

/// One step of `GET /reviews/me`.
pub fn get_reviews_step(state: OwnReviewsState, event: Event) -> (r: (OwnReviewsState, Action))
    requires
        own_reviews_accepts(state, event@),
    ensures
        (r.0, r.1@) == own_reviews_next(state, event@),
        r.1@ is Respond <==> r.0 is Finished,
        own_reviews_measure(r.0) < own_reviews_measure(state),
{
    match state {
        OwnReviewsState::Start => match event {
            Event::Authenticated(user) => (OwnReviewsState::Listing, Action::ListOwnReviews { user_id: user.id }),
            _ => (OwnReviewsState::Finished, Action::Respond(Reply::AuthFailure)),
        },
        OwnReviewsState::Listing => match event {
            Event::Failed(e) => (OwnReviewsState::Finished, Action::Respond(Reply::InternalError(e))),
            _ => (OwnReviewsState::Finished, Action::Respond(Reply::Success)),
        },
        OwnReviewsState::Finished => (OwnReviewsState::Finished, Action::Respond(Reply::Success)),
    }
}

} // verus!
