use vstd::prelude::*;

use crate::exchange::{
    id_error_message, id_message, invalid_id, invalid_id_reply, text_with_id,
    text_with_id_and_error, Action, ActionView, Event, EventView, Reply, ReplyView, UserInfo,
};

use crate::text::{parse_i32, parse_i32_spec};

verus! {

// ---------------------------------------------------------------------------
// GET /courses: every course group with its courses.
// ---------------------------------------------------------------------------

/// Where an exchange that lists every course group stands.
#[derive(Debug, Clone, Copy, PartialEq, Eq)]
pub enum CourseGroupsState {
    /// Waiting for the list of course groups.
    Listing,
    /// The request has been answered.
    Finished,
}

/// The events that `state` can be handed.
pub open spec fn course_groups_accepts(state: CourseGroupsState, event: EventView) -> bool {
    match state {
        CourseGroupsState::Listing => event is Failed || event is Completed,
        CourseGroupsState::Finished => false,
    }
}

impl CourseGroupsState {
    /// Whether this state can be handed `event`.
    pub fn accepts(&self, event: &Event) -> (b: bool)
        ensures
            b == course_groups_accepts(*self, event@),
    {
        match self {
            CourseGroupsState::Listing => matches!(event, Event::Failed(_) | Event::Completed),
            CourseGroupsState::Finished => false,
        }
    }
}

/// The next state and action: a failed listing is answered with the error's text, a
/// successful one with the list.
pub open spec fn course_groups_next(state: CourseGroupsState, event: EventView) -> (CourseGroupsState, ActionView) {
    match event {
        EventView::Failed(e) => (CourseGroupsState::Finished, ActionView::Respond(ReplyView::InternalError(e))),
        _ => (CourseGroupsState::Finished, ActionView::Respond(ReplyView::Success)),
    }
}

/// How `GET /courses` starts: it lists the course groups, with no authentication.
pub fn get_course_groups_begin() -> (r: (CourseGroupsState, Action))
    ensures
        r.0 == CourseGroupsState::Listing,
        r.1@ == ActionView::ListGroups,
{
    (CourseGroupsState::Listing, Action::ListGroups)
}

/// One step of `GET /courses`.
pub fn get_course_groups_step(state: CourseGroupsState, event: Event) -> (r: (CourseGroupsState, Action))
    requires
        course_groups_accepts(state, event@),
    ensures
        (r.0, r.1@) == course_groups_next(state, event@),
{
    match event {
        Event::Failed(e) => (CourseGroupsState::Finished, Action::Respond(Reply::InternalError(e))),
        _ => (CourseGroupsState::Finished, Action::Respond(Reply::Success)),
    }
}

// ---------------------------------------------------------------------------
// GET /group/{group_id}: one course group with the details of its courses.
// ---------------------------------------------------------------------------

/// Where an exchange that shows one course group stands.
#[derive(Debug, Clone, Copy, PartialEq, Eq)]
pub enum CourseGroupState {
    /// Waiting for authentication; `requested` is the id of the path, if it reads as one.
    Start { requested: Option<i32> },
    /// Waiting for the course group.
    AwaitGroup { group_id: i32, user: UserInfo },
    /// Loading the group's course at `next`, of `total`.
    LoadingCourses { group_id: i32, user: UserInfo, next: usize, total: usize },
    /// The request has been answered.
    Finished,
}

/// The events that `state` can be handed.
pub open spec fn course_group_accepts(state: CourseGroupState, event: EventView) -> bool {
    match state {
        CourseGroupState::Start { .. } => event is Authenticated || event is AuthRejected,
        CourseGroupState::AwaitGroup { .. } => event is Failed || event is Absent || event is Counted,
        CourseGroupState::LoadingCourses { next, total, .. } => next < total && (event is Failed
            || event is Completed),
        CourseGroupState::Finished => false,
    }
}

impl CourseGroupState {
    /// Whether this state can be handed `event`.
    pub fn accepts(&self, event: &Event) -> (b: bool)
        ensures
            b == course_group_accepts(*self, event@),
    {
        match self {
            CourseGroupState::Start { .. } => matches!(event, Event::Authenticated(_) | Event::AuthRejected),
            CourseGroupState::AwaitGroup { .. } => matches!(event, Event::Failed(_) | Event::Absent | Event::Counted(_)),
            CourseGroupState::LoadingCourses { next, total, .. } => *next < *total && matches!(event, Event::Failed(_) | Event::Completed),
            CourseGroupState::Finished => false,
        }
    }
}

/// The message of a missing course group.
pub open spec fn group_not_found(group_id: i32) -> Seq<char> {
    id_message("Course group with id "@, group_id, " is not found."@)
}

/// The message of a course of the group that failed to load.
pub open spec fn group_course_failed(group_id: i32, error: Seq<char>) -> Seq<char> {
    id_error_message("Unable to load course group with id "@, group_id, ". Error: "@, error)
}

/// The next state and action of `GET /group/{group_id}`.
pub open spec fn course_group_next(state: CourseGroupState, event: EventView) -> (CourseGroupState, ActionView) {
    let done = |r: ReplyView| (CourseGroupState::Finished, ActionView::Respond(r));
    match state {
        CourseGroupState::Start { requested } => match event {
            EventView::Authenticated(user) => match requested {
                Some(g) => (CourseGroupState::AwaitGroup { group_id: g, user }, ActionView::FetchGroup { group_id: g }),
                None => done(invalid_id_reply()),
            },
            _ => done(ReplyView::AuthFailure),
        },
        CourseGroupState::AwaitGroup { group_id, user } => match event {
            EventView::Failed(e) => done(ReplyView::InternalError(e)),
            EventView::Counted(n) => if n == 0 {
                done(ReplyView::Success)
            } else {
                (
                    CourseGroupState::LoadingCourses { group_id, user, next: 0, total: n },
                    ActionView::LoadGroupCourse { index: 0, user_id: user.id },
                )
            },
            _ => done(ReplyView::NotFound(group_not_found(group_id))),
        },
        CourseGroupState::LoadingCourses { group_id, user, next, total } => match event {
            EventView::Failed(e) => done(ReplyView::InternalError(group_course_failed(group_id, e))),
            _ => if next + 1 == total {
                done(ReplyView::Success)
            } else {
                (
                    CourseGroupState::LoadingCourses { group_id, user, next: (next + 1) as usize, total },
                    ActionView::LoadGroupCourse { index: (next + 1) as usize, user_id: user.id },
                )
            },
        },
        CourseGroupState::Finished => done(ReplyView::Success),
    }
}

/// A measure of the work left, which every step lowers.
pub open spec fn course_group_measure(state: CourseGroupState) -> int {
    match state {
        CourseGroupState::Start { .. } => usize::MAX as int + 2,
        CourseGroupState::AwaitGroup { .. } => usize::MAX as int + 1,
        CourseGroupState::LoadingCourses { next, total, .. } => total - next,
        CourseGroupState::Finished => 0,
    }
}

/// The state and action after the group with `total` courses was found and then `k` of its
/// courses loaded one after another.
pub open spec fn after_course_loads(group_id: i32, user: UserInfo, total: usize, k: nat) -> (CourseGroupState, ActionView)
    decreases k,
{
    if k == 0 {
        course_group_next(CourseGroupState::AwaitGroup { group_id, user }, EventView::Counted(total))
    } else {
        course_group_next(after_course_loads(group_id, user, total, (k - 1) as nat).0, EventView::Completed)
    }
}

/// Every course of the group is loaded, in order: once the group is found with `total > 0`
/// courses, the exchange asks for course `k` after `k` loads, for each `k < total`, and
/// answers `200` only after all `total` loads.
pub proof fn lemma_group_loads_every_course(group_id: i32, user: UserInfo, total: usize, k: nat)
    requires
        0 < total,
        k <= total,
    ensures
        k < total ==> after_course_loads(group_id, user, total, k) == (
            CourseGroupState::LoadingCourses { group_id, user, next: k as usize, total },
            ActionView::LoadGroupCourse { index: k as usize, user_id: user.id },
        ),
        k == total ==> after_course_loads(group_id, user, total, k) == (
            CourseGroupState::Finished,
            ActionView::Respond(ReplyView::Success),
        ),
    decreases k,
{
    if k > 0 {
        lemma_group_loads_every_course(group_id, user, total, (k - 1) as nat);
    }
}

/// One load step: the answer comes exactly when the last course has loaded, and otherwise
/// the next course, by index, is asked for.
pub proof fn lemma_group_load_step(group_id: i32, user: UserInfo, next: usize, total: usize)
    requires
        next < total,
    ensures
        next + 1 == total ==> course_group_next(
            CourseGroupState::LoadingCourses { group_id, user, next, total },
            EventView::Completed,
        ) == (CourseGroupState::Finished, ActionView::Respond(ReplyView::Success)),
        next + 1 < total ==> course_group_next(
            CourseGroupState::LoadingCourses { group_id, user, next, total },
            EventView::Completed,
        ) == (
            CourseGroupState::LoadingCourses { group_id, user, next: (next + 1) as usize, total },
            ActionView::LoadGroupCourse { index: (next + 1) as usize, user_id: user.id },
        ),
{
}

/// How `GET /group/{group_id}` starts: the id of the path is read, then the caller is
/// authenticated.
pub fn get_course_group_begin(raw_id: &str) -> (r: (CourseGroupState, Action))
    ensures
        r.0 == (CourseGroupState::Start { requested: parse_i32_spec(raw_id@) }),
        r.1@ == ActionView::Authenticate,
{
    (CourseGroupState::Start { requested: parse_i32(raw_id) }, Action::Authenticate)
}

/// One step of `GET /group/{group_id}`.
pub fn get_course_group_step(state: CourseGroupState, event: Event) -> (r: (CourseGroupState, Action))
    requires
        course_group_accepts(state, event@),
    ensures
        (r.0, r.1@) == course_group_next(state, event@),
        r.1@ is Respond <==> r.0 is Finished,
        course_group_measure(r.0) < course_group_measure(state),
{
    match state {
        CourseGroupState::Start { requested } => match event {
            Event::Authenticated(user) => match requested {
                Some(g) => (CourseGroupState::AwaitGroup { group_id: g, user }, Action::FetchGroup { group_id: g }),
                None => (CourseGroupState::Finished, Action::Respond(invalid_id())),
            },
            _ => (CourseGroupState::Finished, Action::Respond(Reply::AuthFailure)),
        },
        CourseGroupState::AwaitGroup { group_id, user } => match event {
            Event::Failed(e) => (CourseGroupState::Finished, Action::Respond(Reply::InternalError(e))),
            Event::Counted(n) => if n == 0 {
                (CourseGroupState::Finished, Action::Respond(Reply::Success))
            } else {
                (
                    CourseGroupState::LoadingCourses { group_id, user, next: 0, total: n },
                    Action::LoadGroupCourse { index: 0, user_id: user.id },
                )
            },
            _ => {
                let m = text_with_id("Course group with id ", group_id, " is not found.");
                (CourseGroupState::Finished, Action::Respond(Reply::NotFound(m)))
            },
        },
        CourseGroupState::LoadingCourses { group_id, user, next, total } => match event {
            Event::Failed(e) => {
                let m = text_with_id_and_error("Unable to load course group with id ", group_id, ". Error: ", &e);
                (CourseGroupState::Finished, Action::Respond(Reply::InternalError(m)))
            },
            _ => if next + 1 == total {
                (CourseGroupState::Finished, Action::Respond(Reply::Success))
            } else {
                (
                    CourseGroupState::LoadingCourses { group_id, user, next: next + 1, total },
                    Action::LoadGroupCourse { index: next + 1, user_id: user.id },
                )
            },
        },
        CourseGroupState::Finished => (CourseGroupState::Finished, Action::Respond(Reply::Success)),
    }
}

} // verus!
