use vstd::prelude::*;

use crate::exchange::{
    id_error_message, id_message, invalid_id, invalid_id_reply, text, text_with_error,
    text_with_id, text_with_id_and_error, Action, ActionView, Event, EventView, Reply, ReplyView,
    UserInfo,
};

use crate::text::{parse_i32, parse_i32_spec};

verus! {

// ---------------------------------------------------------------------------
// POST /courses: add a course, and its course group when there is none yet.
// ---------------------------------------------------------------------------

/// Where an exchange that adds a course stands; `code` is the new course's code.
#[derive(Debug, Clone, PartialEq, Eq)]
pub enum AddCourseState {
    /// Waiting for authentication.
    Start { code: String },
    /// Waiting for the course group that has the code.
    AwaitGroup { user: UserInfo, code: String },
    /// Waiting for the new course group, which has the code.
    AwaitNewGroup { user: UserInfo, code: String },
    /// Waiting for the new course, which goes to the group `group_id`.
    AwaitCourse { user: UserInfo, group_id: i32, code: String },
    /// Waiting for the link between the course `course_id` and the group `group_id`.
    AwaitLink { user: UserInfo, group_id: i32, course_id: i32, code: String },
    /// The request has been answered.
    Finished,
}

pub enum AddCourseStateView {
    Start { code: Seq<char> },
    AwaitGroup { user: UserInfo, code: Seq<char> },
    AwaitNewGroup { user: UserInfo, code: Seq<char> },
    AwaitCourse { user: UserInfo, group_id: i32, code: Seq<char> },
    AwaitLink { user: UserInfo, group_id: i32, course_id: i32, code: Seq<char> },
    Finished,
}

impl View for AddCourseState {
    type V = AddCourseStateView;

    open spec fn view(&self) -> AddCourseStateView {
        match self {
            AddCourseState::Start { code } => AddCourseStateView::Start { code: code@ },
            AddCourseState::AwaitGroup { user, code } => AddCourseStateView::AwaitGroup { user: *user, code: code@ },
            AddCourseState::AwaitNewGroup { user, code } => AddCourseStateView::AwaitNewGroup {
                user: *user,
                code: code@,
            },
            AddCourseState::AwaitCourse { user, group_id, code } => AddCourseStateView::AwaitCourse {
                user: *user,
                group_id: *group_id,
                code: code@,
            },
            AddCourseState::AwaitLink { user, group_id, course_id, code } => AddCourseStateView::AwaitLink {
                user: *user,
                group_id: *group_id,
                course_id: *course_id,
                code: code@,
            },
            AddCourseState::Finished => AddCourseStateView::Finished,
        }
    }
}

/// The events that `state` can be handed.
pub open spec fn add_course_accepts(state: AddCourseStateView, event: EventView) -> bool {
    match state {
        AddCourseStateView::Start { .. } => event is Authenticated || event is AuthRejected,
        AddCourseStateView::AwaitGroup { .. } => event is Failed || event is Absent || event is Found,
        AddCourseStateView::AwaitNewGroup { .. } => event is Failed || event is Found,
        AddCourseStateView::AwaitCourse { .. } => event is Failed || event is Found,
        AddCourseStateView::AwaitLink { .. } => event is Failed || event is Completed,
        AddCourseStateView::Finished => false,
    }
}

impl AddCourseState {
    /// Whether this state can be handed `event`.
    pub fn accepts(&self, event: &Event) -> (b: bool)
        ensures
            b == add_course_accepts(self@, event@),
    {
        match self {
            AddCourseState::Start { .. } => matches!(event, Event::Authenticated(_) | Event::AuthRejected),
            AddCourseState::AwaitGroup { .. } => matches!(event, Event::Failed(_) | Event::Absent | Event::Found(_)),
            AddCourseState::AwaitNewGroup { .. } => matches!(event, Event::Failed(_) | Event::Found(_)),
            AddCourseState::AwaitCourse { .. } => matches!(event, Event::Failed(_) | Event::Found(_)),
            AddCourseState::AwaitLink { .. } => matches!(event, Event::Failed(_) | Event::Completed),
            AddCourseState::Finished => false,
        }
    }
}

/// The answer to a caller who is no admin.
pub open spec fn not_admin_message() -> Seq<char> {
    "Only admin can add new course"@
}

/// The next state and action of `POST /courses`.
pub open spec fn add_course_next(state: AddCourseStateView, event: EventView) -> (AddCourseStateView, ActionView) {
    let done = |r: ReplyView| (AddCourseStateView::Finished, ActionView::Respond(r));
    match state {
        AddCourseStateView::Start { code } => match event {
            EventView::Authenticated(user) => if !user.is_admin {
                done(ReplyView::Unauthorized(not_admin_message()))
            } else {
                (AddCourseStateView::AwaitGroup { user, code }, ActionView::FindGroupByCode { code })
            },
            _ => done(ReplyView::AuthFailure),
        },
        AddCourseStateView::AwaitGroup { user, code } => match event {
            EventView::Failed(e) => done(ReplyView::InternalError(e)),
            EventView::Found(g) => (AddCourseStateView::AwaitCourse { user, group_id: g, code }, ActionView::InsertCourse),
            _ => (AddCourseStateView::AwaitNewGroup { user, code }, ActionView::CreateGroup { code }),
        },
        AddCourseStateView::AwaitNewGroup { user, code } => match event {
            EventView::Failed(e) => done(ReplyView::InternalError("Unable to create new course group. Error: "@ + e)),
            EventView::Found(g) => (AddCourseStateView::AwaitCourse { user, group_id: g, code }, ActionView::InsertCourse),
            _ => done(ReplyView::Success),
        },
        AddCourseStateView::AwaitCourse { user, group_id, code } => match event {
            EventView::Failed(e) => done(ReplyView::InternalError("Unable to create new course. Error: "@ + e)),
            EventView::Found(c) => (
                AddCourseStateView::AwaitLink { user, group_id, course_id: c, code },
                ActionView::LinkCourse { group_id, course_id: c },
            ),
            _ => done(ReplyView::Success),
        },
        AddCourseStateView::AwaitLink { .. } => match event {
            EventView::Failed(e) => done(
                ReplyView::InternalError("Unable to link between course and course group. Error: "@ + e),
            ),
            _ => done(ReplyView::Success),
        },
        AddCourseStateView::Finished => done(ReplyView::Success),
    }
}

/// A measure of the work left, which every step lowers.
pub open spec fn add_course_measure(state: AddCourseStateView) -> int {
    match state {
        AddCourseStateView::Start { .. } => 5,
        AddCourseStateView::AwaitGroup { .. } => 4,
        AddCourseStateView::AwaitNewGroup { .. } => 3,
        AddCourseStateView::AwaitCourse { .. } => 2,
        AddCourseStateView::AwaitLink { .. } => 1,
        AddCourseStateView::Finished => 0,
    }
}

/// The caller on whose behalf a state of `POST /courses` acts, once authenticated.
pub open spec fn add_course_caller(state: AddCourseStateView) -> Option<UserInfo> {
    match state {
        AddCourseStateView::AwaitGroup { user, .. } => Some(user),
        AddCourseStateView::AwaitNewGroup { user, .. } => Some(user),
        AddCourseStateView::AwaitCourse { user, .. } => Some(user),
        AddCourseStateView::AwaitLink { user, .. } => Some(user),
        _ => None,
    }
}

/// An action that writes to the database.
pub open spec fn is_write(action: ActionView) -> bool {
    ||| action is CreateGroup
    ||| action is InsertCourse
    ||| action is LinkCourse
    ||| action is InsertReview
    ||| action is LinkReview
    ||| action is UpdateReview
    ||| action is SaveVotes
}

/// Only an admin adds courses: every state of `POST /courses` past authentication acts for
/// an admin, each step keeps it so, and the steps that write come only from such states.
pub proof fn lemma_add_course_admin_only(state: AddCourseStateView, event: EventView)
    requires
        add_course_accepts(state, event),
        add_course_caller(state) matches Some(u) ==> u.is_admin,
    ensures
        add_course_caller(add_course_next(state, event).0) matches Some(u) ==> u.is_admin,
        is_write(add_course_next(state, event).1) ==> (add_course_caller(state) matches Some(u) && u.is_admin),
{
}

/// The stored course groups (id to code) and links (group id, course id), as far as
/// `POST /courses` touches them.
pub struct GroupStore {
    pub groups: Map<i32, Seq<char>>,
    pub links: Set<(i32, i32)>,
}

/// No two stored course groups share a code.
pub open spec fn codes_distinct(store: GroupStore) -> bool {
    forall|g1: i32, g2: i32|
        store.groups.contains_key(g1) && store.groups.contains_key(g2) && #[trigger] store.groups[g1]
            == #[trigger] store.groups[g2] ==> g1 == g2
}

/// The events of `POST /courses` tell the truth about the store: a group found by code has
/// that code, a group reported absent has no group with the code, and a new group or
/// course has an id that nothing stored uses yet.
pub open spec fn add_course_reports(state: AddCourseStateView, event: EventView, store: GroupStore) -> bool {
    match state {
        AddCourseStateView::AwaitGroup { code, .. } => match event {
            EventView::Found(g) => store.groups.contains_key(g) && store.groups[g] == code,
            EventView::Absent => forall|g: i32| #[trigger] store.groups.contains_key(g) ==> store.groups[g] != code,
            _ => true,
        },
        AddCourseStateView::AwaitNewGroup { .. } => match event {
            EventView::Found(g) => !store.groups.contains_key(g),
            _ => true,
        },
        AddCourseStateView::AwaitCourse { .. } => match event {
            EventView::Found(c) => forall|g: i32| !(#[trigger] store.links.contains((g, c))),
            _ => true,
        },
        _ => true,
    }
}

/// The store after the action that `state` waited for reported `event`: a created group
/// has the new course's code, and a completed link is stored. A failed call writes nothing.
pub open spec fn add_course_effect(state: AddCourseStateView, event: EventView, store: GroupStore) -> GroupStore {
    match state {
        AddCourseStateView::AwaitNewGroup { code, .. } => match event {
            EventView::Found(g) => GroupStore { groups: store.groups.insert(g, code), links: store.links },
            _ => store,
        },
        AddCourseStateView::AwaitLink { group_id, course_id, .. } => match event {
            EventView::Completed => GroupStore { groups: store.groups, links: store.links.insert((group_id, course_id)) },
            _ => store,
        },
        _ => store,
    }
}

/// What each state of `POST /courses` knows of the store.
pub open spec fn add_course_store_inv(state: AddCourseStateView, store: GroupStore) -> bool {
    match state {
        AddCourseStateView::AwaitNewGroup { code, .. } => forall|g: i32|
            #[trigger] store.groups.contains_key(g) ==> store.groups[g] != code,
        AddCourseStateView::AwaitCourse { group_id, code, .. } => store.groups.contains_key(group_id)
            && store.groups[group_id] == code,
        AddCourseStateView::AwaitLink { group_id, course_id, code, .. } => {
            &&& store.groups.contains_key(group_id)
            &&& store.groups[group_id] == code
            &&& forall|g: i32| !(#[trigger] store.links.contains((g, course_id)))
        },
        _ => true,
    }
}

/// The course `course_id` is linked to exactly one group, and that group has `code`.
pub open spec fn linked_to_group_with_code(store: GroupStore, course_id: i32, code: Seq<char>) -> bool {
    exists|g: i32|
        #![trigger store.links.contains((g, course_id))]
        {
            &&& store.links.contains((g, course_id))
            &&& store.groups.contains_key(g)
            &&& store.groups[g] == code
            &&& forall|g2: i32| #[trigger] store.links.contains((g2, course_id)) ==> g2 == g
        }
}

/// Course groups keep distinct codes, and a course that `POST /courses` adds successfully
/// is linked to exactly one group, the one with its code: each step, with events that tell
/// the truth about a store that nothing else writes, keeps codes distinct and keeps what the
/// state knows of the store; and the success answer comes only after the link, when it holds.
pub proof fn lemma_add_course_keeps_store(state: AddCourseStateView, event: EventView, store: GroupStore)
    requires
        add_course_accepts(state, event),
        codes_distinct(store),
        add_course_store_inv(state, store),
        add_course_reports(state, event, store),
    ensures
        codes_distinct(add_course_effect(state, event, store)),
        add_course_store_inv(add_course_next(state, event).0, add_course_effect(state, event, store)),
        add_course_next(state, event).1 == ActionView::Respond(ReplyView::Success) ==> (state matches AddCourseStateView::AwaitLink {
            course_id,
            code,
            ..
        } && linked_to_group_with_code(add_course_effect(state, event, store), course_id, code)),
{
    let s2 = add_course_effect(state, event, store);
    match state {
        AddCourseStateView::AwaitNewGroup { code, .. } => {
            if let EventView::Found(g) = event {
                assert forall|g1: i32, g2: i32|
                    s2.groups.contains_key(g1) && s2.groups.contains_key(g2) && #[trigger] s2.groups[g1]
                        == #[trigger] s2.groups[g2] implies g1 == g2 by {
                    if g1 != g && g2 != g {
                        assert(store.groups[g1] == store.groups[g2]);
                    } else if g1 == g && g2 != g {
                        assert(store.groups.contains_key(g2));
                    } else if g2 == g && g1 != g {
                        assert(store.groups.contains_key(g1));
                    }
                }
            }
        },
        AddCourseStateView::AwaitLink { group_id, course_id, code, .. } => {
            if event is Completed {
                assert(s2.links.contains((group_id, course_id)));
                assert forall|g2: i32| #[trigger] s2.links.contains((g2, course_id)) implies g2 == group_id by {
                    if g2 != group_id {
                        assert(store.links.contains((g2, course_id)));
                    }
                }
            }
        },
        _ => {},
    }
}

/// How `POST /courses` starts, for a new course with this `code`: the caller is
/// authenticated.
pub fn add_course_begin(code: String) -> (r: (AddCourseState, Action))
    ensures
        r.0@ == (AddCourseStateView::Start { code: code@ }),
        r.1@ == ActionView::Authenticate,
{
    (AddCourseState::Start { code }, Action::Authenticate)
}

/// One step of `POST /courses`.
pub fn add_course_step(state: AddCourseState, event: Event) -> (r: (AddCourseState, Action))
    requires
        add_course_accepts(state@, event@),
    ensures
        (r.0@, r.1@) == add_course_next(state@, event@),
        r.1@ is Respond <==> r.0@ is Finished,
        add_course_measure(r.0@) < add_course_measure(state@),
{
    match state {
        AddCourseState::Start { code } => match event {
            Event::Authenticated(user) => if !user.is_admin {
                (AddCourseState::Finished, Action::Respond(Reply::Unauthorized(text("Only admin can add new course"))))
            } else {
                let lookup = code.clone();
                (AddCourseState::AwaitGroup { user, code }, Action::FindGroupByCode { code: lookup })
            },
            _ => (AddCourseState::Finished, Action::Respond(Reply::AuthFailure)),
        },
        AddCourseState::AwaitGroup { user, code } => match event {
            Event::Failed(e) => (AddCourseState::Finished, Action::Respond(Reply::InternalError(e))),
            Event::Found(g) => (AddCourseState::AwaitCourse { user, group_id: g, code }, Action::InsertCourse),
            _ => {
                let create = code.clone();
                (AddCourseState::AwaitNewGroup { user, code }, Action::CreateGroup { code: create })
            },
        },
        AddCourseState::AwaitNewGroup { user, code } => match event {
            Event::Failed(e) => {
                let m = text_with_error("Unable to create new course group. Error: ", &e);
                (AddCourseState::Finished, Action::Respond(Reply::InternalError(m)))
            },
            Event::Found(g) => (AddCourseState::AwaitCourse { user, group_id: g, code }, Action::InsertCourse),
            _ => (AddCourseState::Finished, Action::Respond(Reply::Success)),
        },
        AddCourseState::AwaitCourse { user, group_id, code } => match event {
            Event::Failed(e) => {
                let m = text_with_error("Unable to create new course. Error: ", &e);
                (AddCourseState::Finished, Action::Respond(Reply::InternalError(m)))
            },
            Event::Found(c) => (
                AddCourseState::AwaitLink { user, group_id, course_id: c, code },
                Action::LinkCourse { group_id, course_id: c },
            ),
            _ => (AddCourseState::Finished, Action::Respond(Reply::Success)),
        },
        AddCourseState::AwaitLink { .. } => match event {
            Event::Failed(e) => {
                let m = text_with_error("Unable to link between course and course group. Error: ", &e);
                (AddCourseState::Finished, Action::Respond(Reply::InternalError(m)))
            },
            _ => (AddCourseState::Finished, Action::Respond(Reply::Success)),
        },
        AddCourseState::Finished => (AddCourseState::Finished, Action::Respond(Reply::Success)),
    }
}

// ---------------------------------------------------------------------------
// GET /courses/{course_id}: one course with its details.
// ---------------------------------------------------------------------------

/// Where an exchange that shows one course stands.
#[derive(Debug, Clone, Copy, PartialEq, Eq)]
pub enum CourseState {
    /// Waiting for authentication; `requested` is the id of the path, if it reads as one.
    Start { requested: Option<i32> },
    /// Waiting for the course.
    AwaitCourse { course_id: i32, user: UserInfo },
    /// Waiting for the course's details.
    AwaitDetails { course_id: i32 },
    /// The request has been answered.
    Finished,
}

/// The events that `state` can be handed.
pub open spec fn course_accepts(state: CourseState, event: EventView) -> bool {
    match state {
        CourseState::Start { .. } => event is Authenticated || event is AuthRejected,
        CourseState::AwaitCourse { .. } => event is Failed || event is Absent || event is Completed,
        CourseState::AwaitDetails { .. } => event is Failed || event is Completed,
        CourseState::Finished => false,
    }
}

impl CourseState {
    /// Whether this state can be handed `event`.
    pub fn accepts(&self, event: &Event) -> (b: bool)
        ensures
            b == course_accepts(*self, event@),
    {
        match self {
            CourseState::Start { .. } => matches!(event, Event::Authenticated(_) | Event::AuthRejected),
            CourseState::AwaitCourse { .. } => matches!(event, Event::Failed(_) | Event::Absent | Event::Completed),
            CourseState::AwaitDetails { .. } => matches!(event, Event::Failed(_) | Event::Completed),
            CourseState::Finished => false,
        }
    }
}

/// The message of a missing course.
pub open spec fn course_not_found(course_id: i32) -> Seq<char> {
    id_message("Course with id "@, course_id, " is not found."@)
}

/// The next state and action of `GET /courses/{course_id}`.
pub open spec fn course_next(state: CourseState, event: EventView) -> (CourseState, ActionView) {
    let done = |r: ReplyView| (CourseState::Finished, ActionView::Respond(r));
    match state {
        CourseState::Start { requested } => match event {
            EventView::Authenticated(user) => match requested {
                Some(c) => (CourseState::AwaitCourse { course_id: c, user }, ActionView::FetchCourse { course_id: c }),
                None => done(invalid_id_reply()),
            },
            _ => done(ReplyView::AuthFailure),
        },
        CourseState::AwaitCourse { course_id, user } => match event {
            EventView::Failed(e) => done(ReplyView::InternalError(e)),
            EventView::Absent => done(ReplyView::NotFound(course_not_found(course_id))),
            _ => (CourseState::AwaitDetails { course_id }, ActionView::LoadCourse { course_id, user_id: user.id }),
        },
        CourseState::AwaitDetails { course_id } => match event {
            EventView::Failed(e) => done(
                ReplyView::InternalError(id_error_message("Unable to load course with id "@, course_id, ". Error: "@, e)),
            ),
            _ => done(ReplyView::Success),
        },
        CourseState::Finished => done(ReplyView::Success),
    }
}

/// A measure of the work left, which every step lowers.
pub open spec fn course_measure(state: CourseState) -> int {
    match state {
        CourseState::Start { .. } => 3,
        CourseState::AwaitCourse { .. } => 2,
        CourseState::AwaitDetails { .. } => 1,
        CourseState::Finished => 0,
    }
}

/// How `GET /courses/{course_id}` starts: the id of the path is read, then the caller is
/// authenticated.
pub fn get_course_begin(raw_id: &str) -> (r: (CourseState, Action))
    ensures
        r.0 == (CourseState::Start { requested: parse_i32_spec(raw_id@) }),
        r.1@ == ActionView::Authenticate,
{
    (CourseState::Start { requested: parse_i32(raw_id) }, Action::Authenticate)
}

/// One step of `GET /courses/{course_id}`.
pub fn get_course_step(state: CourseState, event: Event) -> (r: (CourseState, Action))
    requires
        course_accepts(state, event@),
    ensures
        (r.0, r.1@) == course_next(state, event@),
        r.1@ is Respond <==> r.0 is Finished,
        course_measure(r.0) < course_measure(state),
{
    match state {
        CourseState::Start { requested } => match event {
            Event::Authenticated(user) => match requested {
                Some(c) => (CourseState::AwaitCourse { course_id: c, user }, Action::FetchCourse { course_id: c }),
                None => (CourseState::Finished, Action::Respond(invalid_id())),
            },
            _ => (CourseState::Finished, Action::Respond(Reply::AuthFailure)),
        },
        CourseState::AwaitCourse { course_id, user } => match event {
            Event::Failed(e) => (CourseState::Finished, Action::Respond(Reply::InternalError(e))),
            Event::Absent => {
                let m = text_with_id("Course with id ", course_id, " is not found.");
                (CourseState::Finished, Action::Respond(Reply::NotFound(m)))
            },
            _ => (CourseState::AwaitDetails { course_id }, Action::LoadCourse { course_id, user_id: user.id }),
        },
        CourseState::AwaitDetails { course_id } => match event {
            Event::Failed(e) => {
                let m = text_with_id_and_error("Unable to load course with id ", course_id, ". Error: ", &e);
                (CourseState::Finished, Action::Respond(Reply::InternalError(m)))
            },
            _ => (CourseState::Finished, Action::Respond(Reply::Success)),
        },
        CourseState::Finished => (CourseState::Finished, Action::Respond(Reply::Success)),
    }
}

} // verus!
