use vstd::prelude::*;
use vstd::string::*;

use crate::entity::course_review;
use crate::text::{i32_text, int_text};
use crate::votes::{ReviewVotes, VoterEntry};

verus! {

/// The authenticated caller of a request.
#[derive(Debug, Clone, Copy, PartialEq, Eq, Structural)]
pub struct UserInfo {
    pub id: i32,
    pub is_admin: bool,
}

/// How a request is answered.
#[derive(Debug, Clone, PartialEq, Eq)]
pub enum Reply {
    /// `200 OK` with the data that the request asked for.
    Success,
    /// The answer that authentication produced when it turned the caller away.
    AuthFailure,
    /// `400 Bad Request` with a message.
    BadRequest(String),
    /// `401 Unauthorized` with a message.
    Unauthorized(String),
    /// `404 Not Found` with a message.
    NotFound(String),
    /// `409 Conflict` with a message.
    Conflict(String),
    /// `500 Internal Server Error` with a message.
    InternalError(String),
}

pub enum ReplyView {
    Success,
    AuthFailure,
    BadRequest(Seq<char>),
    Unauthorized(Seq<char>),
    NotFound(Seq<char>),
    Conflict(Seq<char>),
    InternalError(Seq<char>),
}

impl View for Reply {
    type V = ReplyView;

    open spec fn view(&self) -> ReplyView {
        match self {
            Reply::Success => ReplyView::Success,
            Reply::AuthFailure => ReplyView::AuthFailure,
            Reply::BadRequest(m) => ReplyView::BadRequest(m@),
            Reply::Unauthorized(m) => ReplyView::Unauthorized(m@),
            Reply::NotFound(m) => ReplyView::NotFound(m@),
            Reply::Conflict(m) => ReplyView::Conflict(m@),
            Reply::InternalError(m) => ReplyView::InternalError(m@),
        }
    }
}

/// What the outside world reports back after an action.
#[derive(Debug, Clone, PartialEq, Eq)]
pub enum Event {
    /// Authentication accepted the caller.
    Authenticated(UserInfo),
    /// Authentication turned the caller away.
    AuthRejected,
    /// The database call failed, with the error's text.
    Failed(String),
    /// The database call succeeded.
    Completed,
    /// The lookup found nothing.
    Absent,
    /// The lookup or insertion produced this id.
    Found(i32),
    /// The course group was found, with this many courses.
    Counted(usize),
    /// The reviews of a course were loaded; each flag tells whether the caller wrote it.
    Flags(Vec<bool>),
    /// The review was found, with these voters.
    Votes(ReviewVotes),
    /// The history of the review to change: the JSON texts of its entries, of its current
    /// content, and of the current time.
    History { entries: Vec<String>, snapshot: String, time: String },
}

pub enum EventView {
    Authenticated(UserInfo),
    AuthRejected,
    Failed(Seq<char>),
    Completed,
    Absent,
    Found(i32),
    Counted(usize),
    Flags(Seq<bool>),
    Votes((Seq<VoterEntry>, Seq<VoterEntry>)),
    History { entries: Seq<Seq<char>>, snapshot: Seq<char>, time: Seq<char> },
}

impl View for Event {
    type V = EventView;

    open spec fn view(&self) -> EventView {
        match self {
            Event::Authenticated(u) => EventView::Authenticated(*u),
            Event::AuthRejected => EventView::AuthRejected,
            Event::Failed(e) => EventView::Failed(e@),
            Event::Completed => EventView::Completed,
            Event::Absent => EventView::Absent,
            Event::Found(i) => EventView::Found(*i),
            Event::Counted(n) => EventView::Counted(*n),
            Event::Flags(f) => EventView::Flags(f@),
            Event::Votes(v) => EventView::Votes(v@),
            Event::History { entries, snapshot, time } => EventView::History {
                entries: entries.deep_view(),
                snapshot: snapshot@,
                time: time@,
            },
        }
    }
}

/// What the library asks the outside world to do next.
#[derive(Debug, Clone, PartialEq, Eq)]
pub enum Action {
    /// Authenticate the caller.
    Authenticate,
    /// Load every course group with its courses.
    ListGroups,
    /// Load the course group with this id, with its courses.
    FetchGroup { group_id: i32 },
    /// Load the details of the group's course at `index`, as seen by `user_id`.
    LoadGroupCourse { index: usize, user_id: i32 },
    /// Look for the course group that has this code.
    FindGroupByCode { code: String },
    /// Create a course group with this code.
    CreateGroup { code: String },
    /// Insert the new course.
    InsertCourse,
    /// Link the course to the course group.
    LinkCourse { group_id: i32, course_id: i32 },
    /// Load the course with this id.
    FetchCourse { course_id: i32 },
    /// Load the details of the course, as seen by `user_id`.
    LoadCourse { course_id: i32, user_id: i32 },
    /// Load the reviews of the course, flagging those that `user_id` wrote.
    LoadReviews { course_id: i32, user_id: i32 },
    /// Insert the new review, written by `reviewer_id`.
    InsertReview { reviewer_id: i32 },
    /// Insert this row, which links the review to its course.
    LinkReview { link: course_review::Model },
    /// Load the review with this id.
    FetchReview { review_id: i32 },
    /// Read the history of the review, its current content and the time.
    ReadHistory { review_id: i32 },
    /// Store the new content of the review, with these JSON texts as its history.
    UpdateReview { review_id: i32, history: Vec<String> },
    /// Store these voters of the review.
    SaveVotes { review_id: i32, votes: ReviewVotes },
    /// Load the reviews that `user_id` wrote, each with its course.
    ListOwnReviews { user_id: i32 },
    /// Answer the request; the exchange is over.
    Respond(Reply),
}

pub enum ActionView {
    Authenticate,
    ListGroups,
    FetchGroup { group_id: i32 },
    LoadGroupCourse { index: usize, user_id: i32 },
    FindGroupByCode { code: Seq<char> },
    CreateGroup { code: Seq<char> },
    InsertCourse,
    LinkCourse { group_id: i32, course_id: i32 },
    FetchCourse { course_id: i32 },
    LoadCourse { course_id: i32, user_id: i32 },
    LoadReviews { course_id: i32, user_id: i32 },
    InsertReview { reviewer_id: i32 },
    LinkReview { link: course_review::Model },
    FetchReview { review_id: i32 },
    ReadHistory { review_id: i32 },
    UpdateReview { review_id: i32, history: Seq<Seq<char>> },
    SaveVotes { review_id: i32, votes: (Seq<VoterEntry>, Seq<VoterEntry>) },
    ListOwnReviews { user_id: i32 },
    Respond(ReplyView),
}

impl View for Action {
    type V = ActionView;

    open spec fn view(&self) -> ActionView {
        match self {
            Action::Authenticate => ActionView::Authenticate,
            Action::ListGroups => ActionView::ListGroups,
            Action::FetchGroup { group_id } => ActionView::FetchGroup { group_id: *group_id },
            Action::LoadGroupCourse { index, user_id } => ActionView::LoadGroupCourse {
                index: *index,
                user_id: *user_id,
            },
            Action::FindGroupByCode { code } => ActionView::FindGroupByCode { code: code@ },
            Action::CreateGroup { code } => ActionView::CreateGroup { code: code@ },
            Action::InsertCourse => ActionView::InsertCourse,
            Action::LinkCourse { group_id, course_id } => ActionView::LinkCourse {
                group_id: *group_id,
                course_id: *course_id,
            },
            Action::FetchCourse { course_id } => ActionView::FetchCourse { course_id: *course_id },
            Action::LoadCourse { course_id, user_id } => ActionView::LoadCourse {
                course_id: *course_id,
                user_id: *user_id,
            },
            Action::LoadReviews { course_id, user_id } => ActionView::LoadReviews {
                course_id: *course_id,
                user_id: *user_id,
            },
            Action::InsertReview { reviewer_id } => ActionView::InsertReview { reviewer_id: *reviewer_id },
            Action::LinkReview { link } => ActionView::LinkReview { link: *link },
            Action::FetchReview { review_id } => ActionView::FetchReview { review_id: *review_id },
            Action::ReadHistory { review_id } => ActionView::ReadHistory { review_id: *review_id },
            Action::UpdateReview { review_id, history } => ActionView::UpdateReview {
                review_id: *review_id,
                history: history.deep_view(),
            },
            Action::SaveVotes { review_id, votes } => ActionView::SaveVotes {
                review_id: *review_id,
                votes: votes@,
            },
            Action::ListOwnReviews { user_id } => ActionView::ListOwnReviews { user_id: *user_id },
            Action::Respond(r) => ActionView::Respond(r@),
        }
    }
}

/// The answer to a request whose id does not read as an `i32`.
pub open spec fn invalid_id_reply() -> ReplyView {
    ReplyView::BadRequest("Invalid id syntax."@)
}

/// `prefix`, the base-ten text of `id`, then `suffix`.
pub open spec fn id_message(prefix: Seq<char>, id: i32, suffix: Seq<char>) -> Seq<char> {
    prefix + int_text(id as int) + suffix
}

/// `prefix`, the base-ten text of `id`, `middle`, then the error's text.
pub open spec fn id_error_message(prefix: Seq<char>, id: i32, middle: Seq<char>, error: Seq<char>) -> Seq<char> {
    prefix + int_text(id as int) + middle + error
}

/// An owned copy of `s`.
pub fn text(s: &str) -> (r: String)
    ensures
        r@ == s@,
{
    String::from_str(s)
}

/// `prefix`, the base-ten text of `id`, then `suffix`.
pub fn text_with_id(prefix: &str, id: i32, suffix: &str) -> (r: String)
    ensures
        r@ == id_message(prefix@, id, suffix@),
{
    let mut out = String::from_str(prefix);
    let digits = i32_text(id);
    out.append(digits.as_str());
    out.append(suffix);
    out
}

/// `prefix`, then the error's text.
pub fn text_with_error(prefix: &str, error: &String) -> (r: String)
    ensures
        r@ == prefix@ + error@,
{
    let mut out = String::from_str(prefix);
    out.append(error.as_str());
    out
}

/// `prefix`, the base-ten text of `id`, `middle`, then the error's text.
pub fn text_with_id_and_error(prefix: &str, id: i32, middle: &str, error: &String) -> (r: String)
    ensures
        r@ == id_error_message(prefix@, id, middle@, error@),
{
    let mut out = String::from_str(prefix);
    let digits = i32_text(id);
    out.append(digits.as_str());
    out.append(middle);
    out.append(error.as_str());
    out
}

/// The answer to a request whose id does not read as an `i32`.
pub fn invalid_id() -> (r: Reply)
    ensures
        r@ == invalid_id_reply(),
{
    Reply::BadRequest(text("Invalid id syntax."))
}

} // verus!
