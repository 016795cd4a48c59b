use vstd::prelude::*;

verus! {

/// A row of the `course_review` table: the link between a course and one of its reviews.
/// Both columns together are the primary key.
#[derive(Clone, Copy, Debug, PartialEq, Eq, Structural)]
pub struct Model {
    pub course_id: i32,
    pub review_id: i32,
}

/// The tables that a `course_review` row points into: a row belongs to a course and to a
/// review, and goes away when either does.
#[derive(Copy, Clone, Debug, PartialEq, Eq, Structural)]
pub enum Relation {
    Course,
    Review,
}

} // verus!
