pub mod course_review;
