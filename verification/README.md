# curriculum_board

The decision logic of a course-review board service, verified with Verus.

- `src/text.rs` — reading a base-ten `i32` from a path segment and writing one, with the
  proof that reading back what is written gives the number.
- `src/votes.rs` — up- and down-votes on a review: the toggle rule, and its laws (a vote
  toggles the voter's own vote, leaves everyone else's alone, and keeps the lists in order).
- `src/exchange.rs` — what a request exchange is made of: the caller, the events the outside
  world reports, the actions the library asks for, and the replies.
- `src/board/` — one state machine per route (`groups`, `courses`, `reviews`), each a
  `*_begin` and a `*_step` function whose contract is a transition function over views,
  with the laws of who may do what.
- `src/entity/` — the `course_review` link row.
- `app/` — the HTTP handlers and ORM entities that run these machines against the database.
