pub mod text;
pub mod votes;
pub mod exchange;
pub mod board;
pub mod entity;
