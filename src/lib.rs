//! Session progression engine of a multiplayer trivia game: the question pool,
//! the state machine that counts a session down question by question, the
//! per-subscriber progress cursor, and the intake of player answers.

pub mod answers;
pub mod broadcast;
pub mod driver;
pub mod dto;
pub mod errors;
pub mod lobby;
pub mod mapper;
pub mod model;
pub mod object_id;
pub mod question_catalog;
pub mod question_pool;
