//! Conversions between the records the store holds and those the players see.

pub mod game_mapper;
pub mod question_mapper;
