use crate::dto::{GameAnswerDto, GameDto, GameProgressDto};
use crate::mapper::question_mapper::{self, question_dto_of, question_of};
use crate::model::{Game, GameAnswer, GameProgress};
use crate::object_id::{
    encodes_lower_hex, hex_decode, is_canonical_object_id_text, is_object_id_text,
    lemma_object_id_text_round_trip, object_id_to_text, parse_object_id,
};
use vstd::prelude::*;

verus! {

/// The stored form of a shown progress record.
pub open spec fn progress_of(p: GameProgressDto) -> GameProgress {
    GameProgress {
        id: p.game_id,
        current_question: p.current_question,
        question_number: p.question_number,
        question_content: question_of(p.question_content),
    }
}

/// The shown form of a stored progress record.
pub open spec fn progress_dto_of(p: GameProgress) -> GameProgressDto {
    GameProgressDto {
        game_id: p.id,
        current_question: p.current_question,
        question_number: p.question_number,
        question_content: question_dto_of(p.question_content),
    }
}

/// The stored form of a shown answer.
pub open spec fn answer_of(a: GameAnswerDto) -> GameAnswer {
    GameAnswer {
        game_id: a.game_id,
        user: a.user,
        answer: a.answer,
        question_index: a.question_index,
        correct_answer: a.correct_answer,
        question: question_of(a.question),
    }
}

/// The shown form of a stored answer.
pub open spec fn answer_dto_of(a: GameAnswer) -> GameAnswerDto {
    GameAnswerDto {
        game_id: a.game_id,
        user: a.user,
        answer: a.answer,
        question_index: a.question_index,
        correct_answer: a.correct_answer,
        question: question_dto_of(a.question),
    }
}

/// The stored form of a shown game, but for its id, which changes from text
/// to an object id.
pub fn to_entity(game_dto: GameDto) -> (r: Game)
    requires
        game_dto.id matches Some(text) ==> is_object_id_text(text@),
    ensures
        r.id is Some <==> game_dto.id is Some,
        game_dto.id matches Some(text) ==> (r.id matches Some(id) && id.bytes@ == hex_decode(
            text@,
        )),
        r.topics == game_dto.topics,
        r.question_number == game_dto.question_number,
        r.is_private == game_dto.is_private,
        r.is_started == game_dto.is_started,
        r.creator == game_dto.creator,
        r.users == game_dto.users,
{
    let id = match &game_dto.id {
        Some(text) => parse_object_id(text.as_str()),
        None => None,
    };
    Game {
        id,
        topics: game_dto.topics,
        question_number: game_dto.question_number,
        is_private: game_dto.is_private,
        is_started: game_dto.is_started,
        creator: game_dto.creator,
        users: game_dto.users,
    }
}

/// The shown form of a stored game, whose id is written as hex text.
pub fn to_dto(game: Game) -> (r: GameDto)
    requires
        game.id is Some,
    ensures
        r.id matches Some(text) && game.id matches Some(id) && encodes_lower_hex(
            text@,
            id.bytes@,
        ),
        r.topics == game.topics,
        r.question_number == game.question_number,
        r.is_private == game.is_private,
        r.is_started == game.is_started,
        r.creator == game.creator,
        r.users == game.users,
{
    let id = match &game.id {
        Some(oid) => object_id_to_text(oid),
        None => String::new(),
    };
    GameDto {
        id: Some(id),
        topics: game.topics,
        question_number: game.question_number,
        is_private: game.is_private,
        is_started: game.is_started,
        creator: game.creator,
        users: game.users,
    }
}

/// The id of a game, written as canonical text, comes back unchanged from
/// `to_entity` followed by `to_dto`.
pub proof fn lemma_game_id_round_trip(game_dto: GameDto, game: Game, shown: GameDto)
    requires
        game_dto.id matches Some(text) && is_canonical_object_id_text(text@),
        game.id matches Some(id) && id.bytes@ == hex_decode(game_dto.id->0@),
        shown.id matches Some(text) && encodes_lower_hex(text@, game.id->0.bytes@),
    ensures
        shown.id->0@ == game_dto.id->0@,
{
    lemma_object_id_text_round_trip(game_dto.id->0@, shown.id->0@);
}

pub fn progress_to_entity(game_progress_dto: GameProgressDto) -> (r: GameProgress)
    ensures
        r == progress_of(game_progress_dto),
{
    let question = game_progress_dto.question_content;
    GameProgress {
        id: game_progress_dto.game_id,
        current_question: game_progress_dto.current_question,
        question_number: game_progress_dto.question_number,
        question_content: question_mapper::to_entity(question),
    }
}

pub fn entity_to_progress(game_progress: GameProgress) -> (r: GameProgressDto)
    ensures
        r == progress_dto_of(game_progress),
{
    let question = game_progress.question_content;
    GameProgressDto {
        game_id: game_progress.id,
        current_question: game_progress.current_question,
        question_number: game_progress.question_number,
        question_content: question_mapper::to_dto(question),
    }
}

pub fn answer_to_entity(game_answer_dto: GameAnswerDto) -> (r: GameAnswer)
    ensures
        r == answer_of(game_answer_dto),
{
    GameAnswer {
        game_id: game_answer_dto.game_id,
        answer: game_answer_dto.answer,
        user: game_answer_dto.user,
        question_index: game_answer_dto.question_index,
        correct_answer: game_answer_dto.correct_answer,
        question: question_mapper::to_entity(game_answer_dto.question),
    }
}

pub fn entity_to_answer(game_answer: GameAnswer) -> (r: GameAnswerDto)
    ensures
        r == answer_dto_of(game_answer),
{
    GameAnswerDto {
        game_id: game_answer.game_id,
        answer: game_answer.answer,
        user: game_answer.user,
        question_index: game_answer.question_index,
        correct_answer: game_answer.correct_answer,
        question: question_mapper::to_dto(game_answer.question),
    }
}

} // verus!
