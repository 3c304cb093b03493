use coding_fighters::dto::{GameAnswerDto, GameDto, GameProgressDto, QuestionDto};
use coding_fighters::mapper::game_mapper::{
    answer_to_entity, entity_to_answer, entity_to_progress, progress_to_entity, to_dto, to_entity,
};
use coding_fighters::mapper::question_mapper;
use coding_fighters::model::Question;

fn question_dto() -> QuestionDto {
    QuestionDto {
        question_text: "What is Kotlin ?".to_string(),
        answer_1: "a".to_string(),
        answer_2: "b".to_string(),
        answer_3: "c".to_string(),
        answer_4: "d".to_string(),
        good_answer_number: 3,
        topic: "Kotlin".to_string(),
        remaining_time: 12,
    }
}

#[test]
fn question_round_trip_keeps_fields() {
    let entity = question_mapper::to_entity(question_dto());
    assert_eq!(
        entity,
        Question {
            question_text: "What is Kotlin ?".to_string(),
            answer_1: "a".to_string(),
            answer_2: "b".to_string(),
            answer_3: "c".to_string(),
            answer_4: "d".to_string(),
            good_answer_number: 3,
            topic: "Kotlin".to_string(),
            remaining_time: 12,
        }
    );
    let back = question_mapper::to_dto(entity);
    assert_eq!(back.question_text, "What is Kotlin ?");
    assert_eq!(back.remaining_time, 12);
    assert_eq!(back.good_answer_number, 3);
}

#[test]
fn progress_round_trip_keeps_fields() {
    let dto = GameProgressDto {
        game_id: "g1".to_string(),
        current_question: 1,
        question_number: 4,
        question_content: question_dto(),
    };
    let entity = progress_to_entity(dto);
    assert_eq!(entity.id, "g1");
    assert_eq!(entity.current_question, 1);
    assert_eq!(entity.question_number, 4);
    assert_eq!(entity.question_content.remaining_time, 12);
    let back = entity_to_progress(entity);
    assert_eq!(back.game_id, "g1");
    assert_eq!(back.question_content.topic, "Kotlin");
}

#[test]
fn answer_round_trip_keeps_fields() {
    let dto = GameAnswerDto {
        game_id: "g1".to_string(),
        user: "bob".to_string(),
        answer: 2,
        question_index: 1,
        correct_answer: 3,
        question: question_dto(),
    };
    let entity = answer_to_entity(dto);
    assert_eq!(entity.user, "bob");
    assert_eq!(entity.answer, 2);
    assert_eq!(entity.correct_answer, 3);
    let back = entity_to_answer(entity);
    assert_eq!(back.game_id, "g1");
    assert_eq!(back.question_index, 1);
    assert_eq!(back.question.answer_4, "d");
}

#[test]
fn game_id_is_written_in_lowercase_hex() {
    let dto = GameDto {
        id: Some("64B7F0C2A1D3E4F5A6B7C8D9".to_string()),
        topics: vec!["Java".to_string()],
        question_number: 10,
        is_private: false,
        is_started: false,
        creator: Some("bob".to_string()),
        users: vec!["ann".to_string()],
    };
    let game = to_entity(dto);
    assert_eq!(
        game.id.unwrap().bytes,
        [0x64, 0xb7, 0xf0, 0xc2, 0xa1, 0xd3, 0xe4, 0xf5, 0xa6, 0xb7, 0xc8, 0xd9]
    );
    assert_eq!(game.question_number, 10);
    let back = to_dto(game);
    assert_eq!(back.id, Some("64b7f0c2a1d3e4f5a6b7c8d9".to_string()));
    assert_eq!(back.topics, vec!["Java"]);
    assert_eq!(back.creator, Some("bob".to_string()));
    assert_eq!(back.users, vec!["ann"]);
}

#[test]
fn game_without_id_stays_without() {
    let dto = GameDto { question_number: 2, ..GameDto::default() };
    let game = to_entity(dto);
    assert!(game.id.is_none());
    assert_eq!(game.question_number, 2);
}

#[test]
fn canonical_game_id_survives_the_round_trip() {
    let text = "0123456789abcdef01234567".to_string();
    let dto = GameDto { id: Some(text.clone()), ..GameDto::default() };
    assert_eq!(to_dto(to_entity(dto)).id, Some(text));
}
