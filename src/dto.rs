use vstd::prelude::*;

verus! {

/// Seconds a question stays open for answers.
pub const QUESTION_SECONDS: u64 = 20;

/// A question as shown to the players, with the seconds it has left.
#[derive(Debug, Default, Clone)]
pub struct QuestionDto {
    pub question_text: String,
    pub answer_1: String,
    pub answer_2: String,
    pub answer_3: String,
    pub answer_4: String,
    /// Which of the four answers is correct, from 1 to 4.
    pub good_answer_number: i8,
    pub topic: String,
    pub remaining_time: u64,
}

/// The progress of one game as shown to the players.
#[derive(Debug, Default, Clone)]
pub struct GameProgressDto {
    pub game_id: String,
    /// Index, from 0, of the question being played.
    pub current_question: i8,
    /// Number of questions the game is played over.
    pub question_number: i8,
    pub question_content: QuestionDto,
}

/// An answer of one player as shown to the players.
#[derive(Debug, Default, Clone)]
pub struct GameAnswerDto {
    pub game_id: String,
    pub user: String,
    pub answer: i8,
    pub question_index: i8,
    pub correct_answer: i8,
    pub question: QuestionDto,
}

/// A game as shown to the players; its id is the text of an object id.
#[derive(Debug, Default, Clone)]
pub struct GameDto {
    pub id: Option<String>,
    pub topics: Vec<String>,
    pub question_number: i8,
    pub is_private: bool,
    pub is_started: bool,
    pub creator: Option<String>,
    pub users: Vec<String>,
}

/// A copy of a question that Verus knows to be equal to it.
pub fn copy_question_dto(q: &QuestionDto) -> (r: QuestionDto)
    ensures
        r == *q,
{
    QuestionDto {
        question_text: q.question_text.clone(),
        answer_1: q.answer_1.clone(),
        answer_2: q.answer_2.clone(),
        answer_3: q.answer_3.clone(),
        answer_4: q.answer_4.clone(),
        good_answer_number: q.good_answer_number,
        topic: q.topic.clone(),
        remaining_time: q.remaining_time,
    }
}

/// A copy of a progress record that Verus knows to be equal to it.
pub fn copy_progress_dto(p: &GameProgressDto) -> (r: GameProgressDto)
    ensures
        r == *p,
{
    GameProgressDto {
        game_id: p.game_id.clone(),
        current_question: p.current_question,
        question_number: p.question_number,
        question_content: copy_question_dto(&p.question_content),
    }
}

} // verus!
