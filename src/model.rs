use crate::object_id::ObjectIdBytes;
use vstd::prelude::*;

verus! {

/// A question as stored, with the seconds it had left when stored.
#[derive(Debug, Default, Clone, PartialEq, Eq)]
pub struct Question {
    pub question_text: String,
    pub answer_1: String,
    pub answer_2: String,
    pub answer_3: String,
    pub answer_4: String,
    /// Which of the four answers is correct, from 1 to 4.
    pub good_answer_number: i8,
    pub topic: String,
    pub remaining_time: u64,
}

/// The stored progress of one game: the snapshot that each tick replaces.
#[derive(Debug, Default, Clone, PartialEq, Eq)]
pub struct GameProgress {
    /// The id of the game, as the text of its object id.
    pub id: String,
    pub current_question: i8,
    pub question_number: i8,
    pub question_content: Question,
}

/// A stored answer: the choice of one player against the question that was
/// active when the answer came in, with the correct choice captured then.
#[derive(Debug, Default, Clone)]
pub struct GameAnswer {
    pub game_id: String,
    pub user: String,
    pub answer: i8,
    pub question_index: i8,
    pub correct_answer: i8,
    pub question: Question,
}

/// A stored game: its settings and its roster of players.
#[derive(Debug, Default, Clone)]
pub struct Game {
    pub id: Option<ObjectIdBytes>,
    pub topics: Vec<String>,
    pub question_number: i8,
    pub is_private: bool,
    pub is_started: bool,
    pub creator: Option<String>,
    pub users: Vec<String>,
}

impl GameProgress {
    /// The session has played all its questions: no further tick changes it.
    pub open spec fn is_terminal(self) -> bool {
        self.current_question >= self.question_number
    }
}

/// Some entry of `list` reads `text`.
pub open spec fn lists_entry(list: Seq<String>, text: Seq<char>) -> bool {
    exists|i: int| 0 <= i < list.len() && #[trigger] list[i]@ == text
}

/// Whether some entry of `list` reads `text`.
pub fn has_entry(list: &Vec<String>, text: &str) -> (r: bool)
    ensures
        r == lists_entry(list@, text@),
{
    let wanted = String::from_str(text);
    let mut i: usize = 0;
    while i < list.len()
        invariant
            i <= list@.len(),
            wanted@ == text@,
            forall|j: int| 0 <= j < i ==> list@[j]@ != text@,
        decreases list@.len() - i,
    {
        if list[i] == wanted {
            return true;
        }
        i = i + 1;
    }
    false
}

/// A copy of a question that Verus knows to be equal to it.
pub fn copy_question(q: &Question) -> (r: Question)
    ensures
        r == *q,
{
    Question {
        question_text: q.question_text.clone(),
        answer_1: q.answer_1.clone(),
        answer_2: q.answer_2.clone(),
        answer_3: q.answer_3.clone(),
        answer_4: q.answer_4.clone(),
        good_answer_number: q.good_answer_number,
        topic: q.topic.clone(),
        remaining_time: q.remaining_time,
    }
}

/// A copy of an answer that Verus knows to be equal to it.
pub fn copy_answer(a: &GameAnswer) -> (r: GameAnswer)
    ensures
        r == *a,
{
    GameAnswer {
        game_id: a.game_id.clone(),
        user: a.user.clone(),
        answer: a.answer,
        question_index: a.question_index,
        correct_answer: a.correct_answer,
        question: copy_question(&a.question),
    }
}

} // verus!
