use crate::dto::QuestionDto;
use crate::model::Question;
use vstd::prelude::*;

verus! {

/// The shown form of a stored question: the same fields.
pub open spec fn question_dto_of(q: Question) -> QuestionDto {
    QuestionDto {
        question_text: q.question_text,
        answer_1: q.answer_1,
        answer_2: q.answer_2,
        answer_3: q.answer_3,
        answer_4: q.answer_4,
        good_answer_number: q.good_answer_number,
        topic: q.topic,
        remaining_time: q.remaining_time,
    }
}

/// The stored form of a shown question: the same fields.
pub open spec fn question_of(q: QuestionDto) -> Question {
    Question {
        question_text: q.question_text,
        answer_1: q.answer_1,
        answer_2: q.answer_2,
        answer_3: q.answer_3,
        answer_4: q.answer_4,
        good_answer_number: q.good_answer_number,
        topic: q.topic,
        remaining_time: q.remaining_time,
    }
}

pub fn to_dto(question: Question) -> (r: QuestionDto)
    ensures
        r == question_dto_of(question),
{
    QuestionDto {
        question_text: question.question_text,
        answer_1: question.answer_1,
        answer_2: question.answer_2,
        answer_3: question.answer_3,
        answer_4: question.answer_4,
        good_answer_number: question.good_answer_number,
        topic: question.topic,
        remaining_time: question.remaining_time,
    }
}

pub fn to_entity(question: QuestionDto) -> (r: Question)
    ensures
        r == question_of(question),
{
    Question {
        question_text: question.question_text,
        answer_1: question.answer_1,
        answer_2: question.answer_2,
        answer_3: question.answer_3,
        answer_4: question.answer_4,
        good_answer_number: question.good_answer_number,
        topic: question.topic,
        remaining_time: question.remaining_time,
    }
}

} // verus!
