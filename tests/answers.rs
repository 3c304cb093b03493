use coding_fighters::answers::{
    answer_for_progress, list_answers, record_answer, resolve_answers, submit_answer,
};
use coding_fighters::errors::GameServiceErrorKind;
use coding_fighters::model::{GameAnswer, GameProgress, Question};

fn question(text: &str, good: i8) -> Question {
    Question {
        question_text: text.to_string(),
        answer_1: "1".to_string(),
        answer_2: "2".to_string(),
        answer_3: "3".to_string(),
        answer_4: "4".to_string(),
        good_answer_number: good,
        topic: "Java".to_string(),
        remaining_time: 7,
    }
}

fn progress(current: i8, number: i8) -> GameProgress {
    GameProgress {
        id: "g".to_string(),
        current_question: current,
        question_number: number,
        question_content: question("q", 2),
    }
}

fn answer(user: &str, index: i8, choice: i8) -> GameAnswer {
    GameAnswer {
        game_id: "g".to_string(),
        user: user.to_string(),
        answer: choice,
        question_index: index,
        correct_answer: 2,
        question: question("q", 2),
    }
}

#[test]
fn answer_is_bound_to_the_active_question() {
    let a = answer_for_progress("g".to_string(), "bob".to_string(), 4, &progress(1, 3));
    assert_eq!(a.game_id, "g");
    assert_eq!(a.user, "bob");
    assert_eq!(a.answer, 4);
    assert_eq!(a.question_index, 1);
    assert_eq!(a.correct_answer, 2);
    assert_eq!(a.question, question("q", 2));
}

#[test]
fn submit_accepts_the_active_index_only() {
    let p = progress(1, 3);
    assert!(submit_answer("g".to_string(), "bob".to_string(), 1, 3, &p).is_ok());
    let e = submit_answer("g".to_string(), "bob".to_string(), 0, 3, &p).err().unwrap();
    assert!(matches!(e.kind, GameServiceErrorKind::Stale));
    assert!(submit_answer("g".to_string(), "bob".to_string(), 2, 3, &p).is_err());
}

#[test]
fn submit_after_the_end_is_stale() {
    let p = progress(3, 3);
    assert!(submit_answer("g".to_string(), "bob".to_string(), 3, 1, &p).is_err());
}

#[test]
fn second_answer_to_a_question_replaces_the_first() {
    let mut book = vec![];
    record_answer(&mut book, answer("bob", 0, 1));
    record_answer(&mut book, answer("bob", 0, 3));
    assert_eq!(book.len(), 1);
    assert_eq!(book[0].answer, 3);
}

#[test]
fn answers_with_other_keys_are_kept_apart() {
    let mut book = vec![];
    record_answer(&mut book, answer("bob", 0, 1));
    record_answer(&mut book, answer("ann", 0, 2));
    record_answer(&mut book, answer("bob", 1, 4));
    let mut other_game = answer("bob", 0, 4);
    other_game.game_id = "h".to_string();
    record_answer(&mut book, other_game);
    assert_eq!(book.len(), 4);
    record_answer(&mut book, answer("ann", 0, 1));
    assert_eq!(book.len(), 4);
    assert_eq!(book[1].user, "ann");
    assert_eq!(book[1].answer, 1);
}

#[test]
fn resolving_keeps_the_last_answer_at_the_first_place() {
    let recorded = vec![answer("bob", 0, 1), answer("ann", 0, 2), answer("bob", 0, 3)];
    let resolved = resolve_answers(&recorded);
    assert_eq!(resolved.len(), 2);
    assert_eq!(resolved[0].user, "bob");
    assert_eq!(resolved[0].answer, 3);
    assert_eq!(resolved[1].user, "ann");
    assert!(resolve_answers(&vec![]).is_empty());
}

#[test]
fn answers_are_locked_before_the_end() {
    let recorded = vec![answer("bob", 0, 1)];
    let e = list_answers(&progress(1, 2), &recorded).err().unwrap();
    assert!(matches!(e.kind, GameServiceErrorKind::Locked));
    assert_eq!(e.message, "Answers of game g are locked until the game ends");
    assert!(list_answers(&progress(0, 1), &vec![]).is_err());
}

#[test]
fn answers_after_the_end_are_resolved() {
    let recorded = vec![
        answer("bob", 0, 1),
        answer("ann", 0, 2),
        answer("bob", 1, 2),
        answer("bob", 0, 4),
    ];
    let listed = list_answers(&progress(2, 2), &recorded).ok().unwrap();
    assert_eq!(listed.len(), 3);
    assert_eq!(listed[0].user, "bob");
    assert_eq!(listed[0].question_index, 0);
    assert_eq!(listed[0].answer, 4);
    assert_eq!(listed[1].user, "ann");
    assert_eq!(listed[2].question_index, 1);
    assert_eq!(listed[2].question.question_text, "q");
}

#[test]
fn answers_of_a_game_without_answers_are_empty() {
    assert!(list_answers(&progress(2, 2), &vec![]).ok().unwrap().is_empty());
}
