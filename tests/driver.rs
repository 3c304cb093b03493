use coding_fighters::answers::submit_answer;
use coding_fighters::broadcast::{ProgressEvent, Subscription};
use coding_fighters::driver::{start_new_game, SessionDriver, TickOutcome};
use coding_fighters::dto::{QuestionDto, QUESTION_SECONDS};
use coding_fighters::errors::GameServiceErrorKind;
use coding_fighters::model::Game;

fn question(text: &str, good: i8) -> QuestionDto {
    QuestionDto {
        question_text: text.to_string(),
        answer_1: "1".to_string(),
        answer_2: "2".to_string(),
        answer_3: "3".to_string(),
        answer_4: "4".to_string(),
        good_answer_number: good,
        topic: "Rust".to_string(),
        remaining_time: QUESTION_SECONDS,
    }
}

fn clock(d: &SessionDriver) -> (i8, u64) {
    let p = d.progress_dto();
    (p.current_question, p.question_content.remaining_time)
}

#[test]
fn empty_pool_never_starts() {
    let r = SessionDriver::start("g".to_string(), 2, vec![], 20, 0);
    let e = r.err().unwrap();
    assert!(matches!(e.kind, GameServiceErrorKind::PreconditionFailed));
    assert_eq!(e.message, "No question matches the topics of game g");
    assert!(SessionDriver::start_random("g".to_string(), 2, vec![], 20).is_err());
}

#[test]
fn game_without_known_topic_never_starts() {
    let game = Game {
        topics: vec!["Go".to_string()],
        question_number: 3,
        ..Game::default()
    };
    let e = start_new_game("g7".to_string(), &game, QUESTION_SECONDS).err().unwrap();
    assert!(matches!(e.kind, GameServiceErrorKind::PreconditionFailed));
    assert_eq!(e.message, "No question matches the topics of game g7");
}

#[test]
fn start_opens_question_zero_with_full_countdown() {
    let pool = vec![question("a", 1), question("b", 2)];
    let d = SessionDriver::start("g".to_string(), 3, pool, 5, 1).ok().unwrap();
    let p = d.progress_dto();
    assert_eq!(p.game_id, "g");
    assert_eq!(p.current_question, 0);
    assert_eq!(p.question_number, 3);
    assert_eq!(p.question_content.question_text, "b");
    assert_eq!(p.question_content.remaining_time, 5);
    let s = d.snapshot();
    assert_eq!(s.id, "g");
    assert_eq!(s.question_content.good_answer_number, 2);
    assert!(!d.is_over());
}

#[test]
fn start_new_game_uses_the_game_settings() {
    let game = Game {
        topics: vec!["Rust".to_string()],
        question_number: 4,
        ..Game::default()
    };
    let d = start_new_game("64b7f0c2a1d3e4f5a6b7c8d9".to_string(), &game, QUESTION_SECONDS)
        .ok()
        .unwrap();
    let p = d.progress_dto();
    assert_eq!(p.game_id, "64b7f0c2a1d3e4f5a6b7c8d9");
    assert_eq!(p.current_question, 0);
    assert_eq!(p.question_number, 4);
    assert_eq!(p.question_content.question_text, "What is a closure in Rust ?");
    assert_eq!(p.question_content.remaining_time, 20);
}

#[test]
fn countdown_goes_down_by_one_then_resets() {
    let pool = vec![question("a", 1), question("b", 2)];
    let mut d = SessionDriver::start("g".to_string(), 2, pool, 3, 0).ok().unwrap();
    assert_eq!(clock(&d), (0, 3));
    assert_eq!(d.step(1), TickOutcome::Wait);
    assert_eq!(clock(&d), (0, 2));
    assert_eq!(d.step(1), TickOutcome::Wait);
    assert_eq!(clock(&d), (0, 1));
    assert_eq!(d.step(1), TickOutcome::Advance);
    assert_eq!(clock(&d), (0, 0));
    assert_eq!(d.progress_dto().question_content.question_text, "a");
    assert_eq!(d.step(1), TickOutcome::Wait);
    assert_eq!(clock(&d), (1, 3));
    assert_eq!(d.progress_dto().question_content.question_text, "b");
}

#[test]
fn last_question_ends_the_session() {
    let pool = vec![question("a", 1)];
    let mut d = SessionDriver::start("g".to_string(), 1, pool, 1, 0).ok().unwrap();
    assert_eq!(d.step(0), TickOutcome::Advance);
    assert_eq!(clock(&d), (0, 0));
    assert_eq!(d.step(0), TickOutcome::Finished);
    assert_eq!(clock(&d), (1, 0));
    assert!(d.is_over());
    assert_eq!(d.step(0), TickOutcome::Idle);
    assert_eq!(clock(&d), (1, 0));
}

#[test]
fn session_of_no_question_is_over_at_once() {
    let mut d = SessionDriver::start("g".to_string(), 0, vec![question("a", 1)], 20, 0).ok().unwrap();
    assert!(d.is_over());
    assert_eq!(d.step(0), TickOutcome::Idle);
}

#[test]
fn random_steps_keep_to_the_clock() {
    let pool = vec![question("a", 1), question("b", 2), question("c", 3)];
    let mut d = SessionDriver::start_random("g".to_string(), 3, pool, 2).ok().unwrap();
    let mut seen = vec![clock(&d)];
    loop {
        let o = d.step_random();
        seen.push(clock(&d));
        if o == TickOutcome::Finished {
            break;
        }
    }
    assert_eq!(
        seen,
        vec![(0, 2), (0, 1), (0, 0), (1, 2), (1, 1), (1, 0), (2, 2), (2, 1), (2, 0), (3, 0)]
    );
    let text = d.progress_dto().question_content.question_text;
    assert!(text == "a" || text == "b" || text == "c");
}

/// Runs a session as its runner does, counting the one-second waits, with
/// one subscriber polling after each persisted snapshot.
#[test]
fn two_questions_of_one_second_end_after_two_seconds() {
    let pool = vec![question("a", 1), question("b", 2)];
    let mut d = SessionDriver::start("g".to_string(), 2, pool, 1, 0).ok().unwrap();
    let mut sub = Subscription::new();
    let mut game = Game { question_number: 2, ..Game::default() };
    game.is_started = true;
    assert!(sub.on_game(Ok(game)).is_none());
    let mut events = vec![];
    if let Some(e) = sub.on_progress(Ok(d.snapshot())) {
        events.push(e);
    }
    let answer_at_zero = submit_answer("g".to_string(), "bob".to_string(), 0, 1, &d.snapshot());
    assert!(answer_at_zero.is_ok());
    let mut seconds = 0;
    let mut finished = false;
    while !finished {
        seconds += 1;
        loop {
            let o = d.step(1);
            if let Some(e) = sub.on_progress(Ok(d.snapshot())) {
                events.push(e);
            }
            match o {
                TickOutcome::Advance => continue,
                TickOutcome::Wait => break,
                TickOutcome::Finished | TickOutcome::Idle => {
                    finished = true;
                    break;
                }
            }
        }
    }
    assert_eq!(seconds, 2);
    assert!(d.is_over());
    let ends = events.iter().filter(|e| matches!(e, ProgressEvent::End)).count();
    assert_eq!(ends, 1);
    assert!(matches!(events.last(), Some(ProgressEvent::End)));
    assert!(sub.on_progress(Ok(d.snapshot())).is_none());
    let late = submit_answer("g".to_string(), "bob".to_string(), 0, 1, &d.snapshot());
    assert!(matches!(late.err().unwrap().kind, GameServiceErrorKind::Stale));
}

#[test]
fn answer_with_an_old_index_is_stale_once_the_driver_advanced() {
    let pool = vec![question("a", 1), question("b", 2)];
    let mut d = SessionDriver::start("g".to_string(), 2, pool, 1, 0).ok().unwrap();
    let seen = d.snapshot();
    assert_eq!(seen.current_question, 0);
    assert_eq!(d.step(1), TickOutcome::Advance);
    assert_eq!(d.step(1), TickOutcome::Wait);
    let now = d.snapshot();
    assert_eq!(now.current_question, 1);
    let r = submit_answer("g".to_string(), "bob".to_string(), seen.current_question, 2, &now);
    assert!(matches!(r.err().unwrap().kind, GameServiceErrorKind::Stale));
    let ok = submit_answer("g".to_string(), "bob".to_string(), 1, 2, &now).ok().unwrap();
    assert_eq!(ok.question_index, 1);
    assert_eq!(ok.correct_answer, 2);
    assert_eq!(ok.question.question_text, "b");
}
