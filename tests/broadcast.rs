use coding_fighters::broadcast::{ProgressEvent, Subscription, SubscriptionPhase};
use coding_fighters::errors::{process_internal_error, process_not_found_error};
use coding_fighters::model::{Game, GameProgress, Question};

fn snapshot(current: i8, number: i8, remaining: u64) -> GameProgress {
    GameProgress {
        id: "g".to_string(),
        current_question: current,
        question_number: number,
        question_content: Question { remaining_time: remaining, ..Question::default() },
    }
}

fn streaming() -> Subscription {
    let mut s = Subscription::new();
    let game = Game { is_started: true, ..Game::default() };
    assert!(s.on_game(Ok(game)).is_none());
    assert!(s.is_streaming());
    s
}

fn clock(e: Option<ProgressEvent>) -> Option<(i8, u64)> {
    match e {
        Some(ProgressEvent::Progress(p)) => {
            Some((p.current_question, p.question_content.remaining_time))
        }
        _ => None,
    }
}

#[test]
fn waiting_subscription_sends_the_roster() {
    let mut s = Subscription::new();
    let game = Game { users: vec!["ann".to_string(), "bob".to_string()], ..Game::default() };
    match s.on_game(Ok(game)) {
        Some(ProgressEvent::NotStarted(users)) => assert_eq!(users, vec!["ann", "bob"]),
        _ => panic!("expected the roster"),
    }
    assert_eq!(s.phase, SubscriptionPhase::Waiting);
    match s.on_game(Err(process_not_found_error("g"))) {
        Some(ProgressEvent::Unavailable(e)) => {
            assert_eq!(e.message, "Game with id g does not exist")
        }
        _ => panic!("expected the error"),
    }
    assert_eq!(s.phase, SubscriptionPhase::Waiting);
    assert!(s.on_progress(Ok(snapshot(0, 2, 5))).is_none());
}

#[test]
fn snapshots_are_sent_in_clock_order() {
    let mut s = streaming();
    assert_eq!(clock(s.on_progress(Ok(snapshot(0, 2, 5)))), Some((0, 5)));
    assert_eq!(clock(s.on_progress(Ok(snapshot(0, 2, 5)))), Some((0, 5)));
    assert_eq!(clock(s.on_progress(Ok(snapshot(0, 2, 4)))), Some((0, 4)));
    assert!(s.on_progress(Ok(snapshot(0, 2, 6))).is_none());
    match s.on_progress(Err(process_internal_error("store down".to_string()))) {
        Some(ProgressEvent::Unavailable(e)) => assert_eq!(e.message, "store down"),
        _ => panic!("expected the error"),
    }
    assert_eq!(clock(s.on_progress(Ok(snapshot(1, 2, 9)))), Some((1, 9)));
    assert!(s.on_progress(Ok(snapshot(0, 2, 1))).is_none());
    assert_eq!(clock(s.on_progress(Ok(snapshot(1, 2, 0)))), Some((1, 0)));
}

#[test]
fn the_end_is_sent_once() {
    let mut s = streaming();
    assert!(clock(s.on_progress(Ok(snapshot(1, 2, 3)))).is_some());
    assert!(matches!(s.on_progress(Ok(snapshot(2, 2, 0))), Some(ProgressEvent::End)));
    assert!(s.is_ended());
    assert!(s.on_progress(Ok(snapshot(2, 2, 0))).is_none());
    assert!(s.on_progress(Ok(snapshot(1, 2, 3))).is_none());
    assert!(s.on_game(Ok(Game::default())).is_none());
}

#[test]
fn progress_carries_the_snapshot() {
    let mut s = streaming();
    let mut p = snapshot(0, 3, 11);
    p.question_content.question_text = "What is Kotlin ?".to_string();
    match s.on_progress(Ok(p)) {
        Some(ProgressEvent::Progress(dto)) => {
            assert_eq!(dto.game_id, "g");
            assert_eq!(dto.question_number, 3);
            assert_eq!(dto.question_content.question_text, "What is Kotlin ?");
        }
        _ => panic!("expected progress"),
    }
}

#[test]
fn nothing_follows_the_end_not_even_errors() {
    let mut s = streaming();
    assert!(matches!(s.on_progress(Ok(snapshot(1, 1, 0))), Some(ProgressEvent::End)));
    assert!(s.on_progress(Err(process_internal_error("store down".to_string()))).is_none());
}
