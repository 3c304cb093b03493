use coding_fighters::errors::{
    locked_error, no_question_error, process_internal_error, process_not_found_error,
    process_service_error, require_found, stale_error, GameServiceErrorKind,
};

#[test]
fn not_found_names_the_game() {
    let e = process_not_found_error("abc");
    assert_eq!(e.message, "Game with id abc does not exist");
    assert!(matches!(e.kind, GameServiceErrorKind::NotFound));
    assert_eq!(process_service_error(&e), 404);
}

#[test]
fn each_kind_has_its_status() {
    assert_eq!(process_service_error(&locked_error("g")), 423);
    assert_eq!(process_service_error(&no_question_error("g")), 412);
    assert_eq!(process_service_error(&stale_error("g")), 409);
    assert_eq!(process_service_error(&process_internal_error("down".to_string())), 500);
}

#[test]
fn messages_name_the_game() {
    assert_eq!(locked_error("g").message, "Answers of game g are locked until the game ends");
    assert_eq!(no_question_error("g").message, "No question matches the topics of game g");
    assert_eq!(
        stale_error("g").message,
        "Answer for game g targets a question that is no longer active"
    );
    let e = process_internal_error("connection refused".to_string());
    assert_eq!(e.message, "connection refused");
    assert!(matches!(e.kind, GameServiceErrorKind::StoreUnavailable));
}

#[test]
fn require_found_passes_records_through() {
    assert_eq!(require_found(Some(7), "g").unwrap(), 7);
    let e = require_found::<i32>(None, "g").unwrap_err();
    assert!(matches!(e.kind, GameServiceErrorKind::NotFound));
    assert_eq!(e.message, "Game with id g does not exist");
}
