use coding_fighters::lobby::{accepts_start, end_data, not_started_data, register_user};
use coding_fighters::model::Game;

#[test]
fn new_player_joins_the_roster() {
    let mut game = Game { question_number: 3, ..Game::default() };
    assert!(register_user(&mut game, "ann".to_string()));
    assert!(register_user(&mut game, "bob".to_string()));
    assert_eq!(game.users, vec!["ann", "bob"]);
    assert_eq!(game.question_number, 3);
}

#[test]
fn known_player_is_not_added_twice() {
    let mut game = Game { users: vec!["ann".to_string()], ..Game::default() };
    assert!(!register_user(&mut game, "ann".to_string()));
    assert_eq!(game.users, vec!["ann"]);
}

#[test]
fn roster_text_puts_each_player_on_a_line() {
    let users = vec!["ann".to_string(), "bob".to_string()];
    assert_eq!(not_started_data(&users), "NOT STARTEDann\nbob\n");
    assert_eq!(not_started_data(&vec![]), "NOT STARTED");
    assert_eq!(end_data(), "END");
}

#[test]
fn a_game_starts_once() {
    let mut game = Game::default();
    assert!(accepts_start(&game));
    game.is_started = true;
    assert!(!accepts_start(&game));
}
