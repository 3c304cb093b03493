use crate::model::{has_entry, lists_entry, Game};
use vstd::prelude::*;

verus! {

/// The data of the event that tells a subscriber the game has not started:
/// a header, then each player of the roster on a line of its own.
pub open spec fn not_started_text(users: Seq<String>) -> Seq<char>
    decreases users.len(),
{
    if users.len() == 0 {
        "NOT STARTED"@
    } else {
        not_started_text(users.drop_last()) + users.last()@ + "\n"@
    }
}

/// Adds `user` to the roster of `game`, unless it is on it already. Says
/// whether it was added, so that the caller knows to persist the game.
pub fn register_user(game: &mut Game, user: String) -> (r: bool)
    ensures
        r == !lists_entry(old(game).users@, user@),
        r ==> final(game).users@ == old(game).users@.push(user),
        !r ==> final(game).users == old(game).users,
        final(game).id == old(game).id,
        final(game).topics == old(game).topics,
        final(game).question_number == old(game).question_number,
        final(game).is_private == old(game).is_private,
        final(game).is_started == old(game).is_started,
        final(game).creator == old(game).creator,
{
    if has_entry(&game.users, user.as_str()) {
        false
    } else {
        game.users.push(user);
        true
    }
}

/// Whether a request to start `game` starts it: a game starts once, and a
/// request for a game that has started already is ignored.
pub fn accepts_start(game: &Game) -> (r: bool)
    ensures
        r == !game.is_started,
{
    !game.is_started
}

/// The data of the event that tells a subscriber the game has not started.
pub fn not_started_data(users: &Vec<String>) -> (r: String)
    ensures
        r@ == not_started_text(users@),
{
    let mut text = String::from_str("NOT STARTED");
    let mut i: usize = 0;
    while i < users.len()
        invariant
            i <= users@.len(),
            text@ == not_started_text(users@.subrange(0, i as int)),
        decreases users@.len() - i,
    {
        proof {
            let next = users@.subrange(0, i + 1);
            assert(next.drop_last() == users@.subrange(0, i as int));
            assert(next.last() == users@[i as int]);
        }
        text = text.concat(users[i].as_str()).concat("\n");
        i = i + 1;
    }
    assert(users@.subrange(0, users@.len() as int) == users@);
    text
}

/// The data of the event that ends a subscription.
pub fn end_data() -> (r: String)
    ensures
        r@ == "END"@,
{
    String::from_str("END")
}

} // verus!
