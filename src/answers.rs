use crate::dto::GameAnswerDto;
use crate::errors::{
    locked_error, locked_message, stale_error, stale_message, GameServiceError,
    GameServiceErrorKind,
};
use crate::mapper::game_mapper::{answer_dto_of, entity_to_answer};
use crate::model::{copy_answer, copy_question, GameAnswer, GameProgress};
use vstd::prelude::*;

verus! {

/// Two answers were given by the same player, in the same game, against the
/// same question index.
pub open spec fn same_key(a: GameAnswer, b: GameAnswer) -> bool {
    &&& a.game_id@ == b.game_id@
    &&& a.user@ == b.user@
    &&& a.question_index == b.question_index
}

/// No two answers of `book` share a key.
pub open spec fn unique_keys(book: Seq<GameAnswer>) -> bool {
    forall|i: int, j: int|
        0 <= i < book.len() && 0 <= j < book.len() && i != j ==> !same_key(
            #[trigger] book[i],
            #[trigger] book[j],
        )
}

/// `book` holds an answer with the key of `a`.
pub open spec fn has_key(book: Seq<GameAnswer>, a: GameAnswer) -> bool {
    exists|i: int| 0 <= i < book.len() && same_key(#[trigger] book[i], a)
}

/// `book` after recording `a`: `a` takes the place of the answer with its key,
/// or, where there is none, comes last.
pub open spec fn overwrite(book: Seq<GameAnswer>, a: GameAnswer) -> Seq<GameAnswer> {
    if has_key(book, a) {
        book.update(choose|i: int| 0 <= i < book.len() && same_key(#[trigger] book[i], a), a)
    } else {
        book.push(a)
    }
}

/// The answers that stand after recording each of `recorded` in turn: for each
/// key, the last answer given, at the place of the first.
pub open spec fn resolve(recorded: Seq<GameAnswer>) -> Seq<GameAnswer>
    decreases recorded.len(),
{
    if recorded.len() == 0 {
        Seq::empty()
    } else {
        overwrite(resolve(recorded.drop_last()), recorded.last())
    }
}

/// The answer of `user`, choosing `answer`, against the question active in
/// `progress`.
pub open spec fn answer_against(
    game_id: String,
    user: String,
    answer: i8,
    progress: GameProgress,
) -> GameAnswer {
    GameAnswer {
        game_id,
        user,
        answer,
        question_index: progress.current_question,
        correct_answer: progress.question_content.good_answer_number,
        question: progress.question_content,
    }
}

/// Recording an answer keeps the keys unique, and leaves `a` as the one answer
/// with its key.
pub proof fn lemma_overwrite(book: Seq<GameAnswer>, a: GameAnswer)
    requires
        unique_keys(book),
    ensures
        unique_keys(overwrite(book, a)),
        ({
            let after = overwrite(book, a);
            exists|i: int|
                0 <= i < after.len() && after[i] == a && forall|j: int|
                    0 <= j < after.len() && j != i ==> !same_key(#[trigger] after[j], a)
        }),
        has_key(book, a) ==> overwrite(book, a).len() == book.len(),
        !has_key(book, a) ==> overwrite(book, a).len() == book.len() + 1,
{
    let after = overwrite(book, a);
    if has_key(book, a) {
        let k = choose|i: int| 0 <= i < book.len() && same_key(#[trigger] book[i], a);
        assert forall|j: int| 0 <= j < after.len() && j != k implies !same_key(
            #[trigger] after[j],
            a,
        ) by {
            assert(!same_key(book[j], book[k]));
        }
        assert forall|i: int, j: int|
            0 <= i < after.len() && 0 <= j < after.len() && i != j implies !same_key(
            #[trigger] after[i],
            #[trigger] after[j],
        ) by {
            if i != k && j != k {
                assert(!same_key(book[i], book[j]));
            } else if i == k {
                assert(!same_key(book[j], book[k]));
            } else {
                assert(!same_key(book[i], book[k]));
            }
        }
        assert(after[k] == a);
    } else {
        let k = book.len() as int;
        assert forall|j: int| 0 <= j < after.len() && j != k implies !same_key(
            #[trigger] after[j],
            a,
        ) by {
            assert(after[j] == book[j]);
        }
        assert forall|i: int, j: int|
            0 <= i < after.len() && 0 <= j < after.len() && i != j implies !same_key(
            #[trigger] after[i],
            #[trigger] after[j],
        ) by {
            if i != k && j != k {
                assert(!same_key(book[i], book[j]));
            } else if i == k {
                assert(!same_key(book[j], a));
            } else {
                assert(!same_key(book[i], a));
            }
        }
        assert(after[k] == a);
    }
}

/// A player who answers the same question twice leaves exactly one answer
/// with that key, and it is the second one.
pub proof fn lemma_resubmission_overwrites(
    book: Seq<GameAnswer>,
    first: GameAnswer,
    second: GameAnswer,
)
    requires
        unique_keys(book),
        same_key(first, second),
    ensures
        ({
            let after = overwrite(overwrite(book, first), second);
            &&& unique_keys(after)
            &&& after.len() == overwrite(book, first).len()
            &&& exists|i: int|
                0 <= i < after.len() && after[i] == second && forall|j: int|
                    0 <= j < after.len() && j != i ==> !same_key(#[trigger] after[j], second)
        }),
{
    let middle = overwrite(book, first);
    lemma_overwrite(book, first);
    lemma_overwrite(middle, second);
    let i = choose|i: int|
        0 <= i < middle.len() && middle[i] == first && forall|j: int|
            0 <= j < middle.len() && j != i ==> !same_key(#[trigger] middle[j], first);
    assert(same_key(middle[i], second));
}

/// The answers of `resolve(recorded)` have unique keys.
pub proof fn lemma_resolve_unique(recorded: Seq<GameAnswer>)
    ensures
        unique_keys(resolve(recorded)),
    decreases recorded.len(),
{
    if recorded.len() > 0 {
        lemma_resolve_unique(recorded.drop_last());
        lemma_overwrite(resolve(recorded.drop_last()), recorded.last());
    }
}

/// The answer of `user`, choosing `answer`, bound to the question active in
/// `progress` when it came in: its index, its correct answer and its content.
pub fn answer_for_progress(game_id: String, user: String, answer: i8, progress: &GameProgress) -> (r:
    GameAnswer)
    ensures
        r == answer_against(game_id, user, answer, *progress),
{
    GameAnswer {
        game_id,
        user,
        answer,
        question_index: progress.current_question,
        correct_answer: progress.question_content.good_answer_number,
        question: copy_question(&progress.question_content),
    }
}

/// Takes the answer of `user`, choosing `answer`, that the player sent while
/// seeing question `claimed_index`. It is refused as stale when that question
/// is no longer the active one of `progress`, or the game has ended.
pub fn submit_answer(
    game_id: String,
    user: String,
    claimed_index: i8,
    answer: i8,
    progress: &GameProgress,
) -> (r: Result<GameAnswer, GameServiceError>)
    ensures
        r is Err <==> (claimed_index != progress.current_question || progress.is_terminal()),
        r matches Err(e) ==> e.kind == GameServiceErrorKind::Stale && e.message@ == stale_message(
            game_id@,
        ),
        r matches Ok(a) ==> a == answer_against(game_id, user, answer, *progress),
{
    if claimed_index != progress.current_question || progress.current_question
        >= progress.question_number {
        return Err(stale_error(game_id.as_str()));
    }
    Ok(answer_for_progress(game_id, user, answer, progress))
}

/// Records `a` in `book`: it replaces the answer with its key, if there is
/// one, else it is added at the end.
pub fn record_answer(book: &mut Vec<GameAnswer>, a: GameAnswer)
    requires
        unique_keys(old(book)@),
    ensures
        final(book)@ == overwrite(old(book)@, a),
        unique_keys(final(book)@),
{
    proof {
        lemma_overwrite(book@, a);
    }
    let mut i: usize = 0;
    while i < book.len()
        invariant
            i <= book@.len(),
            book@ == old(book)@,
            unique_keys(book@),
            forall|j: int| 0 <= j < i ==> !same_key(#[trigger] book@[j], a),
        decreases book@.len() - i,
    {
        if book[i].game_id == a.game_id && book[i].user == a.user && book[i].question_index
            == a.question_index {
            proof {
                let k = choose|k: int| 0 <= k < book@.len() && same_key(#[trigger] book@[k], a);
                if k != i {
                    assert(!same_key(book@[k], book@[i as int]));
                }
            }
            book.set(i, a);
            return;
        }
        i = i + 1;
    }
    book.push(a);
}

/// The answers that stand after recording each of `recorded` in turn.
pub fn resolve_answers(recorded: &Vec<GameAnswer>) -> (r: Vec<GameAnswer>)
    ensures
        r@ == resolve(recorded@),
        unique_keys(r@),
{
    let mut book: Vec<GameAnswer> = Vec::new();
    let mut i: usize = 0;
    while i < recorded.len()
        invariant
            i <= recorded@.len(),
            book@ == resolve(recorded@.subrange(0, i as int)),
            unique_keys(book@),
        decreases recorded@.len() - i,
    {
        proof {
            let next = recorded@.subrange(0, i + 1);
            assert(next.drop_last() == recorded@.subrange(0, i as int));
            assert(next.last() == recorded@[i as int]);
        }
        record_answer(&mut book, copy_answer(&recorded[i]));
        i = i + 1;
    }
    assert(recorded@.subrange(0, recorded@.len() as int) == recorded@);
    book
}

/// The answers of a game, once it has ended: each player's last answer to
/// each question, as shown to the players. Before the end they are locked.
pub fn list_answers(progress: &GameProgress, recorded: &Vec<GameAnswer>) -> (r: Result<
    Vec<GameAnswerDto>,
    GameServiceError,
>)
    ensures
        r is Err <==> !progress.is_terminal(),
        r matches Err(e) ==> e.kind == GameServiceErrorKind::Locked && e.message@
            == locked_message(progress.id@),
        r matches Ok(v) ==> v@ == resolve(recorded@).map_values(|a: GameAnswer| answer_dto_of(a)),
{
    if progress.current_question < progress.question_number {
        return Err(locked_error(progress.id.as_str()));
    }
    let resolved = resolve_answers(recorded);
    let mut out: Vec<GameAnswerDto> = Vec::new();
    let mut i: usize = 0;
    while i < resolved.len()
        invariant
            i <= resolved@.len(),
            out@ == resolved@.subrange(0, i as int).map_values(|a: GameAnswer| answer_dto_of(a)),
        decreases resolved@.len() - i,
    {
        out.push(entity_to_answer(copy_answer(&resolved[i])));
        i = i + 1;
        assert(out@ =~= resolved@.subrange(0, i as int).map_values(
            |a: GameAnswer| answer_dto_of(a),
        ));
    }
    assert(resolved@.subrange(0, resolved@.len() as int) == resolved@);
    Ok(out)
}

} // verus!
