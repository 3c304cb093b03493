use vstd::prelude::*;

verus! {

/// What went wrong in a request to the game engine.
#[derive(Debug, Clone, Copy, PartialEq, Eq, Structural)]
pub enum GameServiceErrorKind {
    /// No game, progress or roster exists under the given id.
    NotFound,
    /// The answers of a game were asked for before the game ended.
    Locked,
    /// A game was started whose topics give no question.
    PreconditionFailed,
    /// The store could not be read or written.
    StoreUnavailable,
    /// An answer was sent against a question that is no longer the active one.
    Stale,
}

/// An error of the game engine: its kind and a message for the logs.
#[derive(Debug, Clone)]
pub struct GameServiceError {
    pub message: String,
    pub kind: GameServiceErrorKind,
}

/// The message of a `NotFound` error for the game `id`.
pub open spec fn not_found_message(id: Seq<char>) -> Seq<char> {
    "Game with id "@ + id + " does not exist"@
}

/// The message of a `Locked` error for the game `id`.
pub open spec fn locked_message(id: Seq<char>) -> Seq<char> {
    "Answers of game "@ + id + " are locked until the game ends"@
}

/// The message of a `PreconditionFailed` error for the game `id`.
pub open spec fn no_question_message(id: Seq<char>) -> Seq<char> {
    "No question matches the topics of game "@ + id
}

/// The message of a `Stale` error for the game `id`.
pub open spec fn stale_message(id: Seq<char>) -> Seq<char> {
    "Answer for game "@ + id + " targets a question that is no longer active"@
}

/// The error for a game, progress or roster missing under `id`.
pub fn process_not_found_error(id: &str) -> (r: GameServiceError)
    ensures
        r.kind == GameServiceErrorKind::NotFound,
        r.message@ == not_found_message(id@),
{
    let message = String::from_str("Game with id ").concat(id).concat(" does not exist");
    GameServiceError { message, kind: GameServiceErrorKind::NotFound }
}

/// The record read under `id`, or the `NotFound` error where there was none.
pub fn require_found<T>(read: Option<T>, id: &str) -> (r: Result<T, GameServiceError>)
    ensures
        read matches Some(v) ==> r == Ok::<T, GameServiceError>(v),
        read is None ==> (r matches Err(e) && e.kind == GameServiceErrorKind::NotFound
            && e.message@ == not_found_message(id@)),
{
    match read {
        Some(v) => Ok(v),
        None => Err(process_not_found_error(id)),
    }
}

/// The error for answers asked for before the game `id` ended.
pub fn locked_error(id: &str) -> (r: GameServiceError)
    ensures
        r.kind == GameServiceErrorKind::Locked,
        r.message@ == locked_message(id@),
{
    let message = String::from_str("Answers of game ").concat(id).concat(
        " are locked until the game ends",
    );
    GameServiceError { message, kind: GameServiceErrorKind::Locked }
}

/// The error for a game `id` whose topics give no question.
pub fn no_question_error(id: &str) -> (r: GameServiceError)
    ensures
        r.kind == GameServiceErrorKind::PreconditionFailed,
        r.message@ == no_question_message(id@),
{
    let message = String::from_str("No question matches the topics of game ").concat(id);
    GameServiceError { message, kind: GameServiceErrorKind::PreconditionFailed }
}

/// The error for an answer to the game `id` sent against a closed question.
pub fn stale_error(id: &str) -> (r: GameServiceError)
    ensures
        r.kind == GameServiceErrorKind::Stale,
        r.message@ == stale_message(id@),
{
    let message = String::from_str("Answer for game ").concat(id).concat(
        " targets a question that is no longer active",
    );
    GameServiceError { message, kind: GameServiceErrorKind::Stale }
}

/// The error for a failed read or write of the store, with the store's own
/// description of the failure.
pub fn process_internal_error(description: String) -> (r: GameServiceError)
    ensures
        r.kind == GameServiceErrorKind::StoreUnavailable,
        r.message == description,
{
    GameServiceError { message: description, kind: GameServiceErrorKind::StoreUnavailable }
}

/// The HTTP status code that answers a request that failed with `kind`.
pub open spec fn status_code_of(kind: GameServiceErrorKind) -> u16 {
    match kind {
        GameServiceErrorKind::NotFound => 404,
        GameServiceErrorKind::Locked => 423,
        GameServiceErrorKind::PreconditionFailed => 412,
        GameServiceErrorKind::StoreUnavailable => 500,
        GameServiceErrorKind::Stale => 409,
    }
}

/// The HTTP status code that answers a request that failed with `error`.
pub fn process_service_error(error: &GameServiceError) -> (r: u16)
    ensures
        r == status_code_of(error.kind),
{
    match error.kind {
        GameServiceErrorKind::NotFound => 404,
        GameServiceErrorKind::Locked => 423,
        GameServiceErrorKind::PreconditionFailed => 412,
        GameServiceErrorKind::StoreUnavailable => 500,
        GameServiceErrorKind::Stale => 409,
    }
}

} // verus!
