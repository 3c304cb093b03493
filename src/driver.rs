use crate::dto::{copy_progress_dto, copy_question_dto, GameProgressDto, QuestionDto};
use crate::errors::{no_question_error, no_question_message, GameServiceError, GameServiceErrorKind};
use crate::mapper::game_mapper::{progress_of, progress_to_entity};
use crate::model::{Game, GameProgress};
use crate::question_pool::{is_pool_of, pool_size, resolve_question_pool};
use rand::Rng;
use vstd::prelude::*;

verus! {

/// What the runner of a session does after a step of its driver.
#[derive(Debug, Clone, Copy, PartialEq, Eq, Structural)]
pub enum TickOutcome {
    /// Persist the snapshot, then wait one second before the next step.
    Wait,
    /// Persist the snapshot, then step again at once: the countdown is at zero.
    Advance,
    /// Persist the snapshot one last time and stop: the session has ended.
    Finished,
    /// Nothing changed: the session had already ended.
    Idle,
}

/// Seconds left on the active question.
pub open spec fn remaining(p: GameProgressDto) -> u64 {
    p.question_content.remaining_time
}

/// The session has played all its questions.
pub open spec fn is_over(p: GameProgressDto) -> bool {
    p.current_question >= p.question_number
}

/// `q` with its countdown set to `t`.
pub open spec fn with_remaining(q: QuestionDto, t: u64) -> QuestionDto {
    QuestionDto { remaining_time: t, ..q }
}

/// The question at `pick` of the pool, opened for `duration` seconds.
pub open spec fn drawn(pool: Seq<QuestionDto>, pick: int, duration: u64) -> QuestionDto {
    with_remaining(pool[pick], duration)
}

/// `q` is a question of the pool, whatever its countdown.
pub open spec fn in_pool(q: QuestionDto, pool: Seq<QuestionDto>) -> bool {
    exists|i: int| 0 <= i < pool.len() && with_remaining(#[trigger] pool[i], q.remaining_time) == q
}

/// What holds of a running session at every step.
pub open spec fn session_invariant(p: GameProgressDto, pool: Seq<QuestionDto>, duration: u64) -> bool {
    &&& pool.len() > 0
    &&& 0 <= p.current_question
    &&& p.question_number >= 0 ==> p.current_question <= p.question_number
    &&& remaining(p) <= duration
    &&& in_pool(p.question_content, pool)
}

/// The first snapshot of a session: question 0, drawn at `pick`, with a full
/// countdown.
pub open spec fn first_progress(
    game_id: String,
    question_number: i8,
    pool: Seq<QuestionDto>,
    pick: int,
    duration: u64,
) -> GameProgressDto {
    GameProgressDto {
        game_id,
        current_question: 0,
        question_number,
        question_content: drawn(pool, pick, duration),
    }
}

/// One step of a session: count the active question down by one second; at
/// zero, open the next question, drawn at `pick`, with a full countdown, or,
/// after the last question, end the session. An ended session stays as it is.
pub open spec fn next_progress(
    p: GameProgressDto,
    pool: Seq<QuestionDto>,
    pick: int,
    duration: u64,
) -> GameProgressDto {
    if is_over(p) {
        p
    } else if remaining(p) > 0 {
        GameProgressDto {
            question_content: with_remaining(p.question_content, (remaining(p) - 1) as u64),
            ..p
        }
    } else if p.current_question + 1 < p.question_number {
        GameProgressDto {
            current_question: (p.current_question + 1) as i8,
            question_content: drawn(pool, pick, duration),
            ..p
        }
    } else {
        GameProgressDto { current_question: p.question_number, ..p }
    }
}

/// What the runner does after a step from `before` to `after`.
pub open spec fn outcome_of(before: GameProgressDto, after: GameProgressDto) -> TickOutcome {
    if is_over(before) {
        TickOutcome::Idle
    } else if is_over(after) {
        TickOutcome::Finished
    } else if remaining(after) == 0 {
        TickOutcome::Advance
    } else {
        TickOutcome::Wait
    }
}

/// Each step either counts the active question down by exactly one second,
/// or, once it is at zero, opens the next question with a full countdown, or
/// ends the session with nothing left on the clock; the invariant of a running
/// session is kept.
pub proof fn lemma_countdown_step(
    p: GameProgressDto,
    pool: Seq<QuestionDto>,
    pick: int,
    duration: u64,
)
    requires
        session_invariant(p, pool, duration),
        0 <= pick < pool.len(),
        !is_over(p),
    ensures
        ({
            let n = next_progress(p, pool, pick, duration);
            &&& session_invariant(n, pool, duration)
            &&& n.game_id == p.game_id
            &&& n.question_number == p.question_number
            &&& {
                ||| remaining(p) > 0 && n.current_question == p.current_question && remaining(n)
                    == remaining(p) - 1
                ||| remaining(p) == 0 && n.current_question == p.current_question + 1
                    && remaining(n) == duration && !is_over(n)
                ||| remaining(p) == 0 && is_over(n) && remaining(n) == 0
            }
        }),
{
    let n = next_progress(p, pool, pick, duration);
    if remaining(p) > 0 {
        let i = choose|i: int|
            0 <= i < pool.len() && with_remaining(#[trigger] pool[i], p.question_content.remaining_time)
                == p.question_content;
        assert(with_remaining(pool[i], n.question_content.remaining_time) == n.question_content);
    } else if p.current_question + 1 < p.question_number {
        assert(with_remaining(pool[pick], n.question_content.remaining_time) == n.question_content);
    }
}

/// An ended session stays as it is.
pub proof fn lemma_over_is_final(
    p: GameProgressDto,
    pool: Seq<QuestionDto>,
    pick: int,
    duration: u64,
)
    requires
        is_over(p),
    ensures
        next_progress(p, pool, pick, duration) == p,
        outcome_of(p, next_progress(p, pool, pick, duration)) == TickOutcome::Idle,
{
}

/// The progress after a step for each pick of `picks`, in turn.
pub open spec fn run_steps(
    p: GameProgressDto,
    pool: Seq<QuestionDto>,
    picks: Seq<int>,
    duration: u64,
) -> GameProgressDto
    decreases picks.len(),
{
    if picks.len() == 0 {
        p
    } else {
        run_steps(next_progress(p, pool, picks[0], duration), pool, picks.drop_first(), duration)
    }
}

/// How many of the steps of a run count a second down: the runner waits one
/// second before each of them.
pub open spec fn countdowns(
    p: GameProgressDto,
    pool: Seq<QuestionDto>,
    picks: Seq<int>,
    duration: u64,
) -> int
    decreases picks.len(),
{
    if picks.len() == 0 {
        0
    } else {
        (if !is_over(p) && remaining(p) > 0 {
            1int
        } else {
            0int
        }) + countdowns(next_progress(p, pool, picks[0], duration), pool, picks.drop_first(), duration)
    }
}

/// Every pick of `picks` is an index into a pool of `len` questions.
pub open spec fn valid_picks(picks: Seq<int>, len: int) -> bool {
    forall|k: int| 0 <= k < picks.len() ==> 0 <= #[trigger] picks[k] < len
}

/// Steps left until a running session ends.
pub open spec fn steps_left(p: GameProgressDto, duration: u64) -> int {
    remaining(p) + 1 + (p.question_number - 1 - p.current_question) * (duration + 1)
}

/// Seconds left until a running session ends.
pub open spec fn seconds_left(p: GameProgressDto, duration: u64) -> int {
    remaining(p) + (p.question_number - 1 - p.current_question) * duration
}

/// Steps after the end change nothing and count nothing down.
proof fn lemma_run_after_end(
    p: GameProgressDto,
    pool: Seq<QuestionDto>,
    picks: Seq<int>,
    duration: u64,
)
    requires
        is_over(p),
    ensures
        run_steps(p, pool, picks, duration) == p,
        countdowns(p, pool, picks, duration) == 0,
    decreases picks.len(),
{
    if picks.len() > 0 {
        lemma_run_after_end(p, pool, picks.drop_first(), duration);
    }
}

/// From a running state, a run ends exactly when it has at least
/// `steps_left` steps, and has then counted `seconds_left` seconds down.
proof fn lemma_run_from(p: GameProgressDto, pool: Seq<QuestionDto>, picks: Seq<int>, duration: u64)
    requires
        session_invariant(p, pool, duration),
        !is_over(p),
        valid_picks(picks, pool.len() as int),
    ensures
        is_over(run_steps(p, pool, picks, duration)) <==> picks.len() >= steps_left(p, duration),
        picks.len() >= steps_left(p, duration) ==> countdowns(p, pool, picks, duration)
            == seconds_left(p, duration),
    decreases picks.len(),
{
    let left = p.question_number - 1 - p.current_question;
    assert(left * (duration + 1) >= 0) by (nonlinear_arith)
        requires
            left >= 0,
    ;
    if picks.len() > 0 {
        let n = next_progress(p, pool, picks[0], duration);
        let rest = picks.drop_first();
        assert(0 <= picks[0] < pool.len());
        lemma_countdown_step(p, pool, picks[0], duration);
        assert(valid_picks(rest, pool.len() as int)) by {
            assert forall|k: int| 0 <= k < rest.len() implies 0 <= #[trigger] rest[k] < pool.len() by {
                assert(rest[k] == picks[k + 1]);
            }
        }
        assert(run_steps(p, pool, picks, duration) == run_steps(n, pool, rest, duration));
        if is_over(n) {
            lemma_run_after_end(n, pool, rest, duration);
            assert(left == 0);
            assert(left * (duration + 1) == 0 && left * duration == 0) by (nonlinear_arith)
                requires
                    left == 0,
            ;
        } else {
            lemma_run_from(n, pool, rest, duration);
            if remaining(p) == 0 {
                assert(left * (duration + 1) == (left - 1) * (duration + 1) + duration + 1)
                    by (nonlinear_arith);
                assert(left * duration == (left - 1) * duration + duration) by (nonlinear_arith);
            }
        }
    }
}

/// A session of `question_number` questions, each open `duration` seconds,
/// ends after exactly `question_number * (duration + 1)` steps, whatever
/// questions are drawn, and `question_number * duration` of those steps count
/// a second down: the runner, which waits one second before each of them,
/// sees the end `question_number * duration` seconds after the start.
pub proof fn lemma_session_length(
    game_id: String,
    question_number: i8,
    pool: Seq<QuestionDto>,
    first_pick: int,
    picks: Seq<int>,
    duration: u64,
)
    requires
        question_number >= 1,
        0 <= first_pick < pool.len(),
        valid_picks(picks, pool.len() as int),
    ensures
        ({
            let p = first_progress(game_id, question_number, pool, first_pick, duration);
            &&& is_over(run_steps(p, pool, picks, duration)) <==> picks.len() >= question_number * (
            duration + 1)
            &&& picks.len() >= question_number * (duration + 1) ==> countdowns(
                p,
                pool,
                picks,
                duration,
            ) == question_number * duration
        }),
{
    let p = first_progress(game_id, question_number, pool, first_pick, duration);
    assert(with_remaining(pool[first_pick], duration) == p.question_content);
    lemma_run_from(p, pool, picks, duration);
    assert(duration + 1 + (question_number - 1) * (duration + 1) == question_number * (duration
        + 1)) by (nonlinear_arith);
    assert(duration + (question_number - 1) * duration == question_number * duration)
        by (nonlinear_arith);
}

/// Relies on rand's `thread_rng().gen_range(0..len)`: an index drawn below
/// `len`, which must not be zero.
#[verifier::external_body]
fn random_index(len: usize) -> (r: usize)
    requires
        len > 0,
    ensures
        r < len,
{
    rand::thread_rng().gen_range(0..len)
}

/// The owner of one running session: its authoritative progress, the pool its
/// questions are drawn from, and the seconds each question stays open.
pub struct SessionDriver {
    progress: GameProgressDto,
    pool: Vec<QuestionDto>,
    duration: u64,
}

impl SessionDriver {
    /// The authoritative progress of the session.
    pub closed spec fn progress(&self) -> GameProgressDto {
        self.progress
    }

    /// The questions the session draws from.
    pub closed spec fn pool(&self) -> Seq<QuestionDto> {
        self.pool@
    }

    /// Seconds each question stays open.
    pub closed spec fn duration(&self) -> u64 {
        self.duration
    }

    /// The invariant of a running session.
    pub open spec fn wf(&self) -> bool {
        session_invariant(self.progress(), self.pool(), self.duration())
    }

    /// Opens a session on the question at `pick` of the pool. A session whose
    /// pool is empty does not start: no snapshot of it exists to be persisted.
    pub fn start(
        game_id: String,
        question_number: i8,
        pool: Vec<QuestionDto>,
        duration: u64,
        pick: usize,
    ) -> (r: Result<SessionDriver, GameServiceError>)
        requires
            pool@.len() > 0 ==> pick < pool@.len(),
        ensures
            r is Err <==> pool@.len() == 0,
            r matches Err(e) ==> e.kind == GameServiceErrorKind::PreconditionFailed
                && e.message@ == no_question_message(game_id@),
            r matches Ok(d) ==> {
                &&& d.wf()
                &&& d.progress() == first_progress(game_id, question_number, pool@, pick as int, duration)
                &&& d.pool() == pool@
                &&& d.duration() == duration
            },
    {
        if pool.len() == 0 {
            return Err(no_question_error(game_id.as_str()));
        }
        let mut question = copy_question_dto(&pool[pick]);
        question.remaining_time = duration;
        let progress = GameProgressDto {
            game_id,
            current_question: 0,
            question_number,
            question_content: question,
        };
        let d = SessionDriver { progress, pool, duration };
        assert(with_remaining(d.pool@[pick as int], duration) == d.progress.question_content);
        Ok(d)
    }

    /// Opens a session on a question drawn at random from the pool.
    pub fn start_random(
        game_id: String,
        question_number: i8,
        pool: Vec<QuestionDto>,
        duration: u64,
    ) -> (r: Result<SessionDriver, GameServiceError>)
        ensures
            r is Err <==> pool@.len() == 0,
            r matches Err(e) ==> e.kind == GameServiceErrorKind::PreconditionFailed
                && e.message@ == no_question_message(game_id@),
            r matches Ok(d) ==> {
                &&& d.wf()
                &&& exists|pick: int|
                    0 <= pick < pool@.len() && d.progress() == first_progress(
                        game_id,
                        question_number,
                        pool@,
                        pick,
                        duration,
                    )
                &&& d.pool() == pool@
                &&& d.duration() == duration
            },
    {
        let pick = if pool.len() == 0 {
            0
        } else {
            random_index(pool.len())
        };
        Self::start(game_id, question_number, pool, duration, pick)
    }

    /// One step of the session, drawing the next question, if one opens, at
    /// `pick` of the pool.
    pub fn step(&mut self, pick: usize) -> (r: TickOutcome)
        requires
            old(self).wf(),
            pick < old(self).pool().len(),
        ensures
            final(self).wf(),
            final(self).pool() == old(self).pool(),
            final(self).duration() == old(self).duration(),
            final(self).progress() == next_progress(
                old(self).progress(),
                old(self).pool(),
                pick as int,
                old(self).duration(),
            ),
            r == outcome_of(old(self).progress(), final(self).progress()),
    {
        let ghost before = self.progress;
        proof {
            if !is_over(before) {
                lemma_countdown_step(before, self.pool@, pick as int, self.duration);
            }
        }
        if self.progress.current_question >= self.progress.question_number {
            return TickOutcome::Idle;
        }
        if self.progress.question_content.remaining_time > 0 {
            self.progress.question_content.remaining_time =
                self.progress.question_content.remaining_time - 1;
        } else if self.progress.current_question + 1 < self.progress.question_number {
            let mut question = copy_question_dto(&self.pool[pick]);
            question.remaining_time = self.duration;
            self.progress.current_question = self.progress.current_question + 1;
            self.progress.question_content = question;
        } else {
            self.progress.current_question = self.progress.question_number;
        }
        if self.progress.current_question >= self.progress.question_number {
            TickOutcome::Finished
        } else if self.progress.question_content.remaining_time == 0 {
            TickOutcome::Advance
        } else {
            TickOutcome::Wait
        }
    }

    /// One step of the session, drawing the next question, if one opens, at
    /// random from the pool.
    pub fn step_random(&mut self) -> (r: TickOutcome)
        requires
            old(self).wf(),
        ensures
            final(self).wf(),
            final(self).pool() == old(self).pool(),
            final(self).duration() == old(self).duration(),
            exists|pick: int|
                0 <= pick < old(self).pool().len() && final(self).progress() == next_progress(
                    old(self).progress(),
                    old(self).pool(),
                    pick,
                    old(self).duration(),
                ),
            r == outcome_of(old(self).progress(), final(self).progress()),
    {
        let pick = random_index(self.pool.len());
        self.step(pick)
    }

    /// The session has played all its questions.
    pub fn is_over(&self) -> (r: bool)
        ensures
            r == is_over(self.progress()),
    {
        self.progress.current_question >= self.progress.question_number
    }

    /// The progress as shown to the players.
    pub fn progress_dto(&self) -> (r: GameProgressDto)
        ensures
            r == self.progress(),
    {
        copy_progress_dto(&self.progress)
    }

    /// The progress as the store holds it: the snapshot to persist.
    pub fn snapshot(&self) -> (r: GameProgress)
        ensures
            r == progress_of(self.progress()),
    {
        progress_to_entity(copy_progress_dto(&self.progress))
    }
}

/// Opens the session of the game `id`, whose settings are `game`, with
/// questions open for `duration` seconds each, on a question drawn at random
/// from the pool its topics resolve to. A game whose topics give no question
/// does not start.
pub fn start_new_game(id: String, game: &Game, duration: u64) -> (r: Result<
    SessionDriver,
    GameServiceError,
>)
    ensures
        r is Err <==> pool_size(game.topics@) == 0,
        r matches Err(e) ==> e.kind == GameServiceErrorKind::PreconditionFailed && e.message@
            == no_question_message(id@),
        r matches Ok(d) ==> {
            &&& d.wf()
            &&& is_pool_of(d.pool(), game.topics@)
            &&& d.duration() == duration
            &&& exists|pick: int|
                0 <= pick < d.pool().len() && d.progress() == first_progress(
                    id,
                    game.question_number,
                    d.pool(),
                    pick,
                    duration,
                )
        },
{
    let questions = resolve_question_pool(game);
    SessionDriver::start_random(id, game.question_number, questions, duration)
}

} // verus!
