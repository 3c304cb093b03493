use crate::dto::GameProgressDto;
use crate::errors::GameServiceError;
use crate::mapper::game_mapper::{entity_to_progress, progress_dto_of};
use crate::model::{Game, GameProgress};
use vstd::prelude::*;

verus! {

/// Where a subscription stands.
#[derive(Debug, Clone, Copy, PartialEq, Eq, Structural)]
pub enum SubscriptionPhase {
    /// The game has not started: the roster is sent once per poll.
    Waiting,
    /// The game runs: progress is sent once per poll.
    Streaming,
    /// The end was sent: nothing more follows.
    Ended,
}

/// An event sent to one subscriber.
#[derive(Debug)]
pub enum ProgressEvent {
    /// The game has not started; the players who joined so far.
    NotStarted(Vec<String>),
    /// A snapshot of the running game.
    Progress(GameProgressDto),
    /// The game has ended; the last event of a subscription.
    End,
    /// A read of the shared state failed; the subscription goes on.
    Unavailable(GameServiceError),
}

/// The cursor of one subscriber over the progress of one game: each poll of
/// the shared state goes through it, and it decides what, if anything, that
/// subscriber is sent.
#[derive(Debug, Clone, Copy)]
pub struct Subscription {
    pub phase: SubscriptionPhase,
    /// Position on the game clock of the last progress sent, if any.
    pub last: Option<(i8, u64)>,
}

/// Position of a stored snapshot on the game clock: its question index and
/// the seconds left on it.
pub open spec fn clock_of(p: GameProgress) -> (i8, u64) {
    (p.current_question, p.question_content.remaining_time)
}

/// Position of a shown snapshot on the game clock.
pub open spec fn dto_clock(p: GameProgressDto) -> (i8, u64) {
    (p.current_question, p.question_content.remaining_time)
}

/// `a` comes no later than `b` on the game clock: an earlier question, or the
/// same question with no fewer seconds left.
pub open spec fn clock_le(a: (i8, u64), b: (i8, u64)) -> bool {
    a.0 < b.0 || (a.0 == b.0 && a.1 >= b.1)
}

/// What one poll of the stored progress does to a subscription, and what it
/// sends: nothing while waiting or after the end; the error, when the read
/// failed; the end once the game has played all its questions; otherwise the
/// snapshot, unless it lies behind the last one sent on the game clock.
pub open spec fn progress_step(s: Subscription, read: Result<GameProgress, GameServiceError>) -> (
    Subscription,
    Option<ProgressEvent>,
) {
    if s.phase != SubscriptionPhase::Streaming {
        (s, None)
    } else {
        match read {
            Err(e) => (s, Some(ProgressEvent::Unavailable(e))),
            Ok(p) => {
                if p.is_terminal() {
                    (Subscription { phase: SubscriptionPhase::Ended, ..s }, Some(ProgressEvent::End))
                } else if s.last matches Some(c) && !clock_le(c, clock_of(p)) {
                    (s, None)
                } else {
                    (
                        Subscription { last: Some(clock_of(p)), ..s },
                        Some(ProgressEvent::Progress(progress_dto_of(p))),
                    )
                }
            },
        }
    }
}

/// The events a subscription sends over a run of polls.
pub open spec fn emitted(s: Subscription, reads: Seq<Result<GameProgress, GameServiceError>>) -> Seq<ProgressEvent>
    decreases reads.len(),
{
    if reads.len() == 0 {
        Seq::empty()
    } else {
        let (t, e) = progress_step(s, reads[0]);
        match e {
            Some(ev) => seq![ev] + emitted(t, reads.drop_first()),
            None => emitted(t, reads.drop_first()),
        }
    }
}

/// The events sent are in game-clock order: ordered by question index, and by
/// seconds left, downwards, within one question.
pub open spec fn in_clock_order(ev: Seq<ProgressEvent>) -> bool {
    forall|i: int, j: int|
        0 <= i < j < ev.len() && #[trigger] ev[i] is Progress && #[trigger] ev[j] is Progress
            ==> clock_le(dto_clock(ev[i]->Progress_0), dto_clock(ev[j]->Progress_0))
}

/// Every snapshot sent is of a question within the game's count.
pub open spec fn within_count(ev: Seq<ProgressEvent>) -> bool {
    forall|i: int|
        0 <= i < ev.len() && #[trigger] ev[i] is Progress ==> ev[i]->Progress_0.current_question
            < ev[i]->Progress_0.question_number
}

/// The end, if sent, is the last event.
pub open spec fn end_is_last(ev: Seq<ProgressEvent>) -> bool {
    forall|i: int| 0 <= i < ev.len() && #[trigger] ev[i] is End ==> i == ev.len() - 1
}

/// Every snapshot sent lies, on the game clock, no earlier than `c`.
pub open spec fn all_after(ev: Seq<ProgressEvent>, c: (i8, u64)) -> bool {
    forall|i: int| 0 <= i < ev.len() && #[trigger] ev[i] is Progress ==> clock_le(c, dto_clock(ev[i]->Progress_0))
}

/// Whatever the polls read, and in whatever order the reads come, one
/// subscriber is sent snapshots in game-clock order, each with a question
/// index below the game's count, and at most one end, after which nothing is
/// sent, not even the error of a failed read.
pub proof fn lemma_subscriber_order(
    s: Subscription,
    reads: Seq<Result<GameProgress, GameServiceError>>,
)
    ensures
        in_clock_order(emitted(s, reads)),
        within_count(emitted(s, reads)),
        end_is_last(emitted(s, reads)),
        s.last matches Some(c) ==> all_after(emitted(s, reads), c),
        s.phase != SubscriptionPhase::Streaming ==> emitted(s, reads).len() == 0,
    decreases reads.len(),
{
    if reads.len() > 0 {
        let (t, e) = progress_step(s, reads[0]);
        let rest = emitted(t, reads.drop_first());
        lemma_subscriber_order(t, reads.drop_first());
        let ev = emitted(s, reads);
        if let Some(first) = e {
            assert(ev == seq![first] + rest);
            assert forall|i: int| 0 < i < ev.len() implies ev[i] == rest[i - 1] by {}
            if first is End {
                assert(rest.len() == 0);
            }
            let c0 = dto_clock(first->Progress_0);
            if first is Progress {
                assert(t.last == Some(c0));
                assert(all_after(rest, c0));
            } else {
                assert(t.last == s.last);
            }
            assert forall|i: int, j: int|
                0 <= i < j < ev.len() && #[trigger] ev[i] is Progress
                    && #[trigger] ev[j] is Progress implies clock_le(
                dto_clock(ev[i]->Progress_0),
                dto_clock(ev[j]->Progress_0),
            ) by {
                if i > 0 {
                    assert(ev[i] == rest[i - 1]);
                }
                assert(ev[j] == rest[j - 1]);
            }
            assert forall|i: int| 0 <= i < ev.len() && #[trigger] ev[i] is End implies i == ev.len()
                - 1 by {
                if i > 0 {
                    assert(ev[i] == rest[i - 1]);
                }
            }
            assert forall|i: int|
                0 <= i < ev.len() && #[trigger] ev[i] is Progress implies ev[i]->Progress_0.current_question
                < ev[i]->Progress_0.question_number by {
                if i > 0 {
                    assert(ev[i] == rest[i - 1]);
                }
            }
            if let Some(c) = s.last {
                assert forall|i: int|
                    0 <= i < ev.len() && #[trigger] ev[i] is Progress implies clock_le(
                    c,
                    dto_clock(ev[i]->Progress_0),
                ) by {
                    if i > 0 {
                        assert(ev[i] == rest[i - 1]);
                    }
                }
            }
        } else {
            assert(ev == rest);
        }
    }
}

impl Subscription {
    /// A subscription that waits for its game to start.
    pub fn new() -> (r: Subscription)
        ensures
            r.phase == SubscriptionPhase::Waiting,
            r.last is None,
    {
        Subscription { phase: SubscriptionPhase::Waiting, last: None }
    }

    /// One poll of the game while waiting for it to start. A started game
    /// moves the subscription on to its progress and sends nothing; a game not
    /// yet started sends its roster; a failed read sends its error. After the
    /// wait, a poll of the game does nothing.
    pub fn on_game(&mut self, read: Result<Game, GameServiceError>) -> (r: Option<ProgressEvent>)
        ensures
            old(self).phase != SubscriptionPhase::Waiting ==> *final(self) == *old(self) && r is None,
            old(self).phase == SubscriptionPhase::Waiting ==> match read {
                Ok(g) => if g.is_started {
                    &&& final(self).phase == SubscriptionPhase::Streaming
                    &&& final(self).last == old(self).last
                    &&& r is None
                } else {
                    &&& *final(self) == *old(self)
                    &&& r matches Some(ProgressEvent::NotStarted(users)) && users == g.users
                },
                Err(e) => {
                    &&& *final(self) == *old(self)
                    &&& r matches Some(ProgressEvent::Unavailable(f)) && f == e
                },
            },
    {
        if self.phase != SubscriptionPhase::Waiting {
            return None;
        }
        match read {
            Ok(g) => {
                if g.is_started {
                    self.phase = SubscriptionPhase::Streaming;
                    None
                } else {
                    Some(ProgressEvent::NotStarted(g.users))
                }
            },
            Err(e) => Some(ProgressEvent::Unavailable(e)),
        }
    }

    /// One poll of the stored progress.
    pub fn on_progress(&mut self, read: Result<GameProgress, GameServiceError>) -> (r: Option<
        ProgressEvent,
    >)
        ensures
            (*final(self), r) == progress_step(*old(self), read),
    {
        if self.phase != SubscriptionPhase::Streaming {
            return None;
        }
        match read {
            Err(e) => Some(ProgressEvent::Unavailable(e)),
            Ok(p) => {
                if p.current_question >= p.question_number {
                    self.phase = SubscriptionPhase::Ended;
                    Some(ProgressEvent::End)
                } else {
                    let clock = (p.current_question, p.question_content.remaining_time);
                    let fresh = match self.last {
                        None => true,
                        Some(c) => c.0 < clock.0 || (c.0 == clock.0 && c.1 >= clock.1),
                    };
                    if fresh {
                        self.last = Some(clock);
                        Some(ProgressEvent::Progress(entity_to_progress(p)))
                    } else {
                        None
                    }
                }
            },
        }
    }

    /// The end was sent: the subscription is over.
    pub fn is_ended(&self) -> (r: bool)
        ensures
            r == (self.phase == SubscriptionPhase::Ended),
    {
        self.phase == SubscriptionPhase::Ended
    }

    /// The game was seen started: polls now read its progress.
    pub fn is_streaming(&self) -> (r: bool)
        ensures
            r == (self.phase == SubscriptionPhase::Streaming),
    {
        self.phase == SubscriptionPhase::Streaming
    }
}

} // verus!
