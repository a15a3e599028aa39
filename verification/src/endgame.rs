//! The moderator's "end the game": every score of the live leaderboard is
//! added to the player's stored total, then the leaderboard is cleared.
//!
//! The flow decides; the engine performs each action it asks for and hands
//! back what happened as an event.
use vstd::prelude::*;
use crate::messages::{is_rpc_error, rpc_error, ModeratorAck, RpcCode, RpcError};

verus! {

/// Where the end of the game stands.
pub enum EndGameStage {
    /// Waiting for a connection to the leaderboard store.
    Connecting,
    /// Waiting for every player's score on the leaderboard.
    ReadingScores,
    /// Adding the scores to the stored totals; `scores[next - 1]` is being added.
    Persisting { scores: Vec<(String, i32)>, next: usize },
    /// Waiting for the leaderboard to be cleared.
    Clearing,
    /// The moderator has been answered.
    Done,
}

/// What the engine is asked to do next.
pub enum EndGameAction {
    /// Open a connection to the leaderboard store.
    ConnectLeaderboard,
    /// Read every player of the leaderboard with their score.
    ReadAllScores,
    /// Add `points` to the stored total of `username`.
    AddToTotal { username: String, points: i32 },
    /// Delete the leaderboard.
    ClearLeaderboard,
    /// Answer the moderator.
    Reply(Result<ModeratorAck, RpcError>),
}

/// What happened when the engine performed the last action.
pub enum EndGameEvent {
    /// The leaderboard store could (`ok`) or could not be reached.
    Connected { ok: bool },
    /// The leaderboard gave these players and scores, or could not be read.
    ScoresRead(Option<Vec<(String, i32)>>),
    /// The addition was attempted; its outcome does not matter.
    TotalAdded,
    /// The deletion was attempted; its outcome does not matter.
    Cleared,
}

pub open spec fn leaderboard_unreachable_message() -> Seq<char> { "Error conectando Redis"@ }

/// The state of one end-of-game command.
pub struct EndGame {
    pub stage: EndGameStage,
}

impl EndGame {
    /// The event kinds the flow can take in its current stage.
    pub open spec fn awaits(self, event: EndGameEvent) -> bool {
        match self.stage {
            EndGameStage::Connecting => event is Connected,
            EndGameStage::ReadingScores => event is ScoresRead,
            EndGameStage::Persisting { .. } => event is TotalAdded,
            EndGameStage::Clearing => event is Cleared,
            EndGameStage::Done => false,
        }
    }

    /// The persisting stage never runs past its scores.
    pub open spec fn well_formed(self) -> bool {
        self.stage matches EndGameStage::Persisting { scores, next } ==> 1 <= next <= scores@.len()
    }

    /// A bound on the steps left before the moderator is answered.
    pub open spec fn steps_left(self) -> nat {
        match self.stage {
            EndGameStage::Connecting => 3 + usize::MAX as nat,
            EndGameStage::ReadingScores => 2 + usize::MAX as nat,
            EndGameStage::Persisting { scores, next } => 2 + (scores@.len() - next) as nat,
            EndGameStage::Clearing => 1,
            EndGameStage::Done => 0,
        }
    }
}

/// `action` adds score `i` of `scores` to its player's total.
pub open spec fn adds_score(action: EndGameAction, scores: Seq<(String, i32)>, i: int) -> bool {
    action matches EndGameAction::AddToTotal { username, points }
        && username@ == scores[i].0@ && points == scores[i].1
}

/// `post` adds score `i` of `scores` next, or clears when there is none left.
pub open spec fn persists_from(scores: Vec<(String, i32)>, i: int, post: EndGame, action: EndGameAction) -> bool {
    &&& scores@.len() <= usize::MAX
    &&& if i < scores@.len() {
        &&& post.stage == EndGameStage::Persisting { scores, next: (i + 1) as usize }
        &&& adds_score(action, scores@, i)
    } else {
        post.stage is Clearing && action is ClearLeaderboard
    }
}

/// One step of the flow.
pub open spec fn end_game_transition(pre: EndGame, event: EndGameEvent, post: EndGame, action: EndGameAction) -> bool {
    match pre.stage {
        EndGameStage::Connecting => match event {
            EndGameEvent::Connected { ok } =>
                if ok {
                    post.stage is ReadingScores && action is ReadAllScores
                } else {
                    &&& post.stage is Done
                    &&& action matches EndGameAction::Reply(Err(e))
                        && is_rpc_error(e, RpcCode::Internal, leaderboard_unreachable_message())
                },
            _ => false,
        },
        EndGameStage::ReadingScores => match event {
            EndGameEvent::ScoresRead(Some(scores)) => persists_from(scores, 0, post, action),
            EndGameEvent::ScoresRead(None) => post.stage is Clearing && action is ClearLeaderboard,
            _ => false,
        },
        EndGameStage::Persisting { scores, next } => match event {
            EndGameEvent::TotalAdded => persists_from(scores, next as int, post, action),
            _ => false,
        },
        EndGameStage::Clearing => match event {
            EndGameEvent::Cleared =>
                post.stage is Done && (action matches EndGameAction::Reply(Ok(ack)) && ack.success),
            _ => false,
        },
        EndGameStage::Done => false,
    }
}

impl EndGame {
    /// Starts the command: the first action connects to the leaderboard store.
    pub fn start() -> (out: (EndGame, EndGameAction))
        ensures
            out.0.stage is Connecting,
            out.1 is ConnectLeaderboard,
    {
        (EndGame { stage: EndGameStage::Connecting }, EndGameAction::ConnectLeaderboard)
    }

    fn persist_from(scores: Vec<(String, i32)>, i: usize) -> (out: (EndGame, EndGameAction))
        requires
            i <= scores@.len(),
        ensures
            persists_from(scores, i as int, out.0, out.1),
            out.0.well_formed(),
    {
        assert(scores@.len() == scores.len());
        if i < scores.len() {
            let username = scores[i].0.clone();
            let points = scores[i].1;
            (EndGame { stage: EndGameStage::Persisting { scores, next: i + 1 } }, EndGameAction::AddToTotal { username, points })
        } else {
            (EndGame { stage: EndGameStage::Clearing }, EndGameAction::ClearLeaderboard)
        }
    }

    /// Takes the outcome of the last action and decides the next one.
    pub fn advance(self, event: EndGameEvent) -> (out: (EndGame, EndGameAction))
        requires
            self.well_formed(),
            self.awaits(event),
        ensures
            end_game_transition(self, event, out.0, out.1),
            out.0.well_formed(),
    {
        match self.stage {
            EndGameStage::Connecting => match event {
                EndGameEvent::Connected { ok } => {
                    if ok {
                        (EndGame { stage: EndGameStage::ReadingScores }, EndGameAction::ReadAllScores)
                    } else {
                        (EndGame { stage: EndGameStage::Done }, EndGameAction::Reply(Err(rpc_error(RpcCode::Internal, "Error conectando Redis"))))
                    }
                },
                _ => {
                    proof { assert(false); }
                    (EndGame { stage: EndGameStage::Done }, EndGameAction::ClearLeaderboard)
                },
            },
            EndGameStage::ReadingScores => match event {
                EndGameEvent::ScoresRead(Some(scores)) => Self::persist_from(scores, 0),
                _ => (EndGame { stage: EndGameStage::Clearing }, EndGameAction::ClearLeaderboard),
            },
            EndGameStage::Persisting { scores, next } => Self::persist_from(scores, next),
            EndGameStage::Clearing => (EndGame { stage: EndGameStage::Done }, EndGameAction::Reply(Ok(ModeratorAck { success: true }))),
            EndGameStage::Done => {
                proof { assert(false); }
                (EndGame { stage: EndGameStage::Done }, EndGameAction::ClearLeaderboard)
            },
        }
    }
}

/// The command always ends: every step brings it closer to the answer.
pub proof fn lemma_end_game_progresses(pre: EndGame, event: EndGameEvent, post: EndGame, action: EndGameAction)
    requires
        pre.well_formed(),
        pre.awaits(event),
        end_game_transition(pre, event, post, action),
    ensures
        post.steps_left() < pre.steps_left(),
{
}

/// Scores are added one by one, in the order read, each exactly once, and the
/// leaderboard is cleared only after the last one.
pub proof fn lemma_scores_persisted_in_order(pre: EndGame, post: EndGame, action: EndGameAction)
    requires
        pre.well_formed(),
        pre.stage matches EndGameStage::Persisting { .. },
        end_game_transition(pre, EndGameEvent::TotalAdded, post, action),
    ensures
        pre.stage matches EndGameStage::Persisting { scores, next } && {
            ||| (next < scores@.len() && adds_score(action, scores@, next as int)
                && post.stage == EndGameStage::Persisting { scores, next: (next + 1) as usize })
            ||| (next == scores@.len() && action is ClearLeaderboard)
        },
{
}

/// However the reading of the scores goes, the leaderboard is cleared before
/// the moderator is told the game ended.
pub proof fn lemma_success_only_after_clearing(pre: EndGame, event: EndGameEvent, post: EndGame, ack: ModeratorAck)
    requires
        pre.awaits(event),
        end_game_transition(pre, event, post, EndGameAction::Reply(Ok(ack))),
    ensures
        pre.stage is Clearing,
        ack.success,
{
}

/// Ending a game whose leaderboard is empty (as a previous end left it) adds
/// nothing to any stored total: it clears and reports success.
pub proof fn lemma_empty_leaderboard_adds_nothing(
    pre: EndGame,
    scores: Vec<(String, i32)>,
    post: EndGame,
    action: EndGameAction,
    done: EndGame,
    reply: EndGameAction,
)
    requires
        pre.stage is ReadingScores,
        scores@.len() == 0,
        end_game_transition(pre, EndGameEvent::ScoresRead(Some(scores)), post, action),
        end_game_transition(post, EndGameEvent::Cleared, done, reply),
    ensures
        action is ClearLeaderboard,
        post.stage is Clearing,
        done.stage is Done,
        reply matches EndGameAction::Reply(Ok(ack)) && ack.success,
{
}

/// Once the scores are read, the flow works through exactly those scores:
/// it clears at once only when there is none, and otherwise adds the first
/// one and keeps all of them, in the order read, for the next additions.
pub proof fn lemma_read_scores_all_kept(pre: EndGame, scores: Vec<(String, i32)>, post: EndGame, action: EndGameAction)
    requires
        pre.stage is ReadingScores,
        end_game_transition(pre, EndGameEvent::ScoresRead(Some(scores)), post, action),
    ensures
        scores@.len() == 0 ==> action is ClearLeaderboard,
        scores@.len() > 0 ==> {
            &&& action matches EndGameAction::AddToTotal { username, points }
                && username@ == scores@[0].0@ && points == scores@[0].1
            &&& post.stage matches EndGameStage::Persisting { scores: kept, next } && kept@ == scores@ && next == 1
        },
{
}

} // verus!
