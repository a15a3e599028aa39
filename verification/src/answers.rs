//! The game engine's handling of one answer: find who answered from the
//! session store, check the answer against the current question, score it,
//! add the points to the leaderboard and broadcast the top players.
//!
//! The flow decides; the engine performs each action it asks for and hands
//! back what happened as an event.
use vstd::prelude::*;
use crate::messages::{LeaderboardUpdate, PlayerScore, ServerEvent};
use crate::questions::{answer_accepted, is_answer_accepted, MongoQuestion};
use crate::join::{join_transition, JoinAction, JoinEvent, JoinSaga};
use crate::text::{session_key, session_key_of};

verus! {

/// The time a player has to answer, in milliseconds, as scoring sees it.
pub const ANSWER_TIME_LIMIT_MS: i32 = 20000;

/// How many players the broadcast leaderboard shows.
pub const LEADERBOARD_SIZE: u64 = 5;

/// Where the handling of an answer stands.
pub enum AnswerStage {
    /// Waiting for the username stored under the player's session.
    AwaitingSession,
    /// Waiting for the question the answer is checked against.
    AwaitingQuestion,
    /// Waiting for the scoring strategy's points for a right answer.
    AwaitingScore,
    /// Waiting for the points to be added on the leaderboard.
    AwaitingIncrement,
    /// Waiting for the top players of the leaderboard.
    AwaitingTopPlayers,
    /// Nothing more to do for this answer.
    Done,
}

/// The state of the handling of one answer.
pub struct AnswerFlow {
    pub user_id: String,
    pub answer: String,
    pub response_time_ms: i32,
    /// The player's name, once the session store gave it.
    pub username: String,
    /// Whether the answer was judged right.
    pub correct: bool,
    /// The points the answer earned.
    pub points: i32,
    pub stage: AnswerStage,
}

/// What the engine is asked to do next.
pub enum AnswerAction {
    /// Read the username stored under `key` in the session store.
    FetchSession { key: String },
    /// Fetch the question to check the answer against.
    FetchQuestion,
    /// Ask the scoring strategy for the points of a right answer.
    ComputeScore { response_time_ms: i32, time_limit_ms: i32 },
    /// Add `points` to `username` on the leaderboard.
    IncrementScore { username: String, points: i32 },
    /// Read the first `count` players of the leaderboard, best first, with their scores.
    FetchTopPlayers { count: u64 },
    /// Send this event to every connected player.
    Broadcast(ServerEvent),
    /// Drop the answer; nothing is sent.
    Ignore,
}

/// What happened when the engine performed the last action.
pub enum AnswerEvent {
    /// The session store gave this username, or none (no session, or an error).
    SessionFound(Option<String>),
    /// The question store gave this question, or none (empty, or an error).
    QuestionFetched(Option<MongoQuestion>),
    /// The scoring strategy gave these points.
    Scored(i32),
    /// The points were (`ok`) or were not added.
    ScoreIncremented { ok: bool },
    /// The leaderboard gave these players and scores, best first, or failed.
    TopPlayersFetched(Option<Vec<(String, i32)>>),
}

/// `update` is the leaderboard of `top` broadcast after `username` answered:
/// ranks from 1 in order, and every other player shown as having answered right.
pub open spec fn is_leaderboard(update: LeaderboardUpdate, top: Seq<(String, i32)>, username: Seq<char>, correct: bool) -> bool {
    &&& update.top_players@.len() == top.len()
    &&& forall|i: int| 0 <= i < top.len() ==> {
        let entry = #[trigger] update.top_players@[i];
        &&& entry.username@ == top[i].0@
        &&& entry.score == top[i].1
        &&& entry.rank == i + 1
        &&& entry.last_answer_correct == (if top[i].0@ == username { correct } else { true })
    }
    &&& update.current_player is None
    &&& update.total_responses == 1
}

/// Builds the leaderboard broadcast after `username` answered.
pub fn leaderboard_update(top: Vec<(String, i32)>, username: &String, correct: bool) -> (update: LeaderboardUpdate)
    requires
        top@.len() < i32::MAX,
    ensures
        is_leaderboard(update, top@, username@, correct),
{
    let mut players: Vec<PlayerScore> = Vec::new();
    let n = top.len();
    let mut i: usize = 0;
    while i < n
        invariant
            n == top@.len(),
            n < i32::MAX,
            i <= n,
            players@.len() == i,
            forall|k: int| 0 <= k < i ==> {
                let entry = #[trigger] players@[k];
                &&& entry.username@ == top@[k].0@
                &&& entry.score == top@[k].1
                &&& entry.rank == k + 1
                &&& entry.last_answer_correct == (if top@[k].0@ == username@ { correct } else { true })
            },
        decreases n - i,
    {
        let (name, score) = &top[i];
        let is_correct = if name.eq(username) { correct } else { true };
        players.push(PlayerScore {
            username: name.clone(),
            score: *score,
            rank: (i + 1) as i32,
            last_answer_correct: is_correct,
        });
        i = i + 1;
    }
    LeaderboardUpdate { top_players: players, current_player: None, total_responses: 1 }
}

impl AnswerFlow {
    /// The event kinds the flow can take in its current stage, with what the
    /// engine must have checked before handing them over.
    pub open spec fn awaits(self, event: AnswerEvent) -> bool {
        match self.stage {
            AnswerStage::AwaitingSession => event is SessionFound,
            AnswerStage::AwaitingQuestion => event matches AnswerEvent::QuestionFetched(q)
                && (q matches Some(question) ==> question.has_valid_answer()),
            AnswerStage::AwaitingScore => event is Scored,
            AnswerStage::AwaitingIncrement => event is ScoreIncremented,
            AnswerStage::AwaitingTopPlayers => event matches AnswerEvent::TopPlayersFetched(t)
                && (t matches Some(top) ==> top@.len() < i32::MAX),
            AnswerStage::Done => false,
        }
    }

    /// `post` keeps the answer of `self`, with the given name, verdict, points and stage.
    pub open spec fn moves_to(self, post: AnswerFlow, username: Seq<char>, correct: bool, points: i32, stage: AnswerStage) -> bool {
        &&& post.user_id == self.user_id
        &&& post.answer == self.answer
        &&& post.response_time_ms == self.response_time_ms
        &&& post.username@ == username
        &&& post.correct == correct
        &&& post.points == points
        &&& post.stage == stage
    }

    /// `post` keeps everything of `self` but the stage.
    pub open spec fn stays_with(self, post: AnswerFlow, stage: AnswerStage) -> bool {
        self.moves_to(post, self.username@, self.correct, self.points, stage)
    }

    /// How many steps at most remain for this answer.
    pub open spec fn steps_left(self) -> nat {
        match self.stage {
            AnswerStage::AwaitingSession => 5,
            AnswerStage::AwaitingQuestion => 4,
            AnswerStage::AwaitingScore => 3,
            AnswerStage::AwaitingIncrement => 2,
            AnswerStage::AwaitingTopPlayers => 1,
            AnswerStage::Done => 0,
        }
    }
}

/// The flow adds `points` for `pre`'s player, with the given verdict.
pub open spec fn increments(pre: AnswerFlow, post: AnswerFlow, action: AnswerAction, correct: bool, points: i32) -> bool {
    &&& pre.moves_to(post, pre.username@, correct, points, AnswerStage::AwaitingIncrement)
    &&& action matches AnswerAction::IncrementScore { username, points: p } && username@ == pre.username@ && p == points
}

/// The flow stops without sending anything.
pub open spec fn ignores(pre: AnswerFlow, post: AnswerFlow, action: AnswerAction) -> bool {
    pre.stays_with(post, AnswerStage::Done) && action is Ignore
}

/// How a new answer starts: the flow looks up the player's session.
pub open spec fn answer_start(user_id: Seq<char>, answer: Seq<char>, response_time_ms: i32, flow: AnswerFlow, action: AnswerAction) -> bool {
    &&& flow.user_id@ == user_id
    &&& flow.answer@ == answer
    &&& flow.response_time_ms == response_time_ms
    &&& flow.username@.len() == 0
    &&& !flow.correct
    &&& flow.points == 0
    &&& flow.stage is AwaitingSession
    &&& action matches AnswerAction::FetchSession { key } && key@ == session_key_of(user_id)
}

/// One step of the flow: from `pre`, on `event`, it becomes `post` and asks for `action`.
pub open spec fn answer_transition(pre: AnswerFlow, event: AnswerEvent, post: AnswerFlow, action: AnswerAction) -> bool {
    match pre.stage {
        AnswerStage::AwaitingSession => match event {
            AnswerEvent::SessionFound(None) => ignores(pre, post, action),
            AnswerEvent::SessionFound(Some(name)) =>
                pre.moves_to(post, name@, pre.correct, pre.points, AnswerStage::AwaitingQuestion)
                    && action is FetchQuestion,
            _ => false,
        },
        AnswerStage::AwaitingQuestion => match event {
            AnswerEvent::QuestionFetched(Some(question)) =>
                if answer_accepted(pre.answer@, question) {
                    &&& pre.stays_with(post, AnswerStage::AwaitingScore)
                    &&& action == (AnswerAction::ComputeScore {
                        response_time_ms: pre.response_time_ms,
                        time_limit_ms: ANSWER_TIME_LIMIT_MS,
                    })
                } else {
                    increments(pre, post, action, false, 0)
                },
            AnswerEvent::QuestionFetched(None) => increments(pre, post, action, false, 0),
            _ => false,
        },
        AnswerStage::AwaitingScore => match event {
            AnswerEvent::Scored(points) => increments(pre, post, action, true, points),
            _ => false,
        },
        AnswerStage::AwaitingIncrement => match event {
            AnswerEvent::ScoreIncremented { ok } =>
                if ok {
                    pre.stays_with(post, AnswerStage::AwaitingTopPlayers)
                        && action == (AnswerAction::FetchTopPlayers { count: LEADERBOARD_SIZE })
                } else {
                    ignores(pre, post, action)
                },
            _ => false,
        },
        AnswerStage::AwaitingTopPlayers => match event {
            AnswerEvent::TopPlayersFetched(Some(top)) => {
                &&& pre.stays_with(post, AnswerStage::Done)
                &&& action matches AnswerAction::Broadcast(ServerEvent::Leaderboard(update))
                    && is_leaderboard(update, top@, pre.username@, pre.correct)
            },
            AnswerEvent::TopPlayersFetched(None) => ignores(pre, post, action),
            _ => false,
        },
        AnswerStage::Done => false,
    }
}

impl AnswerFlow {
    /// Starts handling an answer: the first action reads the player's session.
    pub fn start(user_id: String, answer: String, response_time_ms: i32) -> (out: (AnswerFlow, AnswerAction))
        ensures
            answer_start(user_id@, answer@, response_time_ms, out.0, out.1),
    {
        let key = session_key(user_id.as_str());
        let flow = AnswerFlow {
            user_id,
            answer,
            response_time_ms,
            username: String::new(),
            correct: false,
            points: 0,
            stage: AnswerStage::AwaitingSession,
        };
        (flow, AnswerAction::FetchSession { key })
    }

    fn increment(self, correct: bool, points: i32) -> (out: (AnswerFlow, AnswerAction))
        ensures
            increments(self, out.0, out.1, correct, points),
    {
        let username = self.username.clone();
        let flow = AnswerFlow { correct, points, stage: AnswerStage::AwaitingIncrement, ..self };
        (flow, AnswerAction::IncrementScore { username, points })
    }

    fn ignore(self) -> (out: (AnswerFlow, AnswerAction))
        ensures
            ignores(self, out.0, out.1),
    {
        (AnswerFlow { stage: AnswerStage::Done, ..self }, AnswerAction::Ignore)
    }

    /// Takes the outcome of the last action and decides the next one.
    pub fn advance(self, event: AnswerEvent) -> (out: (AnswerFlow, AnswerAction))
        requires
            self.awaits(event),
        ensures
            answer_transition(self, event, out.0, out.1),
    {
        match self.stage {
            AnswerStage::AwaitingSession => match event {
                AnswerEvent::SessionFound(Some(name)) => {
                    let flow = AnswerFlow { username: name, stage: AnswerStage::AwaitingQuestion, ..self };
                    (flow, AnswerAction::FetchQuestion)
                },
                _ => self.ignore(),
            },
            AnswerStage::AwaitingQuestion => match event {
                AnswerEvent::QuestionFetched(Some(question)) => {
                    if is_answer_accepted(self.answer.as_str(), &question) {
                        let rt = self.response_time_ms;
                        let flow = AnswerFlow { stage: AnswerStage::AwaitingScore, ..self };
                        (flow, AnswerAction::ComputeScore { response_time_ms: rt, time_limit_ms: ANSWER_TIME_LIMIT_MS })
                    } else {
                        self.increment(false, 0)
                    }
                },
                _ => self.increment(false, 0),
            },
            AnswerStage::AwaitingScore => match event {
                AnswerEvent::Scored(points) => self.increment(true, points),
                _ => {
                    proof { assert(false); }
                    self.ignore()
                },
            },
            AnswerStage::AwaitingIncrement => match event {
                AnswerEvent::ScoreIncremented { ok } => {
                    if ok {
                        let flow = AnswerFlow { stage: AnswerStage::AwaitingTopPlayers, ..self };
                        (flow, AnswerAction::FetchTopPlayers { count: LEADERBOARD_SIZE })
                    } else {
                        self.ignore()
                    }
                },
                _ => {
                    proof { assert(false); }
                    self.ignore()
                },
            },
            AnswerStage::AwaitingTopPlayers => match event {
                AnswerEvent::TopPlayersFetched(Some(top)) => {
                    let update = leaderboard_update(top, &self.username, self.correct);
                    let flow = AnswerFlow { stage: AnswerStage::Done, ..self };
                    (flow, AnswerAction::Broadcast(ServerEvent::Leaderboard(update)))
                },
                _ => self.ignore(),
            },
            AnswerStage::Done => {
                proof { assert(false); }
                self.ignore()
            },
        }
    }
}

/// The handling of an answer always ends: every step brings it closer to its end.
pub proof fn lemma_answer_progresses(pre: AnswerFlow, event: AnswerEvent, post: AnswerFlow, action: AnswerAction)
    requires
        pre.awaits(event),
        answer_transition(pre, event, post, action),
    ensures
        post.steps_left() < pre.steps_left(),
{
}

/// An answer from a player without a session is dropped: no points are added
/// and nothing is broadcast.
pub proof fn lemma_answer_without_session_ignored(pre: AnswerFlow, post: AnswerFlow, action: AnswerAction)
    requires
        pre.stage is AwaitingSession,
        answer_transition(pre, AnswerEvent::SessionFound(None), post, action),
    ensures
        action is Ignore,
        post.stage is Done,
{
}

/// A wrong answer, or one that cannot be checked because no question came
/// back, earns no points, and the player is recorded as having answered wrong.
pub proof fn lemma_rejected_answer_earns_nothing(pre: AnswerFlow, question: Option<MongoQuestion>, post: AnswerFlow, action: AnswerAction)
    requires
        pre.stage is AwaitingQuestion,
        question matches Some(q) ==> !answer_accepted(pre.answer@, q),
        answer_transition(pre, AnswerEvent::QuestionFetched(question), post, action),
    ensures
        action matches AnswerAction::IncrementScore { username, points } && points == 0 && username@ == pre.username@,
        !post.correct,
{
}

/// A right answer is scored by the strategy, with the time the player took and
/// the question's time limit, and exactly those points are added.
pub proof fn lemma_right_answer_scored_by_strategy(
    pre: AnswerFlow,
    question: MongoQuestion,
    mid: AnswerFlow,
    ask: AnswerAction,
    points: i32,
    post: AnswerFlow,
    add: AnswerAction,
)
    requires
        pre.stage is AwaitingQuestion,
        answer_accepted(pre.answer@, question),
        answer_transition(pre, AnswerEvent::QuestionFetched(Some(question)), mid, ask),
        answer_transition(mid, AnswerEvent::Scored(points), post, add),
    ensures
        ask == (AnswerAction::ComputeScore { response_time_ms: pre.response_time_ms, time_limit_ms: ANSWER_TIME_LIMIT_MS }),
        add matches AnswerAction::IncrementScore { username, points: p } && p == points && username@ == pre.username@,
        post.correct,
{
}

/// The session the authentication service stores for an account is the one
/// the game engine reads when that account answers.
pub proof fn lemma_login_session_found_by_engine(
    saga: JoinSaga,
    saga_next: JoinSaga,
    store: JoinAction,
    answer: Seq<char>,
    response_time_ms: i32,
    flow: AnswerFlow,
    fetch: AnswerAction,
)
    requires
        saga.stage is Connecting,
        join_transition(saga, JoinEvent::SessionStoreReached { ok: true }, saga_next, store),
        answer_start(saga.user_id@, answer, response_time_ms, flow, fetch),
    ensures
        store matches JoinAction::StoreSession { key, username, ttl_secs }
            && fetch matches AnswerAction::FetchSession { key: read_key }
            && key@ == read_key@
            && username@ == saga.username@,
{
}

} // verus!
