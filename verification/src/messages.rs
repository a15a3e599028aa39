//! The messages the services exchange with players, the moderator and each other.
use vstd::prelude::*;
use vstd::string::StringExecFns;

verus! {

/// The status code of a refused remote call.
#[derive(Debug, Clone, Copy, PartialEq, Eq, Structural)]
pub enum RpcCode {
    Internal,
    Unavailable,
}

/// A refused remote call: a status code and a message for the caller.
#[derive(Debug)]
pub struct RpcError {
    pub code: RpcCode,
    pub message: String,
}

/// A player's request to enter the arena, logging in or registering.
#[derive(Debug)]
pub struct JoinRequest {
    pub username: String,
    pub password: String,
}

/// The answer to a join request.
#[derive(Debug)]
pub struct JoinResponse {
    pub success: bool,
    pub user_id: String,
    pub message: String,
}

/// A question shown to every player, or the end-of-game screen when it has no options.
#[derive(Debug)]
pub struct QuestionPayload {
    pub text: String,
    pub options: Vec<String>,
    pub time_limit_sec: i32,
}

/// One line of the leaderboard.
#[derive(Debug)]
pub struct PlayerScore {
    pub username: String,
    pub score: i32,
    pub rank: i32,
    pub last_answer_correct: bool,
}

/// The leaderboard sent to every player after an answer was scored.
#[derive(Debug)]
pub struct LeaderboardUpdate {
    pub top_players: Vec<PlayerScore>,
    pub current_player: Option<PlayerScore>,
    pub total_responses: i32,
}

/// The answer to a moderator's command.
#[derive(Debug)]
pub struct ModeratorAck {
    pub success: bool,
}

/// What the game engine broadcasts to every connected player.
#[derive(Debug)]
pub enum ServerEvent {
    NewQuestion(QuestionPayload),
    Leaderboard(LeaderboardUpdate),
    EmojiBroadcast(String),
}

/// The error `code` with the message `message`.
pub open spec fn is_rpc_error(e: RpcError, code: RpcCode, message: Seq<char>) -> bool {
    e.code == code && e.message@ == message
}

/// A join response with the given fields.
pub open spec fn is_join_response(r: JoinResponse, success: bool, user_id: Seq<char>, message: Seq<char>) -> bool {
    &&& r.success == success
    &&& r.user_id@ == user_id
    &&& r.message@ == message
}

/// Builds a refused call.
pub fn rpc_error(code: RpcCode, message: &str) -> (e: RpcError)
    ensures
        is_rpc_error(e, code, message@),
{
    RpcError { code, message: String::from_str(message) }
}

/// Builds a join response.
pub fn join_response(success: bool, user_id: &str, message: &str) -> (r: JoinResponse)
    ensures
        is_join_response(r, success, user_id@, message@),
{
    JoinResponse { success, user_id: String::from_str(user_id), message: String::from_str(message) }
}

/// The broadcast that relays a player's emoji reaction to everyone.
pub fn emoji_broadcast(emoji_code: String) -> (e: ServerEvent)
    ensures
        e == ServerEvent::EmojiBroadcast(emoji_code),
{
    ServerEvent::EmojiBroadcast(emoji_code)
}

} // verus!
