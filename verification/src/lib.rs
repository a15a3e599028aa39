//! Verified core of a multiplayer trivia arena: the login/registration saga,
//! the answer-scoring flow, the question rounds and the gateway's stream filter.
pub mod messages;
pub mod text;
pub mod credentials;
pub mod join;
pub mod questions;
pub mod rounds;
pub mod scoring;
pub mod answers;
pub mod gateway;
pub mod endgame;
