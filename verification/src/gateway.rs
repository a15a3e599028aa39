//! The gateway's treatment of the player stream it forwards to the engine.
use vstd::prelude::*;

verus! {

/// What the gateway forwards of one item of a player's stream: the message
/// when it arrived intact, nothing when the transport reported an error.
pub fn forwarded_message<T, E>(item: Result<T, E>) -> (out: Option<T>)
    ensures
        out == (match item {
            Ok(message) => Some(message),
            Err(_) => None::<T>,
        }),
{
    match item {
        Ok(message) => Some(message),
        Err(_) => None,
    }
}

} // verus!
