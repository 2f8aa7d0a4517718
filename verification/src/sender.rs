use crate::system::{AidError, SystemMsg};
use vstd::prelude::*;

verus! {

/// How an attempt to put a message into a mailbox channel ended.
#[derive(Debug, Clone, Copy, PartialEq, Eq, Structural)]
pub enum SendOutcome {
    Sent,
    /// The channel had no room.
    Full,
    /// Every receiver is gone.
    Disconnected,
}

/// What a send reports: only a disconnected mailbox is an error; a message
/// refused for lack of room is dropped without one.
pub fn send_result(outcome: SendOutcome) -> (r: Result<(), AidError>)
    ensures
        r == (if outcome == SendOutcome::Disconnected {
            Err::<(), AidError>(AidError::ActorAlreadyStopped)
        } else {
            Ok(())
        }),
{
    match outcome {
        SendOutcome::Disconnected => Err(AidError::ActorAlreadyStopped),
        _ => Ok(()),
    }
}

/// A control message for an actor with separate channels: a Stop is not
/// sent but closes the actor's channels; any other control message is sent.
pub fn closes_instead_of_sending<A>(msg: &SystemMsg<A>) -> (r: bool)
    ensures
        r == (*msg is Stop),
{
    match msg {
        SystemMsg::Stop => true,
        _ => false,
    }
}

} // verus!
