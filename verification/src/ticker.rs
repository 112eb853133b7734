//! The puzzle ticker's gating rule: on each firing of the periodic timer,
//! request new work if and only if the session is connected.
//!
//! The timer itself lives outside the library and runs for the whole
//! process; it is connection-state-aware only through the shared connected
//! flag that the router maintains.

use vstd::prelude::*;

use crate::message::Message;
use crate::queue::OutboundQueue;

verus! {

/// The decision one timer firing comes down to: a puzzle request exactly
/// when the session is connected, nothing at all otherwise — the firing is
/// neither queued nor deferred.
pub fn ticker_message(connected: bool) -> (r: Option<Message>)
    ensures
        connected ==> r == Option::Some(Message::PuzzleRequest),
        !connected ==> r is None,
{
    if connected {
        Option::Some(Message::PuzzleRequest)
    } else {
        Option::None
    }
}

/// One firing of the ticker. While disconnected the firing is a no-op:
/// nothing is enqueued and nothing is deferred. While connected it enqueues
/// exactly one puzzle request, which a full queue may refuse back.
pub fn tick(connected: bool, queue: &mut OutboundQueue) -> (r: Result<(), Message>)
    requires
        old(queue).wf(),
    ensures
        final(queue).wf(),
        final(queue).cap() == old(queue).cap(),
        !connected ==> r is Ok && final(queue)@ == old(queue)@,
        connected && old(queue)@.len() < old(queue).cap() ==> r is Ok
            && final(queue)@ == old(queue)@.push(Message::PuzzleRequest),
        connected && old(queue)@.len() >= old(queue).cap() ==> r == Result::Err::<
            (),
            Message,
        >(Message::PuzzleRequest) && final(queue)@ == old(queue)@,
{
    if connected {
        queue.enqueue(Message::PuzzleRequest)
    } else {
        Result::Ok(())
    }
}

} // verus!
