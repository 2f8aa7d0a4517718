use crate::system::Status;
use vstd::prelude::*;

verus! {

/// Why an actor's message loop ended early.
#[derive(Debug)]
pub enum RunHandlerError<E> {
    /// The handler asked to stop.
    Stopped,
    /// The handler failed.
    Error(E),
}

/// The sink that feeds an actor's handler, one message at a time. `R` is
/// what the handler needs between messages (its context and state), `P`
/// the computation that handles one message.
pub enum RunHandler<R, P> {
    /// Waiting for the next message.
    Ready(R),
    /// Handling a message.
    Processing(P),
    /// Taken apart, between two steps.
    Invalid,
}

/// What polling the handling of a message produced.
pub enum HandlePoll<R, E> {
    /// Still running.
    Pending,
    /// The handler failed.
    Failed(E),
    /// The handler finished, handing back its context and state.
    Finished(R, Status),
}

/// The answer of a sink poll.
pub enum SinkPoll<E> {
    Ready(Result<(), RunHandlerError<E>>),
    Pending,
}

/// First half of a readiness poll.
pub enum PollStart<P, E> {
    /// Answer without polling anything.
    Answer(SinkPoll<E>),
    /// Poll this computation, then report with `end_poll`.
    Poll(P),
}

/// The handler state after a message computation was polled, and the answer.
pub open spec fn after_poll<R, P, E>(p: P, polled: HandlePoll<R, E>) -> (RunHandler<R, P>, SinkPoll<E>) {
    match polled {
        HandlePoll::Pending => (RunHandler::Processing(p), SinkPoll::Pending),
        HandlePoll::Failed(e) => (RunHandler::Invalid, SinkPoll::Ready(Err(RunHandlerError::Error(e)))),
        HandlePoll::Finished(r, Status::Stop) => (
            RunHandler::Invalid,
            SinkPoll::Ready(Err(RunHandlerError::Stopped)),
        ),
        HandlePoll::Finished(r, Status::Done) => (RunHandler::Ready(r), SinkPoll::Ready(Ok(()))),
    }
}

/// Closing the sink: a clean readiness leaves the sink spent, and a handler
/// that asked to stop counts as a clean close.
pub open spec fn close_answer<E>(ready: SinkPoll<E>) -> SinkPoll<E> {
    match ready {
        SinkPoll::Ready(Err(RunHandlerError::Stopped)) => SinkPoll::Ready(Ok(())),
        other => other,
    }
}

impl<R, P> RunHandler<R, P> {
    /// Whether the sink waits for a message.
    pub fn is_ready(&self) -> (r: bool)
        ensures
            r == (*self is Ready),
    {
        match self {
            RunHandler::Ready(..) => true,
            _ => false,
        }
    }

    /// Takes the state out, leaving `Invalid`.
    pub fn take(&mut self) -> (r: Self)
        ensures
            r == *old(self),
            *final(self) is Invalid,
    {
        let mut taken = RunHandler::Invalid;
        std::mem::swap(&mut taken, self);
        taken
    }

    /// First half of a readiness poll: a ready sink is ready; a busy sink
    /// hands out its computation to be polled.
    pub fn begin_poll<E>(&mut self) -> (r: PollStart<P, E>)
        requires
            !(*old(self) is Invalid),
        ensures
            match *old(self) {
                RunHandler::Ready(x) => *final(self) == RunHandler::<R, P>::Ready(x) && r
                    == PollStart::<P, E>::Answer(SinkPoll::Ready(Ok(()))),
                RunHandler::Processing(p) => *final(self) is Invalid && r == PollStart::<P, E>::Poll(p),
                RunHandler::Invalid => false,
            },
    {
        match self.take() {
            RunHandler::Ready(x) => {
                *self = RunHandler::Ready(x);
                PollStart::Answer(SinkPoll::Ready(Ok(())))
            },
            RunHandler::Processing(p) => PollStart::Poll(p),
            RunHandler::Invalid => {
                proof {
                    assert(false);
                }
                PollStart::Answer(SinkPoll::Pending)
            },
        }
    }

    /// Second half of a readiness poll: a pending computation is kept; a
    /// failure or a request to stop ends the loop; a finished message makes
    /// the sink ready for the next.
    pub fn end_poll<E>(&mut self, p: P, polled: HandlePoll<R, E>) -> (r: SinkPoll<E>)
        requires
            *old(self) is Invalid,
        ensures
            (*final(self), r) == after_poll(p, polled),
    {
        match polled {
            HandlePoll::Pending => {
                *self = RunHandler::Processing(p);
                SinkPoll::Pending
            },
            HandlePoll::Failed(e) => SinkPoll::Ready(Err(RunHandlerError::Error(e))),
            HandlePoll::Finished(x, status) => match status {
                Status::Stop => SinkPoll::Ready(Err(RunHandlerError::Stopped)),
                Status::Done => {
                    *self = RunHandler::Ready(x);
                    SinkPoll::Ready(Ok(()))
                },
            },
        }
    }

    /// Sending a message to a ready sink: hands out the context and state
    /// so that the caller builds the computation, then reports it with
    /// `processing`.
    pub fn begin_send(&mut self) -> (r: R)
        requires
            *old(self) is Ready,
        ensures
            *old(self) == RunHandler::<R, P>::Ready(r),
            *final(self) is Invalid,
    {
        match self.take() {
            RunHandler::Ready(x) => x,
            _ => {
                proof {
                    assert(false);
                }
                vstd::pervasive::unreached()
            },
        }
    }

    /// The computation handling the message just sent.
    pub fn processing(&mut self, p: P)
        requires
            *old(self) is Invalid,
        ensures
            *final(self) == RunHandler::<R, P>::Processing(p),
    {
        *self = RunHandler::Processing(p);
    }

    /// Closing: given the readiness answer, a clean readiness leaves the
    /// sink spent, and a handler that asked to stop closes cleanly.
    pub fn close<E>(&mut self, ready: SinkPoll<E>) -> (r: SinkPoll<E>)
        ensures
            r == close_answer(ready),
            (ready matches SinkPoll::Ready(Ok(()))) ==> *final(self) is Invalid,
            !(ready matches SinkPoll::Ready(Ok(()))) ==> *final(self) == *old(self),
    {
        let clean = match &ready {
            SinkPoll::Ready(Ok(_)) => true,
            _ => false,
        };
        if clean {
            *self = RunHandler::Invalid;
            ready
        } else {
            match ready {
                SinkPoll::Ready(Err(RunHandlerError::Stopped)) => SinkPoll::Ready(Ok(())),
                other => other,
            }
        }
    }
}

/// The error an actor's loop ends with, to be reported to its monitors:
/// only a failing handler leaves one; a stop or an exhausted mailbox does not.
pub fn exit_error<E>(result: Result<(), RunHandlerError<E>>) -> (r: Option<E>)
    ensures
        r == (match result {
            Err(RunHandlerError::Error(e)) => Some(e),
            _ => None,
        }),
{
    match result {
        Err(RunHandlerError::Error(e)) => Some(e),
        _ => None,
    }
}

/// A message that finishes with `Done` leaves the sink ready again with the
/// context and state it handed back; one that asks to stop ends the loop
/// with `Stopped`, which a close turns into a clean end.
pub proof fn lemma_handler_cycle<R, P, E>(p: P, x: R)
    ensures
        after_poll::<R, P, E>(p, HandlePoll::Finished(x, Status::Done)).0 == RunHandler::<R, P>::Ready(x),
        after_poll::<R, P, E>(p, HandlePoll::Finished(x, Status::Done)).1 == SinkPoll::<E>::Ready(Ok(())),
        close_answer(after_poll::<R, P, E>(p, HandlePoll::Finished(x, Status::Stop)).1) == SinkPoll::<
            E,
        >::Ready(Ok(())),
        after_poll::<R, P, E>(p, HandlePoll::Finished(x, Status::Stop)).0 is Invalid,
{
}

/// A handler failure is what the loop ends with: the close passes it on and
/// the actor reports it.
pub proof fn lemma_failure_is_reported<R, P, E>(p: P, e: E)
    ensures
        close_answer(after_poll::<R, P, E>(p, HandlePoll::Failed(e)).1) == SinkPoll::<E>::Ready(
            Err(RunHandlerError::Error(e)),
        ),
{
}

} // verus!
