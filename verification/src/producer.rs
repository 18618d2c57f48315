//! Publishing an event to the message queue, with one reconnection and one
//! retry when the first attempt fails. The library decides what to do next;
//! the caller performs the action and reports how it went.

use vstd::prelude::*;

verus! {

/// Where a publication stands.
#[derive(PartialEq, Eq, Structural)]
pub enum PublishPhase {
    /// The first attempt to publish is under way.
    FirstAttempt,
    /// The first attempt failed; the connection is being re-established.
    Reconnecting,
    /// The connection was re-established; the second attempt is under way.
    Retrying,
    /// The publication is over.
    Finished,
}

/// What the caller is to do next.
pub enum PublishAction {
    /// Publish the payload on the current channel.
    Publish,
    /// Open a new connection and channel to the queue.
    Reconnect,
    /// Stop, with this result.
    Finish(Result<(), String>),
}

/// The step from `phase` on the outcome of the action last asked for: the new
/// phase and the next action.
pub open spec fn publish_step(phase: PublishPhase, outcome: Result<(), String>) -> (
    PublishPhase,
    PublishAction,
) {
    match phase {
        PublishPhase::FirstAttempt => match outcome {
            Ok(_) => (PublishPhase::Finished, PublishAction::Finish(Ok(()))),
            Err(_) => (PublishPhase::Reconnecting, PublishAction::Reconnect),
        },
        PublishPhase::Reconnecting => match outcome {
            Ok(_) => (PublishPhase::Retrying, PublishAction::Publish),
            Err(e) => (PublishPhase::Finished, PublishAction::Finish(Err(e))),
        },
        _ => match outcome {
            Ok(_) => (PublishPhase::Finished, PublishAction::Finish(Ok(()))),
            Err(e) => (PublishPhase::Finished, PublishAction::Finish(Err(e))),
        },
    }
}

/// The state of one publication.
pub struct PublishRetry {
    pub phase: PublishPhase,
}

impl PublishRetry {
    /// Starts a publication: the first action is to publish.
    pub fn start() -> (res: (PublishRetry, PublishAction))
        ensures
            res.0.phase == PublishPhase::FirstAttempt,
            res.1 is Publish,
    {
        (PublishRetry { phase: PublishPhase::FirstAttempt }, PublishAction::Publish)
    }

    /// Whether the publication is over.
    pub fn is_finished(&self) -> (b: bool)
        ensures
            b == (self.phase == PublishPhase::Finished),
    {
        match self.phase {
            PublishPhase::Finished => true,
            _ => false,
        }
    }

    /// Takes the outcome of the action last asked for and gives the next one.
    /// The error of a failed first attempt is dropped (a reconnection follows);
    /// the error of a failed reconnection or of a failed second attempt ends
    /// the publication.
    pub fn step(&mut self, outcome: Result<(), String>) -> (action: PublishAction)
        requires
            old(self).phase != PublishPhase::Finished,
        ensures
            (final(self).phase, action) == publish_step(old(self).phase, outcome),
    {
        match self.phase {
            PublishPhase::FirstAttempt => match outcome {
                Ok(_) => {
                    self.phase = PublishPhase::Finished;
                    PublishAction::Finish(Ok(()))
                },
                Err(_) => {
                    self.phase = PublishPhase::Reconnecting;
                    PublishAction::Reconnect
                },
            },
            PublishPhase::Reconnecting => match outcome {
                Ok(_) => {
                    self.phase = PublishPhase::Retrying;
                    PublishAction::Publish
                },
                Err(e) => {
                    self.phase = PublishPhase::Finished;
                    PublishAction::Finish(Err(e))
                },
            },
            _ => {
                self.phase = PublishPhase::Finished;
                match outcome {
                    Ok(_) => PublishAction::Finish(Ok(())),
                    Err(e) => PublishAction::Finish(Err(e)),
                }
            },
        }
    }
}

/// The result of a publication whose first attempt, reconnection and second
/// attempt went as given (the latter two only matter when reached).
pub open spec fn publish_result(
    first: Result<(), String>,
    reconnect: Result<(), String>,
    retry: Result<(), String>,
) -> Result<(), String> {
    if first is Ok {
        Ok(())
    } else if reconnect is Err {
        reconnect
    } else {
        retry
    }
}

/// A publication ends after at most three actions and asks to publish at most
/// twice: it succeeds when the first attempt succeeds, or when the
/// reconnection and the second attempt both succeed; otherwise it fails with
/// the error of the reconnection, or else of the second attempt.
pub proof fn lemma_publish_retries_once(
    first: Result<(), String>,
    reconnect: Result<(), String>,
    retry: Result<(), String>,
)
    ensures
        ({
            let (p1, a1) = publish_step(PublishPhase::FirstAttempt, first);
            let (p2, a2) = publish_step(p1, reconnect);
            let (p3, a3) = publish_step(p2, retry);
            &&& first is Ok ==> p1 == PublishPhase::Finished && a1 == PublishAction::Finish(
                publish_result(first, reconnect, retry),
            )
            &&& first is Err ==> a1 is Reconnect
            &&& (first is Err && reconnect is Err) ==> p2 == PublishPhase::Finished && a2
                == PublishAction::Finish(publish_result(first, reconnect, retry))
            &&& (first is Err && reconnect is Ok) ==> a2 is Publish && p3 == PublishPhase::Finished
                && a3 == PublishAction::Finish(publish_result(first, reconnect, retry))
        }),
{
    if let Ok(u) = retry {
        assert(u == ());
    }
}

} // verus!
