//! How the write services answer a create request once the event announcing
//! the new item has been handed to the message queue.

use vstd::prelude::*;

verus! {

/// The answer to a create request.
pub enum Reply<T> {
    /// The item was created: answered with status 201 and `T` as body.
    Created(T),
    /// Something failed: answered with status 500 and this text as body.
    InternalError(String),
}

/// The text of the answer when publishing the event failed with `error`.
pub open spec fn publish_failure_text(error: Seq<char>) -> Seq<char> {
    "Failed to publish event: "@ + error
}

/// The answer once publishing the event has been tried: the created item when
/// it was published, else an internal error that quotes the publishing error.
pub fn publish_reply<T>(body: T, published: Result<(), String>) -> (r: Reply<T>)
    ensures
        match published {
            Ok(_) => r == Reply::Created(body),
            Err(e) => r matches Reply::InternalError(text) && text@ == publish_failure_text(e@),
        },
{
    match published {
        Ok(_) => Reply::Created(body),
        Err(e) => {
            let text = "Failed to publish event: ".to_owned().concat(e.as_str());
            Reply::InternalError(text)
        },
    }
}

} // verus!
