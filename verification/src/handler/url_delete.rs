//! Deleting a short key.

use vstd::prelude::*;

use crate::handler::{
    failure_reply, spec_failure_reply, unit_result_view, Error, ErrorView, Reply, ReplyBody,
    ReplyBodyView, ReplyView, Success,
};

verus! {

/// What to do once the store said how many entries `key` names.
#[derive(Debug, PartialEq, Eq)]
pub enum DeleteStep {
    /// Remove the entry under the key.
    Remove,
    /// Answer with this result; nothing is removed.
    Done(Result<(), Error>),
}

/// The mathematical content of a [`DeleteStep`].
pub enum DeleteStepView {
    Remove,
    Done(Result<(), ErrorView>),
}

impl View for DeleteStep {
    type V = DeleteStepView;

    open spec fn view(&self) -> DeleteStepView {
        match self {
            DeleteStep::Remove => DeleteStepView::Remove,
            DeleteStep::Done(r) => DeleteStepView::Done(unit_result_view(*r)),
        }
    }
}

/// The step that follows the existence check: a key that names an entry is
/// removed; one that names none is not found; a failed check ends the
/// request.
pub open spec fn spec_delete_on_exists(key: Seq<char>, exists: Result<i8, Seq<char>>) -> DeleteStepView {
    match exists {
        Ok(n) => if n > 0 {
            DeleteStepView::Remove
        } else {
            DeleteStepView::Done(Err(ErrorView::NotFound(key)))
        },
        Err(m) => DeleteStepView::Done(Err(ErrorView::RedisQuery(m))),
    }
}

/// The result of deleting once the removal was tried.
pub open spec fn spec_delete_on_remove(removed: Result<(), Seq<char>>) -> Result<(), ErrorView> {
    match removed {
        Ok(()) => Ok(()),
        Err(m) => Err(ErrorView::RedisQuery(m)),
    }
}

/// The message of a successful delete.
pub open spec fn deleted_message() -> Seq<char> {
    "URL deleted successfully!"@
}

/// The reply to a delete request: 200 with the message, or the failure.
pub open spec fn spec_delete_reply(request_id: Seq<char>, outcome: Result<(), ErrorView>) -> ReplyView {
    match outcome {
        Ok(()) => ReplyView {
            status: 200,
            location: None,
            body: ReplyBodyView::Message { request_id, message: deleted_message() },
        },
        Err(e) => spec_failure_reply(request_id, e),
    }
}

/// Decides what follows the existence check of `key`.
pub fn delete_on_exists(key: &str, exists: Result<i8, String>) -> (step: DeleteStep)
    ensures
        step@ == spec_delete_on_exists(
            key@,
            match exists {
                Ok(n) => Ok(n),
                Err(m) => Err(m@),
            },
        ),
{
    match exists {
        Ok(n) => {
            if n > 0 {
                DeleteStep::Remove
            } else {
                DeleteStep::Done(Err(Error::NotFound(String::from_str(key))))
            }
        },
        Err(m) => DeleteStep::Done(Err(Error::RedisQuery(m))),
    }
}

/// The result of deleting, once the removal was tried.
pub fn delete_on_remove(removed: Result<(), String>) -> (res: Result<(), Error>)
    ensures
        unit_result_view(res) == spec_delete_on_remove(
            match removed {
                Ok(()) => Ok(()),
                Err(m) => Err(m@),
            },
        ),
{
    match removed {
        Ok(()) => Ok(()),
        Err(m) => Err(Error::RedisQuery(m)),
    }
}

/// Builds the reply to a delete request.
pub fn delete_reply(request_id: String, outcome: Result<(), Error>) -> (reply: Reply)
    ensures
        reply@ == spec_delete_reply(request_id@, unit_result_view(outcome)),
{
    match outcome {
        Ok(()) => Reply {
            status: 200,
            location: None,
            body: ReplyBody::Message(
                Success { request_id, payload: String::from_str("URL deleted successfully!") },
            ),
        },
        Err(e) => failure_reply(request_id, e),
    }
}


/// A key that names at least one entry is removed; one that names none is
/// not found, for that very key; a failed check gives a query error with the
/// store's message.
pub proof fn lemma_delete_on_exists(key: Seq<char>, n: i8, m: Seq<char>)
    ensures
        n > 0 ==> spec_delete_on_exists(key, Ok(n)) == DeleteStepView::Remove,
        n <= 0 ==> spec_delete_on_exists(key, Ok(n)) == DeleteStepView::Done(
            Err::<(), ErrorView>(ErrorView::NotFound(key)),
        ),
        spec_delete_on_exists(key, Err(m)) == DeleteStepView::Done(
            Err::<(), ErrorView>(ErrorView::RedisQuery(m)),
        ),
{
}

/// A removal that succeeded gives success; a failed one a query error with
/// the store's message.
pub proof fn lemma_delete_on_remove(m: Seq<char>)
    ensures
        spec_delete_on_remove(Ok(())) == Ok::<(), ErrorView>(()),
        spec_delete_on_remove(Err(m)) == Err::<(), ErrorView>(ErrorView::RedisQuery(m)),
{
}

/// A successful delete is answered 200 with the request's id and the message
/// `URL deleted successfully!`; a key with nothing stored 404, any other
/// error 500, each with the error's message.
pub proof fn lemma_delete_reply(request_id: Seq<char>, e: ErrorView)
    ensures
        spec_delete_reply(request_id, Ok(())) == (ReplyView {
            status: 200,
            location: None,
            body: ReplyBodyView::Message { request_id, message: "URL deleted successfully!"@ },
        }),
        spec_delete_reply(request_id, Err(e)).status == (if e is NotFound {
            404u16
        } else {
            500u16
        }),
        spec_delete_reply(request_id, Err(e)).location == None::<Seq<char>>,
        spec_delete_reply(request_id, Err(e)).body == (ReplyBodyView::Failure {
            request_id,
            error: e.message(),
        }),
{
}


/// A delete step's view keeps its kind and what it carries unchanged.
pub proof fn lemma_delete_step_view(step: DeleteStep)
    ensures
        step is Remove ==> step@ == DeleteStepView::Remove,
        step matches DeleteStep::Done(r) ==> step@ == DeleteStepView::Done(unit_result_view(r)),
{
}

} // verus!
