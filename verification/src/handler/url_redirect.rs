//! Redirecting a short key to its long URL.

use vstd::prelude::*;

use crate::handler::{
    failure_reply, payload_result_view, spec_failure_reply, Error, ErrorView, Lookup, LookupView,
    PayloadView, Reply, ReplyBody, ReplyBodyView, ReplyView, UrlResponsePayload,
};

verus! {

/// What reading `key` gives: the stored payload, or the error that explains
/// why there is none.
pub open spec fn spec_get(key: Seq<char>, lookup: LookupView) -> Result<PayloadView, ErrorView> {
    match lookup {
        LookupView::Found(p) => Ok(p),
        LookupView::Missing => Err(ErrorView::NotFound(key)),
        LookupView::Undecodable(m) => Err(ErrorView::Serialisation(m)),
        LookupView::Failed(m) => Err(ErrorView::RedisQuery(m)),
    }
}

/// The reply to a redirect request: 302 to the long URL, or the failure.
pub open spec fn spec_redirect_reply(
    request_id: Seq<char>,
    outcome: Result<PayloadView, ErrorView>,
) -> ReplyView {
    match outcome {
        Ok(p) => ReplyView { status: 302, location: Some(p.long_url), body: ReplyBodyView::Empty },
        Err(e) => spec_failure_reply(request_id, e),
    }
}

/// The result of reading `key`, once the store was read.
pub fn get_on_lookup(key: &str, lookup: Lookup) -> (res: Result<UrlResponsePayload, Error>)
    ensures
        payload_result_view(res) == spec_get(key@, lookup@),
{
    match lookup {
        Lookup::Found(p) => Ok(p),
        Lookup::Missing => Err(Error::NotFound(String::from_str(key))),
        Lookup::Undecodable(m) => Err(Error::Serialisation(m)),
        Lookup::Failed(m) => Err(Error::RedisQuery(m)),
    }
}

/// Builds the reply to a redirect request.
pub fn redirect_reply(request_id: String, outcome: Result<UrlResponsePayload, Error>) -> (reply:
    Reply)
    ensures
        reply@ == spec_redirect_reply(request_id@, payload_result_view(outcome)),
{
    match outcome {
        Ok(p) => Reply { status: 302, location: Some(p.long_url), body: ReplyBody::Empty },
        Err(e) => failure_reply(request_id, e),
    }
}


/// Reading a key gives the stored payload unchanged; nothing stored gives
/// not-found for that very key; an undecodable entry or a failed read gives
/// that error with its message.
pub proof fn lemma_get(key: Seq<char>, lookup: LookupView)
    ensures
        lookup matches LookupView::Found(p) ==> spec_get(key, lookup) == Ok::<
            PayloadView,
            ErrorView,
        >(p),
        lookup is Missing ==> spec_get(key, lookup) == Err::<PayloadView, ErrorView>(
            ErrorView::NotFound(key),
        ),
        lookup matches LookupView::Undecodable(m) ==> spec_get(key, lookup) == Err::<
            PayloadView,
            ErrorView,
        >(ErrorView::Serialisation(m)),
        lookup matches LookupView::Failed(m) ==> spec_get(key, lookup) == Err::<
            PayloadView,
            ErrorView,
        >(ErrorView::RedisQuery(m)),
{
}

/// A found payload is answered 302 to its long URL, unchanged, with no body;
/// a key with nothing stored 404, any other error 500, each with the error's
/// message.
pub proof fn lemma_redirect_reply(request_id: Seq<char>, payload: PayloadView, e: ErrorView)
    ensures
        spec_redirect_reply(request_id, Ok(payload)) == (ReplyView {
            status: 302,
            location: Some(payload.long_url),
            body: ReplyBodyView::Empty,
        }),
        spec_redirect_reply(request_id, Err(e)).status == (if e is NotFound {
            404u16
        } else {
            500u16
        }),
        spec_redirect_reply(request_id, Err(e)).location == None::<Seq<char>>,
        spec_redirect_reply(request_id, Err(e)).body == (ReplyBodyView::Failure {
            request_id,
            error: e.message(),
        }),
{
}

} // verus!
