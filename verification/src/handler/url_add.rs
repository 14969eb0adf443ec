//! Adding a long URL: the request's data is checked, a payload is made from
//! the URL's key, the store is read under that key, and the payload is
//! written there, or under a second key where another URL holds the first.

use vstd::prelude::*;

use crate::handler::{
    payload_result_view, Error, ErrorView, Fail, Lookup, LookupView, PayloadView, Reply,
    ReplyBody, ReplyBodyView, ReplyView, Success, UrlResponsePayload,
};
use crate::key::{sha256_hex, short_key, short_url, spec_short_key, spec_short_url};
use crate::parser::long_url::{parsed_view, spec_parse};
use crate::parser::LongUrl;

verus! {

/// The body of a request to add a URL; `long_url` is absent where the
/// request did not give one.
#[derive(Debug, PartialEq, Eq)]
pub struct UrlJsonData {
    pub long_url: Option<String>,
}

/// A request to add a URL whose long URL passed the checks.
#[derive(Debug, PartialEq, Eq)]
pub struct UrlNew {
    pub long_url: LongUrl,
}

impl UrlNew {
    /// Checks the long URL of a request's body.
    pub fn try_from(value: UrlJsonData) -> (res: Result<UrlNew, String>)
        ensures
            parsed_view(
                match res {
                    Ok(u) => Ok(u.long_url),
                    Err(m) => Err(m),
                },
            ) == spec_parse(
                match value.long_url {
                    Some(t) => Some(t@),
                    None => None,
                },
            ),
    {
        match LongUrl::parse(value.long_url) {
            Ok(long_url) => Ok(UrlNew { long_url }),
            Err(m) => Err(m),
        }
    }
}

/// The payload first made for a long URL: its key, the URL, and the short URL
/// of the key.
pub open spec fn spec_new_payload(long_url: Seq<char>) -> PayloadView {
    let key = spec_short_key(long_url);
    PayloadView { key, long_url, short_url: spec_short_url(key) }
}

/// The text whose key is tried where another URL holds the first key.
pub open spec fn second_key_input(long_url: Seq<char>) -> Seq<char> {
    long_url + "a"@
}

/// What to do after the store was read under the payload's key.
#[derive(Debug, PartialEq, Eq)]
pub enum AddStep {
    /// Write the payload under its key, then answer with it.
    Write(UrlResponsePayload),
    /// Answer with this result; nothing is written.
    Done(Result<UrlResponsePayload, Error>),
}

/// The mathematical content of an [`AddStep`].
pub enum AddStepView {
    Write(PayloadView),
    Done(Result<PayloadView, ErrorView>),
}

impl View for AddStep {
    type V = AddStepView;

    open spec fn view(&self) -> AddStepView {
        match self {
            AddStep::Write(p) => AddStepView::Write(p@),
            AddStep::Done(r) => AddStepView::Done(payload_result_view(*r)),
        }
    }
}

/// The step that follows the read: a free key, or one that holds this same
/// URL's payload, is used as it is; a key held by another URL gives way to
/// the key of the URL followed by `a`, whose payload keeps the first short
/// URL; a failed read or an undecodable entry ends the request.
pub open spec fn spec_add_on_lookup(payload: PayloadView, lookup: LookupView) -> AddStepView {
    match lookup {
        LookupView::Found(current) => {
            if payload.long_url != current.long_url {
                AddStepView::Write(
                    PayloadView {
                        key: spec_short_key(second_key_input(payload.long_url)),
                        ..payload
                    },
                )
            } else {
                AddStepView::Done(Ok(payload))
            }
        },
        LookupView::Missing => AddStepView::Write(payload),
        LookupView::Undecodable(m) => AddStepView::Done(Err(ErrorView::Serialisation(m))),
        LookupView::Failed(m) => AddStepView::Done(Err(ErrorView::RedisQuery(m))),
    }
}

/// The result of adding once the write was tried.
pub open spec fn spec_add_on_write(
    payload: PayloadView,
    written: Result<(), Seq<char>>,
) -> Result<PayloadView, ErrorView> {
    match written {
        Ok(()) => Ok(payload),
        Err(m) => Err(ErrorView::RedisQuery(m)),
    }
}

/// The reply to an add request that passed the checks: 200 with the payload,
/// or 500 with the error's message.
pub open spec fn spec_add_reply(
    request_id: Seq<char>,
    outcome: Result<PayloadView, ErrorView>,
) -> ReplyView {
    match outcome {
        Ok(payload) => ReplyView {
            status: 200,
            location: None,
            body: ReplyBodyView::Payload { request_id, payload },
        },
        Err(e) => ReplyView {
            status: 500,
            location: None,
            body: ReplyBodyView::Failure { request_id, error: e.message() },
        },
    }
}

/// The reply to an add request whose data was refused: 400 with the message.
pub open spec fn spec_reject_reply(request_id: Seq<char>, error: Seq<char>) -> ReplyView {
    ReplyView { status: 400, location: None, body: ReplyBodyView::Failure { request_id, error } }
}

/// Makes the payload for a long URL, before the store is read.
pub fn add_start(long_url: &str) -> (payload: UrlResponsePayload)
    ensures
        payload@ == spec_new_payload(long_url@),
{
    let key = short_key(long_url);
    let short = short_url(key.as_str());
    UrlResponsePayload { key, long_url: String::from_str(long_url), short_url: short }
}

/// Decides what follows the read of the store under the payload's key.
pub fn add_on_lookup(payload: UrlResponsePayload, lookup: Lookup) -> (step: AddStep)
    ensures
        step@ == spec_add_on_lookup(payload@, lookup@),
{
    match lookup {
        Lookup::Found(current) => {
            if !(payload.long_url == current.long_url) {
                let mut text = payload.long_url.clone();
                text.append("a");
                let key = short_key(text.as_str());
                let mut payload = payload;
                payload.key = key;
                AddStep::Write(payload)
            } else {
                AddStep::Done(Ok(payload))
            }
        },
        Lookup::Missing => AddStep::Write(payload),
        Lookup::Undecodable(m) => AddStep::Done(Err(Error::Serialisation(m))),
        Lookup::Failed(m) => AddStep::Done(Err(Error::RedisQuery(m))),
    }
}

/// The result of adding, once the write of the payload was tried.
pub fn add_on_write(payload: UrlResponsePayload, written: Result<(), String>) -> (res: Result<
    UrlResponsePayload,
    Error,
>)
    ensures
        payload_result_view(res) == spec_add_on_write(
            payload@,
            match written {
                Ok(()) => Ok(()),
                Err(m) => Err(m@),
            },
        ),
{
    match written {
        Ok(()) => Ok(payload),
        Err(m) => Err(Error::RedisQuery(m)),
    }
}

/// Builds the reply to an add request that passed the checks.
pub fn add_reply(request_id: String, outcome: Result<UrlResponsePayload, Error>) -> (reply: Reply)
    ensures
        reply@ == spec_add_reply(request_id@, payload_result_view(outcome)),
{
    match outcome {
        Ok(payload) => Reply {
            status: 200,
            location: None,
            body: ReplyBody::Payload(Success { request_id, payload }),
        },
        Err(e) => {
            let error = e.message();
            Reply { status: 500, location: None, body: ReplyBody::Failure(Fail { request_id, error }) }
        },
    }
}

/// Builds the reply to an add request whose data was refused.
pub fn reject_reply(request_id: String, error: String) -> (reply: Reply)
    ensures
        reply@ == spec_reject_reply(request_id@, error@),
{
    Reply { status: 400, location: None, body: ReplyBody::Failure(Fail { request_id, error }) }
}


/// The first payload of a long URL holds the URL unchanged, the first eight
/// characters of the digest of the whole URL as key, and the short URL
/// `http://localhost/` followed by that key.
pub proof fn lemma_new_payload(long_url: Seq<char>)
    ensures
        spec_new_payload(long_url).long_url == long_url,
        spec_new_payload(long_url).key == sha256_hex(long_url).subrange(0, 8),
        spec_new_payload(long_url).short_url == "http://localhost/"@ + sha256_hex(
            long_url,
        ).subrange(0, 8),
{
}

/// After the read under the payload's key: a free key is written with the
/// payload as it is; the same URL there ends the add with the payload as it
/// is, writing nothing; another URL there makes the payload move to the key
/// of its URL followed by `a`, keeping its URL and short URL; an undecodable
/// entry or a failed read ends the add with that error.
pub proof fn lemma_add_on_lookup(payload: PayloadView, lookup: LookupView)
    ensures
        lookup is Missing ==> spec_add_on_lookup(payload, lookup) == AddStepView::Write(payload),
        lookup matches LookupView::Found(c) && c.long_url == payload.long_url
            ==> spec_add_on_lookup(payload, lookup) == AddStepView::Done(
            Ok::<PayloadView, ErrorView>(payload),
        ),
        lookup matches LookupView::Found(c) && c.long_url != payload.long_url
            ==> spec_add_on_lookup(payload, lookup) == AddStepView::Write(
            PayloadView {
                key: sha256_hex(payload.long_url + "a"@).subrange(0, 8),
                long_url: payload.long_url,
                short_url: payload.short_url,
            },
        ),
        lookup matches LookupView::Undecodable(m) ==> spec_add_on_lookup(payload, lookup)
            == AddStepView::Done(Err::<PayloadView, ErrorView>(ErrorView::Serialisation(m))),
        lookup matches LookupView::Failed(m) ==> spec_add_on_lookup(payload, lookup)
            == AddStepView::Done(Err::<PayloadView, ErrorView>(ErrorView::RedisQuery(m))),
{
}

/// A write that succeeded gives the payload unchanged; a failed one gives a
/// query error with the store's message.
pub proof fn lemma_add_on_write(payload: PayloadView, m: Seq<char>)
    ensures
        spec_add_on_write(payload, Ok(())) == Ok::<PayloadView, ErrorView>(payload),
        spec_add_on_write(payload, Err(m)) == Err::<PayloadView, ErrorView>(
            ErrorView::RedisQuery(m),
        ),
{
}

/// A successful add is answered 200 with the request's id and the added
/// payload unchanged; a failed one 500 with the error's message; neither has
/// a location.
pub proof fn lemma_add_reply(request_id: Seq<char>, payload: PayloadView, e: ErrorView)
    ensures
        spec_add_reply(request_id, Ok(payload)) == (ReplyView {
            status: 200,
            location: None,
            body: ReplyBodyView::Payload { request_id, payload },
        }),
        spec_add_reply(request_id, Err(e)) == (ReplyView {
            status: 500,
            location: None,
            body: ReplyBodyView::Failure { request_id, error: e.message() },
        }),
{
}

/// Refused request data is answered 400 with the request's id and the
/// message as it is.
pub proof fn lemma_reject_reply(request_id: Seq<char>, error: Seq<char>)
    ensures
        spec_reject_reply(request_id, error) == (ReplyView {
            status: 400,
            location: None,
            body: ReplyBodyView::Failure { request_id, error },
        }),
{
}


/// An add step's view keeps its kind and what it carries unchanged.
pub proof fn lemma_add_step_view(step: AddStep)
    ensures
        step matches AddStep::Write(p) ==> step@ == AddStepView::Write(p@),
        step matches AddStep::Done(r) ==> step@ == AddStepView::Done(payload_result_view(r)),
{
}

} // verus!
