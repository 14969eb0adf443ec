//! The payloads, replies and errors that the request handlers exchange.

use vstd::prelude::*;

pub mod model;
pub mod url_add;
pub mod url_delete;
pub mod url_redirect;

verus! {

/// What the service answers about a stored short URL: its key, the long URL
/// it leads to and the short URL itself. It is also what the store holds
/// under the key.
#[derive(Debug, PartialEq, Eq)]
pub struct UrlResponsePayload {
    pub key: String,
    pub long_url: String,
    pub short_url: String,
}

/// The mathematical content of a [`UrlResponsePayload`].
pub struct PayloadView {
    pub key: Seq<char>,
    pub long_url: Seq<char>,
    pub short_url: Seq<char>,
}

impl View for UrlResponsePayload {
    type V = PayloadView;

    open spec fn view(&self) -> PayloadView {
        PayloadView { key: self.key@, long_url: self.long_url@, short_url: self.short_url@ }
    }
}

/// A successful answer: the request's id and what it produced.
#[derive(Debug, PartialEq, Eq)]
pub struct Success<T> {
    pub request_id: String,
    pub payload: T,
}

/// A failed answer: the request's id and the error's message.
#[derive(Debug, PartialEq, Eq)]
pub struct Fail {
    pub request_id: String,
    pub error: String,
}

/// The errors of the handlers, each with the text that explains it.
#[derive(Debug, PartialEq, Eq)]
pub enum Error {
    Serialisation(String),
    RedisConnection(String),
    RedisQuery(String),
    NotFound(String),
}

/// The mathematical content of an [`Error`].
pub enum ErrorView {
    Serialisation(Seq<char>),
    RedisConnection(Seq<char>),
    RedisQuery(Seq<char>),
    NotFound(Seq<char>),
}

impl View for Error {
    type V = ErrorView;

    open spec fn view(&self) -> ErrorView {
        match self {
            Error::Serialisation(m) => ErrorView::Serialisation(m@),
            Error::RedisConnection(m) => ErrorView::RedisConnection(m@),
            Error::RedisQuery(m) => ErrorView::RedisQuery(m@),
            Error::NotFound(k) => ErrorView::NotFound(k@),
        }
    }
}

impl ErrorView {
    /// The text by which the error is reported.
    pub open spec fn message(self) -> Seq<char> {
        match self {
            ErrorView::Serialisation(m) => "Failed to serialise/deserialise payload: "@ + m,
            ErrorView::RedisConnection(m) => "Failed to get Redis connection: "@ + m,
            ErrorView::RedisQuery(m) => "Failed to execute Redis Query: "@ + m,
            ErrorView::NotFound(k) => "Item with key '"@ + k + "' cannot be found"@,
        }
    }
}

impl Error {
    /// The text by which the error is reported.
    pub fn message(&self) -> (text: String)
        ensures
            text@ == self@.message(),
    {
        match self {
            Error::Serialisation(m) => {
                let text = String::from_str("Failed to serialise/deserialise payload: ");
                text.concat(m.as_str())
            },
            Error::RedisConnection(m) => {
                let text = String::from_str("Failed to get Redis connection: ");
                text.concat(m.as_str())
            },
            Error::RedisQuery(m) => {
                let text = String::from_str("Failed to execute Redis Query: ");
                text.concat(m.as_str())
            },
            Error::NotFound(k) => {
                let text = String::from_str("Item with key '");
                let text = text.concat(k.as_str());
                text.concat("' cannot be found")
            },
        }
    }

    /// Whether the error says that nothing is stored under the key.
    pub fn is_not_found(&self) -> (b: bool)
        ensures
            b == (self is NotFound),
    {
        match self {
            Error::NotFound(_) => true,
            _ => false,
        }
    }
}


/// What reading a key from the store gave: the payload stored there,
/// nothing, a stored text that is not a payload (with the decoder's
/// message), or a failure of the store (with its message).
#[derive(Debug, PartialEq, Eq)]
pub enum Lookup {
    Found(UrlResponsePayload),
    Missing,
    Undecodable(String),
    Failed(String),
}

/// The mathematical content of a [`Lookup`].
pub enum LookupView {
    Found(PayloadView),
    Missing,
    Undecodable(Seq<char>),
    Failed(Seq<char>),
}

impl View for Lookup {
    type V = LookupView;

    open spec fn view(&self) -> LookupView {
        match self {
            Lookup::Found(p) => LookupView::Found(p@),
            Lookup::Missing => LookupView::Missing,
            Lookup::Undecodable(m) => LookupView::Undecodable(m@),
            Lookup::Failed(m) => LookupView::Failed(m@),
        }
    }
}

/// The view of a handler's result that carries a payload.
pub open spec fn payload_result_view(r: Result<UrlResponsePayload, Error>) -> Result<PayloadView, ErrorView> {
    match r {
        Ok(p) => Ok(p@),
        Err(e) => Err(e@),
    }
}

/// The view of a handler's result that carries nothing.
pub open spec fn unit_result_view(r: Result<(), Error>) -> Result<(), ErrorView> {
    match r {
        Ok(()) => Ok(()),
        Err(e) => Err(e@),
    }
}

/// The body of an HTTP reply.
#[derive(Debug, PartialEq, Eq)]
pub enum ReplyBody {
    /// A JSON success that carries a payload.
    Payload(Success<UrlResponsePayload>),
    /// A JSON success that carries a message.
    Message(Success<String>),
    /// A JSON failure.
    Failure(Fail),
    /// No body.
    Empty,
}

/// An HTTP reply: its status code, the `Location` header where there is one,
/// and its body.
#[derive(Debug, PartialEq, Eq)]
pub struct Reply {
    pub status: u16,
    pub location: Option<String>,
    pub body: ReplyBody,
}

/// The mathematical content of a [`ReplyBody`].
pub enum ReplyBodyView {
    Payload { request_id: Seq<char>, payload: PayloadView },
    Message { request_id: Seq<char>, message: Seq<char> },
    Failure { request_id: Seq<char>, error: Seq<char> },
    Empty,
}

/// The mathematical content of a [`Reply`].
pub struct ReplyView {
    pub status: u16,
    pub location: Option<Seq<char>>,
    pub body: ReplyBodyView,
}

impl View for Reply {
    type V = ReplyView;

    open spec fn view(&self) -> ReplyView {
        ReplyView {
            status: self.status,
            location: match self.location {
                Some(l) => Some(l@),
                None => None,
            },
            body: match self.body {
                ReplyBody::Payload(s) => ReplyBodyView::Payload {
                    request_id: s.request_id@,
                    payload: s.payload@,
                },
                ReplyBody::Message(s) => ReplyBodyView::Message {
                    request_id: s.request_id@,
                    message: s.payload@,
                },
                ReplyBody::Failure(f) => ReplyBodyView::Failure {
                    request_id: f.request_id@,
                    error: f.error@,
                },
                ReplyBody::Empty => ReplyBodyView::Empty,
            },
        }
    }
}

/// The reply to a failed request: 404 where nothing is stored under the key,
/// 500 for any other error, with the error's message.
pub open spec fn spec_failure_reply(request_id: Seq<char>, e: ErrorView) -> ReplyView {
    ReplyView {
        status: if e is NotFound {
            404
        } else {
            500
        },
        location: None,
        body: ReplyBodyView::Failure { request_id, error: e.message() },
    }
}

/// Builds the reply to a request that failed with `e`: 404 where nothing is
/// stored under the key, 500 for any other error.
pub fn failure_reply(request_id: String, e: Error) -> (reply: Reply)
    ensures
        reply@ == spec_failure_reply(request_id@, e@),
{
    let status: u16 = if e.is_not_found() {
        404
    } else {
        500
    };
    let error = e.message();
    Reply { status, location: None, body: ReplyBody::Failure(Fail { request_id, error }) }
}


/// Each error is reported by a fixed text followed by what it carries.
pub proof fn lemma_error_messages(m: Seq<char>)
    ensures
        ErrorView::Serialisation(m).message() == "Failed to serialise/deserialise payload: "@ + m,
        ErrorView::RedisConnection(m).message() == "Failed to get Redis connection: "@ + m,
        ErrorView::RedisQuery(m).message() == "Failed to execute Redis Query: "@ + m,
        ErrorView::NotFound(m).message() == "Item with key '"@ + m + "' cannot be found"@,
{
}

/// A failed request is answered 404 exactly when nothing is stored under the
/// key, 500 otherwise, without a location, with the request's id and the
/// error's message.
pub proof fn lemma_failure_reply(request_id: Seq<char>, e: ErrorView)
    ensures
        spec_failure_reply(request_id, e).status == 404 <==> e is NotFound,
        spec_failure_reply(request_id, e).status == 500 <==> !(e is NotFound),
        spec_failure_reply(request_id, e).location == None::<Seq<char>>,
        spec_failure_reply(request_id, e).body == (ReplyBodyView::Failure {
            request_id,
            error: e.message(),
        }),
{
}


/// A payload's view holds its three texts unchanged.
pub proof fn lemma_payload_view(p: UrlResponsePayload)
    ensures
        p@.key == p.key@,
        p@.long_url == p.long_url@,
        p@.short_url == p.short_url@,
{
}

/// An error's view keeps its kind and its text unchanged.
pub proof fn lemma_error_view(e: Error)
    ensures
        e matches Error::Serialisation(m) ==> e@ == ErrorView::Serialisation(m@),
        e matches Error::RedisConnection(m) ==> e@ == ErrorView::RedisConnection(m@),
        e matches Error::RedisQuery(m) ==> e@ == ErrorView::RedisQuery(m@),
        e matches Error::NotFound(k) ==> e@ == ErrorView::NotFound(k@),
{
}

/// A read's view keeps its kind and what it carries unchanged.
pub proof fn lemma_lookup_view(l: Lookup)
    ensures
        l matches Lookup::Found(p) ==> l@ == LookupView::Found(p@),
        l is Missing ==> l@ == LookupView::Missing,
        l matches Lookup::Undecodable(m) ==> l@ == LookupView::Undecodable(m@),
        l matches Lookup::Failed(m) ==> l@ == LookupView::Failed(m@),
{
}

/// The views of results keep success and failure and what they carry.
pub proof fn lemma_result_views(r: Result<UrlResponsePayload, Error>, u: Result<(), Error>)
    ensures
        r matches Ok(p) ==> payload_result_view(r) == Ok::<PayloadView, ErrorView>(p@),
        r matches Err(e) ==> payload_result_view(r) == Err::<PayloadView, ErrorView>(e@),
        u is Ok ==> unit_result_view(u) == Ok::<(), ErrorView>(()),
        u matches Err(e) ==> unit_result_view(u) == Err::<(), ErrorView>(e@),
{
}

/// A reply's view keeps its status, its location and its body unchanged.
pub proof fn lemma_reply_view(r: Reply)
    ensures
        r@.status == r.status,
        r.location matches Some(l) ==> r@.location == Some(l@),
        r.location is None ==> r@.location == None::<Seq<char>>,
        r.body matches ReplyBody::Payload(s) ==> r@.body == (ReplyBodyView::Payload {
            request_id: s.request_id@,
            payload: s.payload@,
        }),
        r.body matches ReplyBody::Message(s) ==> r@.body == (ReplyBodyView::Message {
            request_id: s.request_id@,
            message: s.payload@,
        }),
        r.body matches ReplyBody::Failure(f) ==> r@.body == (ReplyBodyView::Failure {
            request_id: f.request_id@,
            error: f.error@,
        }),
        r.body is Empty ==> r@.body == ReplyBodyView::Empty,
{
}

} // verus!
