//! What the platform adapters share: the error taxonomy, the description of
//! an outbound call, and the steps and replies by which an adapter and the
//! code that performs its calls take turns.

use vstd::prelude::*;
use vstd::string::*;
use crate::json::{Json, JsonView};

verus! {

/// The four kinds of failure.
#[derive(Debug, Clone, Copy, PartialEq, Eq, Structural)]
pub enum ErrorKind {
    /// The transport failed.
    Network,
    /// Credentials are missing or were refused.
    Auth,
    /// The service rejected the request.
    Api,
    /// A key, a signature or a cipher failed.
    Crypto,
}

/// A failure of one platform, with its detail.
#[derive(Debug, PartialEq, Eq)]
pub enum PostError {
    Network(String),
    Auth(String),
    Api(String),
    Crypto(String),
}

/// What a `PostError` holds.
pub struct Failure {
    pub kind: ErrorKind,
    pub detail: Seq<char>,
}

impl Failure {
    /// The words that introduce a failure of a kind.
    pub open spec fn label(kind: ErrorKind) -> Seq<char> {
        match kind {
            ErrorKind::Network => "Network error: "@,
            ErrorKind::Auth => "Authentication error: "@,
            ErrorKind::Api => "API error: "@,
            ErrorKind::Crypto => "Cryptography error: "@,
        }
    }

    /// The text shown for a failure.
    pub open spec fn text(self) -> Seq<char> {
        Failure::label(self.kind) + self.detail
    }
}

impl View for PostError {
    type V = Failure;

    open spec fn view(&self) -> Failure {
        match self {
            PostError::Network(detail) => Failure { kind: ErrorKind::Network, detail: detail@ },
            PostError::Auth(detail) => Failure { kind: ErrorKind::Auth, detail: detail@ },
            PostError::Api(detail) => Failure { kind: ErrorKind::Api, detail: detail@ },
            PostError::Crypto(detail) => Failure { kind: ErrorKind::Crypto, detail: detail@ },
        }
    }
}

impl Clone for PostError {
    fn clone(&self) -> (copy: Self)
        ensures
            copy@ == self@,
    {
        match self {
            PostError::Network(detail) => PostError::Network(detail.clone()),
            PostError::Auth(detail) => PostError::Auth(detail.clone()),
            PostError::Api(detail) => PostError::Api(detail.clone()),
            PostError::Crypto(detail) => PostError::Crypto(detail.clone()),
        }
    }
}

impl PostError {
    /// The kind of this failure.
    pub fn kind(&self) -> (kind: ErrorKind)
        ensures
            kind == self@.kind,
    {
        match self {
            PostError::Network(_) => ErrorKind::Network,
            PostError::Auth(_) => ErrorKind::Auth,
            PostError::Api(_) => ErrorKind::Api,
            PostError::Crypto(_) => ErrorKind::Crypto,
        }
    }

    /// The text shown for this failure: the kind's label, then the detail.
    pub fn to_string(&self) -> (text: String)
        ensures
            text@ == self@.text(),
    {
        match self {
            PostError::Network(detail) => "Network error: ".to_owned().concat(detail.as_str()),
            PostError::Auth(detail) => "Authentication error: ".to_owned().concat(detail.as_str()),
            PostError::Api(detail) => "API error: ".to_owned().concat(detail.as_str()),
            PostError::Crypto(detail) => "Cryptography error: ".to_owned().concat(detail.as_str()),
        }
    }
}

/// What the outcome of one platform holds.
pub open spec fn outcome_view(outcome: Result<(), PostError>) -> Result<(), Failure> {
    match outcome {
        Ok(()) => Ok(()),
        Err(e) => Err(e@),
    }
}

/// What a row of pairs of texts holds.
pub open spec fn pair_views(pairs: Seq<(String, String)>) -> Seq<(Seq<char>, Seq<char>)> {
    Seq::new(pairs.len(), |i: int| (pairs[i].0@, pairs[i].1@))
}

/// What a row of texts holds.
pub open spec fn text_views(texts: Seq<String>) -> Seq<Seq<char>> {
    Seq::new(texts.len(), |i: int| texts[i]@)
}

/// What a `Body` holds.
pub enum BodyView {
    Json(JsonView),
    Form(Seq<(Seq<char>, Seq<char>)>),
    Multipart {
        fields: Seq<(Seq<char>, Seq<char>)>,
        file_field: Seq<char>,
        file_name: Seq<char>,
        bytes: Seq<u8>,
    },
    Raw { content_type: Seq<char>, bytes: Seq<u8> },
}

/// The body of an outbound call.
#[derive(Debug, PartialEq)]
pub enum Body {
    /// A JSON document.
    Json(Json),
    /// A URL-encoded form, its fields in order.
    Form(Vec<(String, String)>),
    /// A multipart form: text fields in order, then one file.
    Multipart { fields: Vec<(String, String)>, file_field: String, file_name: String, bytes: Vec<u8> },
    /// Bytes as they are, under a media type.
    Raw { content_type: String, bytes: Vec<u8> },
}

impl View for Body {
    type V = BodyView;

    open spec fn view(&self) -> BodyView {
        match self {
            Body::Json(json) => BodyView::Json(json@),
            Body::Form(fields) => BodyView::Form(pair_views(fields@)),
            Body::Multipart { fields, file_field, file_name, bytes } => BodyView::Multipart {
                fields: pair_views(fields@),
                file_field: file_field@,
                file_name: file_name@,
                bytes: bytes@,
            },
            Body::Raw { content_type, bytes } => BodyView::Raw {
                content_type: content_type@,
                bytes: bytes@,
            },
        }
    }
}

/// What an `HttpRequest` holds.
pub struct HttpRequestView {
    pub url: Seq<char>,
    pub authorization: Option<Seq<char>>,
    pub body: BodyView,
}

/// One outbound call, always a POST.
#[derive(Debug, PartialEq)]
pub struct HttpRequest {
    /// Where the call goes.
    pub url: String,
    /// The value of the `Authorization` header, if the call carries one.
    pub authorization: Option<String>,
    /// What is sent.
    pub body: Body,
}

impl View for HttpRequest {
    type V = HttpRequestView;

    open spec fn view(&self) -> HttpRequestView {
        HttpRequestView {
            url: self.url@,
            authorization: match self.authorization {
                Some(value) => Some(value@),
                None => None,
            },
            body: self.body@,
        }
    }
}

/// The `Authorization` header that presents a bearer token.
pub open spec fn bearer(token: Seq<char>) -> Seq<char> {
    "Bearer "@ + token
}

/// Writes the `Authorization` header that presents a bearer token.
pub fn bearer_header(token: &str) -> (value: String)
    ensures
        value@ == bearer(token@),
{
    "Bearer ".to_owned().concat(token)
}

/// What came back from an outbound call that reached the service.
#[derive(Debug, PartialEq)]
pub struct HttpReply {
    /// The status code.
    pub status: u16,
    /// The body, or the words of the failure to read it.
    pub body: Result<Vec<u8>, String>,
}

/// Whether a status code reports success.
pub open spec fn success(status: u16) -> bool {
    200 <= status < 300
}

/// Whether a status code reports success.
pub fn is_success(status: u16) -> (res: bool)
    ensures
        res == success(status),
{
    200 <= status && status < 300
}

/// What an adapter asks for next.
#[derive(Debug, PartialEq)]
pub enum Step {
    /// Make this call and hand back what came of it.
    Send(HttpRequest),
    /// Read the file at this path and hand back its bytes.
    ReadImage(String),
    /// Send this signed event to these relays, answering their questions
    /// with this key, and hand back whether any took it.
    Broadcast { relays: Vec<String>, key: nostr_sdk::SecretKey, event: nostr_sdk::Event },
    /// Nothing more: this is the platform's outcome.
    Done(Result<(), PostError>),
}

/// What a `Step` holds.
pub enum StepView {
    Send(HttpRequestView),
    ReadImage(Seq<char>),
    Broadcast { relays: Seq<Seq<char>>, key: nostr_sdk::SecretKey, event: nostr_sdk::Event },
    Done(Result<(), Failure>),
}

impl View for Step {
    type V = StepView;

    open spec fn view(&self) -> StepView {
        match self {
            Step::Send(request) => StepView::Send(request@),
            Step::ReadImage(path) => StepView::ReadImage(path@),
            Step::Broadcast { relays, key, event } => StepView::Broadcast {
                relays: text_views(relays@),
                key: *key,
                event: *event,
            },
            Step::Done(outcome) => StepView::Done(outcome_view(*outcome)),
        }
    }
}

impl StepView {
    /// The step that ends a post in a failure.
    pub open spec fn failed(kind: ErrorKind, detail: Seq<char>) -> StepView {
        StepView::Done(Err(Failure { kind, detail }))
    }

    /// Whether this step reaches out to the network.
    pub open spec fn is_network_call(self) -> bool {
        self is Send || self is Broadcast
    }
}

/// What came of the step that an adapter asked for.
#[derive(Debug, PartialEq)]
pub enum Reply {
    /// Of a call: the reply, or the words of the transport's failure.
    Http(Result<HttpReply, String>),
    /// Of reading a file: its bytes, or the words of the failure.
    Image(Result<Vec<u8>, String>),
    /// Of a broadcast: success, or the words of the failure on every relay.
    Broadcast(Result<(), String>),
}

} // verus!
