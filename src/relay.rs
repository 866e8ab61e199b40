use vstd::prelude::*;
use vstd::utf8::encode_utf8;

use crate::config::RelayConfig;
use crate::payload::MigrationPayload;

verus! {

/// HTTP status of a successful reply.
pub const STATUS_OK: u16 = 200;

/// HTTP status of a request the relay refuses before calling the store.
pub const STATUS_BAD_REQUEST: u16 = 400;

/// HTTP status of a reply when the store could not be reached.
pub const STATUS_BAD_GATEWAY: u16 = 502;

/// The HTTP method of a call to the blob store.
#[derive(Clone, Copy, PartialEq, Eq, Structural, Debug)]
pub enum OutboundMethod {
    Get,
    Put,
}

/// The one call to the blob store that serves an inbound request.
pub struct OutboundRequest {
    pub method: OutboundMethod,
    pub url: String,
    pub body: String,
}

/// What came of a call to the blob store.
pub enum RemoteOutcome {
    /// The store answered, with any status; `body` is its body, byte for byte.
    Responded { status: u16, body: Vec<u8> },
    /// The store could not be reached, or its answer could not be read.
    Unreachable { reason: String },
}

/// The kinds of failure a caller can see.
#[derive(Clone, Copy, PartialEq, Eq, Structural, Debug)]
pub enum ErrorKind {
    /// Missing or malformed input; no call was made.
    BadRequest,
    /// The store could not be reached.
    UpstreamUnavailable,
    /// The aggregator answered a retrieval with a status other than success;
    /// its status and body are passed on.
    UpstreamError,
}

/// The reply to an inbound request; its body is bytes, passed on as they are.
pub struct RelayResponse {
    pub status: u16,
    pub body: Vec<u8>,
}

/// What a handler does next: reply at once, or make one call to the store.
pub enum Step {
    Respond(RelayResponse),
    Call(OutboundRequest),
}

/// An outbound call as plain values.
pub struct RequestView {
    pub method: OutboundMethod,
    pub url: Seq<char>,
    pub body: Seq<char>,
}

/// An outcome of an outbound call as plain values.
pub enum OutcomeView {
    Responded { status: u16, body: Seq<u8> },
    Unreachable { reason: Seq<char> },
}

/// A reply as plain values.
pub struct ResponseView {
    pub status: u16,
    pub body: Seq<u8>,
}

/// A handler's next step as plain values.
pub enum StepView {
    Respond(ResponseView),
    Call(RequestView),
}

impl View for OutboundRequest {
    type V = RequestView;

    open spec fn view(&self) -> RequestView {
        RequestView { method: self.method, url: self.url@, body: self.body@ }
    }
}

impl View for RemoteOutcome {
    type V = OutcomeView;

    open spec fn view(&self) -> OutcomeView {
        match self {
            RemoteOutcome::Responded { status, body } => OutcomeView::Responded {
                status: *status,
                body: body@,
            },
            RemoteOutcome::Unreachable { reason } => OutcomeView::Unreachable { reason: reason@ },
        }
    }
}

impl View for RelayResponse {
    type V = ResponseView;

    open spec fn view(&self) -> ResponseView {
        ResponseView { status: self.status, body: self.body@ }
    }
}

impl View for Step {
    type V = StepView;

    open spec fn view(&self) -> StepView {
        match self {
            Step::Respond(r) => StepView::Respond(r@),
            Step::Call(c) => StepView::Call(c@),
        }
    }
}

/// The address blobs are written to: the publisher's blob endpoint, asking
/// the store to keep each blob for five epochs.
pub open spec fn upload_url(publisher: Seq<char>) -> Seq<char> {
    publisher + "/v1/blobs?epochs=5"@
}

/// The address of blob `blob_id` at the aggregator, the identifier written
/// as it was given.
pub open spec fn blob_url(aggregator: Seq<char>, blob_id: Seq<char>) -> Seq<char> {
    aggregator + "/v1/blobs/"@ + blob_id
}

pub open spec fn health_body() -> Seq<u8> {
    encode_utf8("{\"data\":\"Hello World!\"}"@)
}

pub open spec fn bad_payload_message() -> Seq<u8> {
    encode_utf8("expected a JSON body with a string field \"data\""@)
}

pub open spec fn empty_blob_id_message() -> Seq<u8> {
    encode_utf8("the blob identifier must not be empty"@)
}

pub open spec fn upload_failure_prefix() -> Seq<char> {
    "Failed to upload: "@
}

pub open spec fn fetch_failure_prefix() -> Seq<char> {
    "Failed to fetch: "@
}

/// The status an error of kind `kind` is reported with; for an answer of the
/// store, `remote` is the status it answered with.
pub open spec fn status_of(kind: ErrorKind, remote: u16) -> u16 {
    match kind {
        ErrorKind::BadRequest => STATUS_BAD_REQUEST,
        ErrorKind::UpstreamUnavailable => STATUS_BAD_GATEWAY,
        ErrorKind::UpstreamError => remote,
    }
}

/// How the aggregator's answer to a retrieval is classified; `None` is success.
pub open spec fn classify(outcome: OutcomeView) -> Option<ErrorKind> {
    match outcome {
        OutcomeView::Responded { status, .. } => if 200 <= status < 300 {
            None
        } else {
            Some(ErrorKind::UpstreamError)
        },
        OutcomeView::Unreachable { .. } => Some(ErrorKind::UpstreamUnavailable),
    }
}

/// The reply to an upload once the publisher's outcome is known: whenever the
/// publisher answered, whatever its status, the upload succeeded and the
/// caller gets 200 with the publisher's body; a failure to reach it is a 502
/// whose message goes on with the reason.
pub open spec fn upload_reply(outcome: OutcomeView) -> ResponseView {
    match outcome {
        OutcomeView::Responded { body, .. } => ResponseView { status: STATUS_OK, body },
        OutcomeView::Unreachable { reason } => ResponseView {
            status: STATUS_BAD_GATEWAY,
            body: encode_utf8(upload_failure_prefix() + reason),
        },
    }
}

/// The reply to a retrieval once the aggregator's outcome is known: its
/// answer is passed on with its own status and body; a failure to reach it is
/// a 502 whose message goes on with the reason.
pub open spec fn retrieval_reply(outcome: OutcomeView) -> ResponseView {
    match outcome {
        OutcomeView::Responded { status, body } => ResponseView { status, body },
        OutcomeView::Unreachable { reason } => ResponseView {
            status: STATUS_BAD_GATEWAY,
            body: encode_utf8(fetch_failure_prefix() + reason),
        },
    }
}

/// The first step of an upload, given the decoded payload (`None` where the
/// body was not a JSON object with a string field `data`).
pub open spec fn upload_step(publisher: Seq<char>, payload: Option<Seq<char>>) -> StepView {
    match payload {
        Some(data) => StepView::Call(
            RequestView { method: OutboundMethod::Put, url: upload_url(publisher), body: data },
        ),
        None => StepView::Respond(
            ResponseView { status: STATUS_BAD_REQUEST, body: bad_payload_message() },
        ),
    }
}

/// The first step of a retrieval of blob `blob_id`.
pub open spec fn retrieval_step(aggregator: Seq<char>, blob_id: Seq<char>) -> StepView {
    if blob_id.len() == 0 {
        StepView::Respond(ResponseView { status: STATUS_BAD_REQUEST, body: empty_blob_id_message() })
    } else {
        StepView::Call(
            RequestView {
                method: OutboundMethod::Get,
                url: blob_url(aggregator, blob_id),
                body: Seq::empty(),
            },
        )
    }
}

/// The address uploads go to under `config`.
pub fn upload_endpoint(config: &RelayConfig) -> (r: String)
    ensures
        r@ == upload_url(config.publisher_base_url@),
{
    let mut url = config.publisher_base_url.clone();
    url.append("/v1/blobs?epochs=5");
    url
}

/// The address of blob `blob_id` under `config`.
pub fn blob_endpoint(config: &RelayConfig, blob_id: &str) -> (r: String)
    ensures
        r@ == blob_url(config.aggregator_base_url@, blob_id@),
{
    let mut url = config.aggregator_base_url.clone();
    url.append("/v1/blobs/");
    url.append(blob_id);
    url
}

/// The reply to `GET /`: always 200 with a fixed greeting.
pub fn hello_world() -> (r: RelayResponse)
    ensures
        r@ == (ResponseView { status: STATUS_OK, body: health_body() }),
{
    RelayResponse { status: STATUS_OK, body: "{\"data\":\"Hello World!\"}".as_bytes_vec() }
}

/// Starts an upload. A decoded payload becomes one PUT of its text, unchanged,
/// to the publisher; a body that could not be decoded (`None`) is refused with
/// 400 and nothing is sent.
pub fn handle_migration(config: &RelayConfig, payload: Option<MigrationPayload>) -> (r: Step)
    ensures
        r@ == upload_step(
            config.publisher_base_url@,
            match payload {
                Some(p) => Some(p.data@),
                None => None,
            },
        ),
{
    match payload {
        Some(p) => Step::Call(
            OutboundRequest { method: OutboundMethod::Put, url: upload_endpoint(config), body: p.data },
        ),
        None => Step::Respond(
            RelayResponse {
                status: STATUS_BAD_REQUEST,
                body: "expected a JSON body with a string field \"data\"".as_bytes_vec(),
            },
        ),
    }
}

/// Starts a retrieval of blob `blob_id`. A non-empty identifier becomes one GET
/// of its address at the aggregator; an empty one is refused with 400 and
/// nothing is sent.
pub fn migration_data(config: &RelayConfig, blob_id: &str) -> (r: Step)
    ensures
        r@ == retrieval_step(config.aggregator_base_url@, blob_id@),
{
    if blob_id.unicode_len() == 0 {
        Step::Respond(
            RelayResponse {
                status: STATUS_BAD_REQUEST,
                body: "the blob identifier must not be empty".as_bytes_vec(),
            },
        )
    } else {
        Step::Call(
            OutboundRequest {
                method: OutboundMethod::Get,
                url: blob_endpoint(config, blob_id),
                body: String::new(),
            },
        )
    }
}

/// The text `prefix` followed by `reason`, as bytes.
fn failure_message(prefix: &str, reason: &String) -> (r: Vec<u8>)
    ensures
        r@ == encode_utf8(prefix@ + reason@),
{
    let mut text = String::from_str(prefix);
    text.append(reason.as_str());
    text.as_str().as_bytes_vec()
}

/// Finishes an upload once the publisher's outcome is known.
pub fn finish_upload(outcome: RemoteOutcome) -> (r: RelayResponse)
    ensures
        r@ == upload_reply(outcome@),
{
    match outcome {
        RemoteOutcome::Responded { body, .. } => RelayResponse { status: STATUS_OK, body },
        RemoteOutcome::Unreachable { reason } => RelayResponse {
            status: STATUS_BAD_GATEWAY,
            body: failure_message("Failed to upload: ", &reason),
        },
    }
}

/// Finishes a retrieval once the aggregator's outcome is known.
pub fn finish_retrieval(outcome: RemoteOutcome) -> (r: RelayResponse)
    ensures
        r@ == retrieval_reply(outcome@),
{
    match outcome {
        RemoteOutcome::Responded { status, body } => RelayResponse { status, body },
        RemoteOutcome::Unreachable { reason } => RelayResponse {
            status: STATUS_BAD_GATEWAY,
            body: failure_message("Failed to fetch: ", &reason),
        },
    }
}

/// Classifies the outcome of a retrieval; `None` is success.
pub fn classify_outcome(outcome: &RemoteOutcome) -> (r: Option<ErrorKind>)
    ensures
        r == classify(outcome@),
{
    match outcome {
        RemoteOutcome::Responded { status, .. } => if 200 <= *status && *status < 300 {
            None
        } else {
            Some(ErrorKind::UpstreamError)
        },
        RemoteOutcome::Unreachable { .. } => Some(ErrorKind::UpstreamUnavailable),
    }
}

impl ErrorKind {
    /// The status an error of this kind is reported with; `remote` is the
    /// status the store answered with, where it answered.
    pub fn status(&self, remote: u16) -> (r: u16)
        ensures
            r == status_of(*self, remote),
    {
        match self {
            ErrorKind::BadRequest => STATUS_BAD_REQUEST,
            ErrorKind::UpstreamUnavailable => STATUS_BAD_GATEWAY,
            ErrorKind::UpstreamError => remote,
        }
    }
}

} // verus!
