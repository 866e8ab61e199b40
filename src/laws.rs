//! Properties of the relay protocol that hold for every input.
use vstd::prelude::*;

use crate::relay::{
    blob_url, classify, empty_blob_id_message, retrieval_reply, retrieval_step, status_of,
    upload_reply, upload_step, upload_url, OutboundMethod, OutcomeView, RequestView,
    ResponseView, StepView, STATUS_BAD_GATEWAY, STATUS_BAD_REQUEST, STATUS_OK,
};

verus! {

/// An upload of a decoded payload makes exactly one call: a PUT to the
/// publisher whose body is the payload's text, unchanged.
pub proof fn lemma_upload_forwards_payload(publisher: Seq<char>, data: Seq<char>)
    ensures
        upload_step(publisher, Some(data)) == StepView::Call(
            RequestView { method: OutboundMethod::Put, url: upload_url(publisher), body: data },
        ),
{
}

/// A retrieval of a non-empty identifier makes exactly one call: a GET whose
/// address ends with the identifier, character for character.
pub proof fn lemma_retrieval_targets_blob_id(aggregator: Seq<char>, blob_id: Seq<char>)
    requires
        blob_id.len() > 0,
    ensures
        retrieval_step(aggregator, blob_id) matches StepView::Call(req) && req.method
            == OutboundMethod::Get && req.url == blob_url(aggregator, blob_id) && req.url.subrange(
            req.url.len() - blob_id.len(),
            req.url.len() as int,
        ) == blob_id,
{
    let url = blob_url(aggregator, blob_id);
    assert(url.subrange(url.len() - blob_id.len(), url.len() as int) =~= blob_id);
}

/// When the store cannot be reached, the caller gets 502 and never 200,
/// on either path.
pub proof fn lemma_unreachable_store_is_bad_gateway(reason: Seq<char>)
    ensures
        upload_reply(OutcomeView::Unreachable { reason }).status == STATUS_BAD_GATEWAY,
        retrieval_reply(OutcomeView::Unreachable { reason }).status == STATUS_BAD_GATEWAY,
        upload_reply(OutcomeView::Unreachable { reason }).status != STATUS_OK,
        retrieval_reply(OutcomeView::Unreachable { reason }).status != STATUS_OK,
{
}

/// Once the publisher has answered an upload, whatever its status, the caller
/// gets 200, with the publisher's body.
pub proof fn lemma_answered_upload_is_ok(status: u16, body: Seq<u8>)
    ensures
        upload_reply(OutcomeView::Responded { status, body }) == (ResponseView {
            status: STATUS_OK,
            body,
        }),
{
}

/// When the store answers a retrieval, the caller gets the store's body back
/// byte for byte, with the store's own status.
pub proof fn lemma_retrieval_body_round_trip(status: u16, body: Seq<u8>)
    ensures
        retrieval_reply(OutcomeView::Responded { status, body }) == (ResponseView { status, body }),
{
}

/// An empty identifier is refused with 400 and no call to the store is made.
pub proof fn lemma_empty_blob_id_refused(aggregator: Seq<char>)
    ensures
        retrieval_step(aggregator, Seq::empty()) == StepView::Respond(
            ResponseView { status: STATUS_BAD_REQUEST, body: empty_blob_id_message() },
        ),
        !(retrieval_step(aggregator, Seq::empty()) is Call),
{
}

/// Two uploads with different payloads reach the store as two calls, each
/// carrying its own payload: an upload depends on nothing but its own input.
pub proof fn lemma_uploads_independent(publisher: Seq<char>, first: Seq<char>, second: Seq<char>)
    requires
        first != second,
    ensures
        upload_step(publisher, Some(first)) matches StepView::Call(a) && upload_step(
            publisher,
            Some(second),
        ) matches StepView::Call(b) && a.body == first && b.body == second && a.body != b.body,
{
}

/// The status a caller sees after a retrieval agrees with how the outcome is
/// classified: the store's own status on success or on an error answer, 502
/// when it could not be reached.
pub proof fn lemma_retrieval_status_follows_kind(outcome: OutcomeView)
    ensures
        match classify(outcome) {
            None => outcome matches OutcomeView::Responded { status, .. } && retrieval_reply(
                outcome,
            ).status == status,
            Some(kind) => retrieval_reply(outcome).status == status_of(
                kind,
                match outcome {
                    OutcomeView::Responded { status, .. } => status,
                    OutcomeView::Unreachable { .. } => 0u16,
                },
            ),
        },
{
}

} // verus!
