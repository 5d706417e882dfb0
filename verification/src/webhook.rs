//! Handling an inbound notification: the signature check against the shared
//! secret, the reading of the event kind, and the decision whether the
//! notification asks for a deployment.
//!
//! The caller fetches the shared secret and hands over the raw body, the
//! decoded signature and the event-kind header; everything that decides is
//! here.  A request is first triaged — its signature checked before anything
//! else is looked at — and, only for the handled event kind, the parsed
//! payload is then judged by the deployability rule.

use vstd::prelude::*;

use crate::github::Signature;
use crate::github::WorkflowRunEvent;
use crate::github::deployment_request;
use crate::github::spec_deployable;
use crate::text::str_eq;

verus! {

/// The keyed digest the provider attaches to a notification: what
/// HMAC-SHA-256 yields for the given secret and message.  The digest is a
/// function of the two alone; its value is not spelled out here.
pub uninterp spec fn spec_hmac_sha256(key: Seq<u8>, data: Seq<u8>) -> Seq<u8>;

/// Whether a digest authenticates a message under a secret.
pub open spec fn spec_signature_matches(digest: Seq<u8>, key: Seq<u8>, data: Seq<u8>) -> bool {
    digest == spec_hmac_sha256(key, data)
}

/// An upper bound on message lengths, far below the digest's own input
/// limit, so that the check below is defined for every admitted input.
pub open spec fn spec_hmac_input_fits(data: Seq<u8>) -> bool {
    data.len() < 0x1000000000000000
}

/// Relies on ring::hmac::verify with HMAC_SHA256: it recomputes the keyed
/// digest of `data` under `key` and reports, in constant time, whether the
/// digest equals `tag`.
#[verifier::external_body]
fn hmac_verify(key: &[u8], data: &[u8], tag: &[u8]) -> (r: bool)
    requires
        spec_hmac_input_fits(data@),
    ensures
        r == (tag@ == spec_hmac_sha256(key@, data@)),
{
    let k = ring::hmac::Key::new(ring::hmac::HMAC_SHA256, key);
    ring::hmac::verify(&k, data, tag).is_ok()
}

/// Whether the digest supplied with a request authenticates its body under
/// the shared secret.
pub fn validate_signature(secret: &[u8], expected_signature: &Vec<u8>, data: &[u8]) -> (r: bool)
    requires
        spec_hmac_input_fits(data@),
    ensures
        r == spec_signature_matches(expected_signature@, secret@, data@),
{
    hmac_verify(secret, data, expected_signature.as_slice())
}

/// A digest computed from a message always authenticates that message.
pub proof fn lemma_own_digest_verifies(key: Seq<u8>, body: Seq<u8>)
    ensures
        spec_signature_matches(spec_hmac_sha256(key, body), key, body),
{
}

/// A digest computed from one message authenticates no message whose digest
/// differs.  (Two distinct messages whose digests collide are
/// indistinguishable to the check; nothing more can be said of them here.)
pub proof fn lemma_digest_pins_body(key: Seq<u8>, signed_body: Seq<u8>, other_body: Seq<u8>)
    requires
        spec_hmac_sha256(key, signed_body) != spec_hmac_sha256(key, other_body),
    ensures
        !spec_signature_matches(spec_hmac_sha256(key, signed_body), key, other_body),
{
}

/// The first judgement on a request, made before its body is interpreted.
#[derive(PartialEq, Eq, Structural, Clone, Copy, Debug)]
pub enum WebhookTriage {
    /// The supplied digest does not authenticate the body: reject.
    BadSignature,
    /// The signature holds but no event kind was supplied (or it was not
    /// readable as text): reject.
    MissingEventHeader,
    /// The signature holds but the event kind is not the tracked one: the
    /// delivery is acknowledged and otherwise ignored.
    UnhandledEvent,
    /// The signature holds and the event kind is the tracked one: the body
    /// is to be parsed and judged.
    HandledEvent,
}

/// Triage of an inbound request.  The signature is checked first; only when
/// it holds is the event-kind header looked at.
pub fn triage_request(
    secret: &[u8],
    signature: &Signature,
    event_kind: Option<&String>,
    body: &[u8],
) -> (t: WebhookTriage)
    requires
        spec_hmac_input_fits(body@),
    ensures
        (t == WebhookTriage::BadSignature) <==> !spec_signature_matches(
            signature.digest@,
            secret@,
            body@,
        ),
        (t == WebhookTriage::MissingEventHeader) <==> (spec_signature_matches(
            signature.digest@,
            secret@,
            body@,
        ) && event_kind is None),
        (t == WebhookTriage::UnhandledEvent) <==> (spec_signature_matches(
            signature.digest@,
            secret@,
            body@,
        ) && (event_kind matches Some(k) && k@ != "workflow_run"@)),
        (t == WebhookTriage::HandledEvent) <==> (spec_signature_matches(
            signature.digest@,
            secret@,
            body@,
        ) && (event_kind matches Some(k) && k@ == "workflow_run"@)),
{
    if !validate_signature(secret, &signature.digest, body) {
        return WebhookTriage::BadSignature;
    }
    match event_kind {
        None => WebhookTriage::MissingEventHeader,
        Some(kind) => {
            if str_eq(kind.as_str(), "workflow_run") {
                WebhookTriage::HandledEvent
            } else {
                WebhookTriage::UnhandledEvent
            }
        },
    }
}

/// The judgement on the payload of a handled event.
#[derive(Debug, PartialEq, Eq)]
pub enum EventDecision {
    /// The body could not be read as a workflow-run event: reject.
    Malformed,
    /// A well-formed event that does not call for a deployment: acknowledge,
    /// do nothing.
    Skip,
    /// A deployable run: enqueue a download of the carried artifact-list
    /// address.
    Deploy(String),
}

/// Judges the parsed payload of a handled event; `None` stands for a body
/// that could not be read as a workflow-run event.
pub fn decide_event(event: Option<&WorkflowRunEvent>) -> (d: EventDecision)
    ensures
        (d is Malformed) <==> event is None,
        (d is Skip) <==> (event matches Some(e) && !spec_deployable(e.workflow_run)),
        (d is Deploy) <==> (event matches Some(e) && spec_deployable(e.workflow_run)),
        d matches EventDecision::Deploy(u) ==> (event matches Some(e) && u@
            == e.workflow_run.artifacts_url@),
{
    match event {
        None => EventDecision::Malformed,
        Some(e) => match deployment_request(&e.workflow_run) {
            Some(url) => EventDecision::Deploy(url),
            None => EventDecision::Skip,
        },
    }
}

/// The response status a triage alone determines: rejections are client
/// errors, an unhandled event is acknowledged; for a handled event the
/// status is settled by the event decision instead.
pub fn triage_status(t: &WebhookTriage) -> (code: u16)
    ensures
        code == (match t {
            WebhookTriage::BadSignature => 400u16,
            WebhookTriage::MissingEventHeader => 400u16,
            WebhookTriage::UnhandledEvent => 200u16,
            WebhookTriage::HandledEvent => 200u16,
        }),
{
    match t {
        WebhookTriage::BadSignature => 400,
        WebhookTriage::MissingEventHeader => 400,
        WebhookTriage::UnhandledEvent => 200,
        WebhookTriage::HandledEvent => 200,
    }
}

/// The response status of a handled event once its payload is judged: a
/// malformed body is a client error, anything else is acknowledged.
pub fn decision_status(d: &EventDecision) -> (code: u16)
    ensures
        code == (if d is Malformed {
            400u16
        } else {
            200u16
        }),
{
    match d {
        EventDecision::Malformed => 400,
        _ => 200,
    }
}

/// The diagnostic echo route's reply text.
pub fn echo_reply(message: &str) -> (r: String)
    ensures
        r@ == "Echo: "@ + message@,
{
    let mut s = "Echo: ".to_owned();
    s.append(message);
    s
}

} // verus!
