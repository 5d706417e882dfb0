use hmac::Mac;
use nueces::downloader::JobQueue;
use nueces::github::Signature;
use nueces::github::WorkflowRun;
use nueces::github::WorkflowRunAction;
use nueces::github::WorkflowRunConclusion;
use nueces::github::WorkflowRunEvent;
use nueces::webhook::decide_event;
use nueces::webhook::decision_status;
use nueces::webhook::echo_reply;
use nueces::webhook::triage_request;
use nueces::webhook::triage_status;
use nueces::webhook::validate_signature;
use nueces::webhook::EventDecision;
use nueces::webhook::WebhookTriage;

fn tag_of(secret: &[u8], body: &[u8]) -> Vec<u8> {
    let mut mac = <hmac::Hmac<sha2::Sha256> as hmac::KeyInit>::new_from_slice(secret)
        .expect("any key length works");
    mac.update(body);
    mac.finalize().into_bytes().to_vec()
}

fn run_event(branch: &str, path: &str, conclusion: Option<WorkflowRunConclusion>) -> WorkflowRunEvent {
    WorkflowRunEvent {
        action: WorkflowRunAction::Completed,
        workflow_run: WorkflowRun {
            head_branch: branch.to_string(),
            head_sha: "0123456789abcdef".to_string(),
            status: WorkflowRunAction::Completed,
            conclusion,
            artifacts_url: "https://api.example.invalid/runs/77/artifacts".to_string(),
            path: path.to_string(),
        },
    }
}

#[test]
fn own_digest_verifies() {
    let secret = b"s3cret";
    let body = br#"{"zen":"Design for failure."}"#;
    let tag = tag_of(secret, body);
    assert!(validate_signature(secret, &tag, body));
}

#[test]
fn known_digest_verifies() {
    // A published test vector for HMAC-SHA-256.
    let secret = b"Jefe";
    let body = b"what do ya want for nothing?";
    let expected =
        hex::decode("5bdcc146bf60754e6a042426089575c75a003f089d2739839dec58b964ec3843").unwrap();
    assert_eq!(tag_of(secret, body), expected);
    assert!(validate_signature(secret, &expected, body));
}

#[test]
fn flipped_digest_bit_rejected() {
    let secret = b"s3cret";
    let body = br#"{"zen":"Design for failure."}"#;
    let mut tag = tag_of(secret, body);
    tag[0] ^= 0x01;
    assert!(!validate_signature(secret, &tag, body));
}

#[test]
fn other_body_rejected() {
    let secret = b"s3cret";
    let tag = tag_of(secret, b"one body");
    assert!(!validate_signature(secret, &tag, b"another body"));
}

#[test]
fn ping_event_acknowledged() {
    let secret = b"hook-secret";
    let body = br#"{"zen":"Anything added dilutes everything else."}"#;
    let signature = Signature { digest: tag_of(secret, body) };
    let queue = JobQueue::new();

    let kind = "ping".to_string();
    let triage = triage_request(secret, &signature, Some(&kind), body);
    assert_eq!(triage, WebhookTriage::UnhandledEvent);
    assert_eq!(triage_status(&triage), 200);
    assert_eq!(queue.len(), 0);
}

#[test]
fn deployable_run_enqueued() {
    let secret = b"hook-secret";
    let body = br#"{"action":"completed"}"#;
    let signature = Signature { digest: tag_of(secret, body) };
    let mut queue = JobQueue::new();

    let kind = "workflow_run".to_string();
    let triage = triage_request(secret, &signature, Some(&kind), body);
    assert_eq!(triage, WebhookTriage::HandledEvent);

    let event = run_event(
        "main",
        ".github/workflows/rust.yml",
        Some(WorkflowRunConclusion::Success),
    );
    let decision = decide_event(Some(&event));
    match decision {
        EventDecision::Deploy(url) => {
            assert_eq!(url, "https://api.example.invalid/runs/77/artifacts");
            queue.enqueue(url);
        }
        other => panic!("expected a deployment, got {:?}", other),
    }
    assert_eq!(queue.len(), 1);
    assert_eq!(
        queue.dequeue().as_deref(),
        Some("https://api.example.invalid/runs/77/artifacts")
    );
}

#[test]
fn other_branch_not_enqueued() {
    let secret = b"hook-secret";
    let body = br#"{"action":"completed"}"#;
    let signature = Signature { digest: tag_of(secret, body) };
    let queue = JobQueue::new();

    let kind = "workflow_run".to_string();
    let triage = triage_request(secret, &signature, Some(&kind), body);
    assert_eq!(triage, WebhookTriage::HandledEvent);

    let event = run_event(
        "feature-x",
        ".github/workflows/rust.yml",
        Some(WorkflowRunConclusion::Success),
    );
    let decision = decide_event(Some(&event));
    assert_eq!(decision, EventDecision::Skip);
    assert_eq!(decision_status(&decision), 200);
    assert_eq!(queue.len(), 0);
}

#[test]
fn failed_run_not_enqueued() {
    let event = run_event(
        "main",
        ".github/workflows/rust.yml",
        Some(WorkflowRunConclusion::Failure),
    );
    assert_eq!(decide_event(Some(&event)), EventDecision::Skip);
}

#[test]
fn other_workflow_not_enqueued() {
    let event = run_event(
        "main",
        ".github/workflows/docs.yml",
        Some(WorkflowRunConclusion::Success),
    );
    assert_eq!(decide_event(Some(&event)), EventDecision::Skip);
}

#[test]
fn unconcluded_run_not_enqueued() {
    let event = run_event("main", ".github/workflows/rust.yml", None);
    assert_eq!(decide_event(Some(&event)), EventDecision::Skip);
}

#[test]
fn invalid_signature_rejected() {
    let secret = b"hook-secret";
    let body = br#"{"action":"completed"}"#;
    let mut digest = tag_of(secret, body);
    digest[7] ^= 0x80;
    let signature = Signature { digest };
    let queue = JobQueue::new();

    let kind = "workflow_run".to_string();
    let triage = triage_request(secret, &signature, Some(&kind), body);
    assert_eq!(triage, WebhookTriage::BadSignature);
    assert_eq!(triage_status(&triage), 400);
    assert_eq!(queue.len(), 0);
}

#[test]
fn missing_event_header_rejected() {
    let secret = b"hook-secret";
    let body = b"{}";
    let signature = Signature { digest: tag_of(secret, body) };
    let triage = triage_request(secret, &signature, None, body);
    assert_eq!(triage, WebhookTriage::MissingEventHeader);
    assert_eq!(triage_status(&triage), 400);
}

#[test]
fn malformed_payload_rejected() {
    let decision = decide_event(None);
    assert_eq!(decision, EventDecision::Malformed);
    assert_eq!(decision_status(&decision), 400);
}

#[test]
fn signature_header_decodes() {
    let sig = Signature::decode(b"sha256=00ffa1").expect("valid hex");
    assert_eq!(sig.digest, vec![0x00, 0xff, 0xa1]);

    let sig = Signature::decode(b"sha256=AB").expect("upper-case hex");
    assert_eq!(sig.digest, vec![0xab]);

    let sig = Signature::decode(b"sha256=").expect("empty digest");
    assert_eq!(sig.digest, Vec::<u8>::new());
}

#[test]
fn signature_header_decode_matches_reference() {
    let text = "5bdcc146bf60754e6a042426089575c75a003f089d2739839dec58b964ec3843";
    let mut header = b"sha256=".to_vec();
    header.extend_from_slice(text.as_bytes());
    let sig = Signature::decode(&header).expect("valid hex");
    assert_eq!(sig.digest, hex::decode(text).unwrap());
}

#[test]
fn signature_header_rejects_malformed() {
    assert!(Signature::decode(b"sha256=0").is_none(), "odd length");
    assert!(Signature::decode(b"sha256=0g").is_none(), "not hex");
    assert!(Signature::decode(b"sha25").is_none(), "too short");
    assert!(Signature::decode(b"").is_none(), "empty");
}

#[test]
fn echo_reply_text() {
    assert_eq!(echo_reply("hello"), "Echo: hello");
}
