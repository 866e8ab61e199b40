use walrus_relay::config::RelayConfig;
use walrus_relay::cors::{cors_policy, InboundMethod};
use walrus_relay::payload::MigrationPayload;
use walrus_relay::relay::{
    blob_endpoint, classify_outcome, finish_retrieval, finish_upload, handle_migration,
    hello_world, migration_data, upload_endpoint, ErrorKind, OutboundMethod, RemoteOutcome, Step,
};

fn expect_call(step: Step) -> walrus_relay::relay::OutboundRequest {
    match step {
        Step::Call(req) => req,
        Step::Respond(r) => panic!("expected a call, got a reply with status {}", r.status),
    }
}

fn expect_reply(step: Step) -> walrus_relay::relay::RelayResponse {
    match step {
        Step::Respond(r) => r,
        Step::Call(req) => panic!("expected a reply, got a call to {}", req.url),
    }
}

#[test]
fn upload_sends_one_put_with_payload_unchanged() {
    let config = RelayConfig::new();
    let data = "héllo {\"nested\": [1, 2]}\n\ttabs".to_string();
    let req = expect_call(handle_migration(&config, Some(MigrationPayload::new(data.clone()))));
    assert_eq!(req.method, OutboundMethod::Put);
    assert_eq!(req.body, data);
    assert_eq!(
        req.url,
        "https://publisher.walrus-testnet.walrus.space/v1/blobs?epochs=5"
    );
}

#[test]
fn upload_of_empty_text_is_still_forwarded() {
    let config = RelayConfig::new();
    let req = expect_call(handle_migration(&config, Some(MigrationPayload::new(String::new()))));
    assert_eq!(req.method, OutboundMethod::Put);
    assert_eq!(req.body, "");
}

#[test]
fn undecodable_upload_body_is_bad_request() {
    let config = RelayConfig::new();
    let reply = expect_reply(handle_migration(&config, None));
    assert_eq!(reply.status, 400);
    assert_eq!(reply.body, b"expected a JSON body with a string field \"data\"".to_vec());
}

#[test]
fn retrieval_sends_one_get_with_blob_id_verbatim() {
    let config = RelayConfig::new();
    let id = "Ab-_9%2Fx y";
    let req = expect_call(migration_data(&config, id));
    assert_eq!(req.method, OutboundMethod::Get);
    assert_eq!(req.body, "");
    assert_eq!(
        req.url,
        "https://aggregator.walrus-testnet.walrus.space/v1/blobs/Ab-_9%2Fx y"
    );
    assert!(req.url.ends_with(id));
}

#[test]
fn empty_blob_id_is_bad_request_without_call() {
    let config = RelayConfig::new();
    let reply = expect_reply(migration_data(&config, ""));
    assert_eq!(reply.status, 400);
    assert_eq!(reply.body, b"the blob identifier must not be empty".to_vec());
}

#[test]
fn unreachable_store_gives_bad_gateway_on_upload() {
    let reply = finish_upload(RemoteOutcome::Unreachable {
        reason: "connection refused".to_string(),
    });
    assert_eq!(reply.status, 502);
    assert_ne!(reply.status, 200);
    assert_eq!(reply.body, "Failed to upload: connection refused".as_bytes());
}

#[test]
fn unreachable_store_gives_bad_gateway_on_retrieval() {
    let reply = finish_retrieval(RemoteOutcome::Unreachable {
        reason: "operation timed out".to_string(),
    });
    assert_eq!(reply.status, 502);
    assert_ne!(reply.status, 200);
    assert_eq!(reply.body, "Failed to fetch: operation timed out".as_bytes());
}

#[test]
fn retrieval_passes_store_body_through() {
    let body: Vec<u8> = vec![0x72, 0x00, 0xff, 0xfe, 0xc3, 0x28, 0x80, 0x7f];
    let reply = finish_retrieval(RemoteOutcome::Responded {
        status: 200,
        body: body.clone(),
    });
    assert_eq!(reply.status, 200);
    assert_eq!(reply.body, body);
}

#[test]
fn retrieval_passes_store_not_found_through() {
    let reply = finish_retrieval(RemoteOutcome::Responded {
        status: 404,
        body: b"blob not found".to_vec(),
    });
    assert_eq!(reply.status, 404);
    assert_eq!(reply.body, b"blob not found".to_vec());
}

#[test]
fn upload_passes_store_body_through() {
    let body = b"{\"newlyCreated\":{}}".to_vec();
    let reply = finish_upload(RemoteOutcome::Responded {
        status: 200,
        body: body.clone(),
    });
    assert_eq!(reply.status, 200);
    assert_eq!(reply.body, body);
}

#[test]
fn upload_answered_with_server_error_is_ok() {
    let reply = finish_upload(RemoteOutcome::Responded {
        status: 500,
        body: b"internal error".to_vec(),
    });
    assert_eq!(reply.status, 200);
    assert_eq!(reply.body, b"internal error".to_vec());
}

#[test]
fn upload_answered_with_other_statuses_is_ok() {
    for status in [201u16, 413, 404] {
        let reply = finish_upload(RemoteOutcome::Responded {
            status,
            body: Vec::new(),
        });
        assert_eq!(reply.status, 200);
        assert!(reply.body.is_empty());
    }
}

#[test]
fn health_reply_is_fixed() {
    let first = hello_world();
    assert_eq!(first.status, 200);
    assert_eq!(first.body, b"{\"data\":\"Hello World!\"}".to_vec());
    let config = RelayConfig::new();
    let _ = migration_data(&config, "");
    let _ = handle_migration(&config, None);
    let second = hello_world();
    assert_eq!(second.status, 200);
    assert_eq!(second.body, first.body);
}

#[test]
fn distinct_uploads_keep_their_own_bodies() {
    let config = RelayConfig::new();
    let a = expect_call(handle_migration(&config, Some(MigrationPayload::new("first".to_string()))));
    let b = expect_call(handle_migration(&config, Some(MigrationPayload::new("second".to_string()))));
    assert_eq!(a.body, "first");
    assert_eq!(b.body, "second");
    assert_ne!(a.body, b.body);
    assert_eq!(a.url, b.url);
}

#[test]
fn endpoints_follow_configured_hosts() {
    let mut config = RelayConfig::new();
    config.set_option("publisherBaseUrl", "http://localhost:31415").unwrap();
    config.set_option("aggregatorBaseUrl", "http://localhost:31416").unwrap();
    assert_eq!(upload_endpoint(&config), "http://localhost:31415/v1/blobs?epochs=5");
    assert_eq!(blob_endpoint(&config, "xyz"), "http://localhost:31416/v1/blobs/xyz");
}

#[test]
fn outcomes_are_classified() {
    let ok = RemoteOutcome::Responded { status: 200, body: Vec::new() };
    let created = RemoteOutcome::Responded { status: 201, body: Vec::new() };
    let missing = RemoteOutcome::Responded { status: 404, body: Vec::new() };
    let down = RemoteOutcome::Unreachable { reason: "dns".to_string() };
    assert_eq!(classify_outcome(&ok), None);
    assert_eq!(classify_outcome(&created), None);
    assert_eq!(classify_outcome(&missing), Some(ErrorKind::UpstreamError));
    assert_eq!(classify_outcome(&down), Some(ErrorKind::UpstreamUnavailable));
}

#[test]
fn error_kinds_map_to_statuses() {
    assert_eq!(ErrorKind::BadRequest.status(404), 400);
    assert_eq!(ErrorKind::UpstreamUnavailable.status(0), 502);
    assert_eq!(ErrorKind::UpstreamError.status(503), 503);
}

#[test]
fn cors_admits_get_and_post_with_content_type() {
    let policy = cors_policy();
    assert!(policy.any_origin);
    assert_eq!(policy.allowed_methods, vec![InboundMethod::Get, InboundMethod::Post]);
    assert_eq!(policy.allowed_headers, vec!["content-type".to_string()]);
}
