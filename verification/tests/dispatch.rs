use vss_client::client::{
    complete_decoded, complete_get, screen_event, Disposition, TransportEvent, VssClient,
};
use vss_client::error::VssError;
use vss_client::retry::ExponentialBackoffRetryPolicy;
use vss_client::types::{
    DeleteObjectResponse, GetObjectResponse, KeyValue, KeyVersion, ListKeyVersionsResponse,
    PutObjectResponse,
};

fn policy() -> ExponentialBackoffRetryPolicy {
    ExponentialBackoffRetryPolicy { base_delay_ms: 10, max_attempts: 3 }
}

#[test]
fn success_status_hands_body_to_codec_unchanged() {
    let body = vec![0u8, 255, 3, 14, 15];
    let d = screen_event(TransportEvent::Response { status: 200, body: body.clone() });
    assert_eq!(d, Disposition::Decode(body));
}

#[test]
fn success_range_boundaries_hand_body_on() {
    for status in [200u16, 204, 299] {
        let d = screen_event(TransportEvent::Response { status, body: vec![9, 9] });
        assert_eq!(d, Disposition::Decode(vec![9, 9]));
    }
}

#[test]
fn non_success_status_preserves_status_and_body_exactly() {
    let body = b"conflict: version 7 expected".to_vec();
    let d = screen_event(TransportEvent::Response { status: 409, body: body.clone() });
    assert_eq!(d, Disposition::Fail(VssError::ClientError { status: 409, body }));

    let body = b"internal".to_vec();
    let d = screen_event(TransportEvent::Response { status: 503, body: body.clone() });
    assert_eq!(d, Disposition::Fail(VssError::ServerError { status: 503, body }));
}

#[test]
fn transport_failure_is_surfaced_as_transport_error() {
    let d = screen_event(TransportEvent::Failure("connection refused".to_string()));
    assert_eq!(
        d,
        Disposition::Fail(VssError::TransportError("connection refused".to_string()))
    );
}

#[test]
fn get_with_value_is_returned_unchanged() {
    let resp = GetObjectResponse {
        value: Some(KeyValue { key: "k1".to_string(), version: 4, value: vec![1, 2] }),
    };
    assert_eq!(complete_get(Ok(resp.clone())), Ok(resp));
}

#[test]
fn get_without_value_is_a_contract_violation() {
    let r = complete_get(Ok(GetObjectResponse { value: None }));
    match r {
        Err(VssError::ContractViolation(m)) => {
            assert_eq!(m, "VSS server contract violation: GetObjectResponse carries no value");
        }
        other => panic!(
            "a success response without a value must be a contract violation, got {:?}",
            other
        ),
    }
}

#[test]
fn get_decode_failure_is_malformed_response() {
    let r = complete_get(Err("invalid wire type".to_string()));
    assert_eq!(
        r,
        Err(VssError::MalformedResponse("invalid wire type".to_string()))
    );
}

#[test]
fn decoded_acks_are_returned_unchanged() {
    assert_eq!(complete_decoded(Ok(PutObjectResponse {})), Ok(PutObjectResponse {}));
    assert_eq!(
        complete_decoded(Ok(DeleteObjectResponse {})),
        Ok(DeleteObjectResponse {})
    );
    let listing = ListKeyVersionsResponse {
        key_versions: vec![
            KeyVersion { key: "a".to_string(), version: 1 },
            KeyVersion { key: "b".to_string(), version: 2 },
        ],
        next_page_token: None,
    };
    assert_eq!(complete_decoded(Ok(listing.clone())), Ok(listing));
}

#[test]
fn decode_failure_of_an_ack_is_malformed_response() {
    let r: Result<PutObjectResponse, VssError> =
        complete_decoded(Err("truncated buffer".to_string()));
    assert_eq!(r, Err(VssError::MalformedResponse("truncated buffer".to_string())));
}

#[test]
fn single_error_event_surfaces_immediately_for_unretried_operations() {
    // Get, delete and list interpret exactly one transport event: a single
    // classified error passes straight through, retry policy or not.
    let body = b"no such key".to_vec();
    let event = TransportEvent::Response { status: 404, body: body.clone() };
    match screen_event(event) {
        Disposition::Fail(e) => {
            assert_eq!(e, VssError::ClientError { status: 404, body });
        }
        Disposition::Decode(_) => panic!("a non-success status must not reach the codec"),
    }

    let event = TransportEvent::Response { status: 502, body: b"bad gateway".to_vec() };
    match screen_event(event) {
        Disposition::Fail(e) => {
            assert_eq!(
                e,
                VssError::ServerError { status: 502, body: b"bad gateway".to_vec() }
            );
        }
        Disposition::Decode(_) => panic!("a non-success status must not reach the codec"),
    }
}

#[test]
fn urls_append_the_fixed_operation_suffixes() {
    let http = reqwest::Client::builder().build().unwrap();
    let client = VssClient::from_client("http://localhost:3000", http, policy());
    assert_eq!(client.base_url(), "http://localhost:3000");
    assert_eq!(client.get_object_url(), "http://localhost:3000/getObject");
    assert_eq!(client.put_objects_url(), "http://localhost:3000/putObjects");
    assert_eq!(client.delete_object_url(), "http://localhost:3000/deleteObject");
    assert_eq!(
        client.list_key_versions_url(),
        "http://localhost:3000/listKeyVersions"
    );
}

#[test]
fn new_builds_a_client_with_the_given_base_url() {
    let client = VssClient::new("https://vss.example", policy())
        .expect("default transport configuration must build");
    assert_eq!(client.base_url(), "https://vss.example");
}
