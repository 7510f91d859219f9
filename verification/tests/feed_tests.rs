use ntfy_log::feed::{get_latest, status_is_success, FeedResponse, FetchError};
use ntfy_log::version::Version;

fn received(status: u16, body: &str) -> FeedResponse {
    FeedResponse::Received { status, body: body.to_string() }
}

#[test]
fn latest_version_comes_from_the_tag_field() {
    let r = get_latest(&received(200, "{\"tag_name\":\"v1.2.3\"}"));
    assert!(matches!(r, Ok(Version { major: 1, minor: 2, patch: 3 })));
}

#[test]
fn tag_without_v_prefix_works_too() {
    let r = get_latest(&received(200, "{\"tag_name\":\"0.9.1\",\"name\":\"other\"}"));
    assert!(matches!(r, Ok(Version { major: 0, minor: 9, patch: 1 })));
}

#[test]
fn garbage_tag_degrades_to_zero_version() {
    let r = get_latest(&received(200, "{\"tag_name\":\"nightly\"}"));
    assert!(matches!(r, Ok(Version { major: 0, minor: 0, patch: 0 })));
}

#[test]
fn missing_tag_field_is_a_feed_error_not_a_network_error() {
    let r = get_latest(&received(200, "{\"name\":\"v1.2.3\"}"));
    assert!(matches!(r, Err(FetchError::MissingTag)));
    assert!(!matches!(r, Err(FetchError::Transport { .. })));
}

#[test]
fn non_string_tag_field_counts_as_missing() {
    let r = get_latest(&received(200, "{\"tag_name\":5}"));
    assert!(matches!(r, Err(FetchError::MissingTag)));
}

#[test]
fn malformed_body_is_a_bad_response() {
    let r = get_latest(&received(200, "not json at all"));
    match r {
        Err(FetchError::BadResponse { detail }) => {
            assert_eq!(detail, "release feed is not a JSON document");
        },
        _ => panic!("expected a bad-response error"),
    }
}

#[test]
fn non_success_status_is_a_bad_response_with_the_status() {
    let r = get_latest(&received(404, "{\"tag_name\":\"v1.2.3\"}"));
    match r {
        Err(FetchError::BadResponse { detail }) => {
            assert_eq!(detail, "HTTP status 404");
        },
        _ => panic!("expected a bad-response error"),
    }
}

#[test]
fn transport_failure_keeps_its_detail() {
    let r = get_latest(&FeedResponse::Failed { detail: "connection refused".to_string() });
    match r {
        Err(e) => {
            assert!(matches!(e, FetchError::Transport { .. }));
            assert_eq!(
                e.message(),
                "Failed to fetch release data from GitHub API: connection refused"
            );
        },
        Ok(_) => panic!("expected a transport error"),
    }
}

#[test]
fn error_messages_are_exact() {
    let bad = get_latest(&received(500, "{}")).unwrap_err();
    assert_eq!(bad.message(), "Invalid release data from GitHub API: HTTP status 500");
    let missing = get_latest(&received(200, "{}")).unwrap_err();
    assert_eq!(missing.message(), "Missing or invalid tag_name in GitHub response");
}

#[test]
fn status_classification_matches_the_http_convention() {
    assert!(status_is_success(200));
    assert!(status_is_success(204));
    assert!(status_is_success(299));
    assert!(!status_is_success(199));
    assert!(!status_is_success(300));
    assert!(!status_is_success(404));
    assert!(!status_is_success(500));
}
