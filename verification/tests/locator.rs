use azvm_manager::{locate, parse_u64, last_path_segment, AppError, Headers};

fn headers_of(pairs: &[(&str, &str)]) -> Headers {
    let mut h = Headers::new();
    for (name, value) in pairs {
        h.push(name.to_string(), value.to_string());
    }
    h
}

#[test]
fn prefers_async_operation_over_location() {
    let h = headers_of(&[
        ("location", "https://b/ops/second"),
        ("azure-asyncoperation", "https://a/ops/first"),
    ]);
    let handle = locate(&h).unwrap();
    assert_eq!(handle.poll_url, "https://a/ops/first");
    assert_eq!(handle.id, "first");
}

#[test]
fn prefers_async_operation_when_it_comes_first_too() {
    let h = headers_of(&[
        ("azure-asyncoperation", "https://a/ops/first"),
        ("location", "https://b/ops/second"),
    ]);
    let handle = locate(&h).unwrap();
    assert_eq!(handle.poll_url, "https://a/ops/first");
    assert_eq!(handle.id, "first");
}

#[test]
fn falls_back_to_location() {
    let h = headers_of(&[("location", "https://b/ops/second")]);
    let handle = locate(&h).unwrap();
    assert_eq!(handle.poll_url, "https://b/ops/second");
    assert_eq!(handle.id, "second");
}

#[test]
fn missing_both_headers_fails() {
    let h = headers_of(&[("content-type", "application/json")]);
    let err = locate(&h).unwrap_err();
    assert!(matches!(err, AppError::MissingOperationHandle));
}

#[test]
fn missing_on_empty_headers() {
    let h = Headers::new();
    let err = locate(&h).unwrap_err();
    assert!(matches!(err, AppError::MissingOperationHandle));
}

#[test]
fn extracts_final_path_segment_as_id() {
    let h = headers_of(&[(
        "azure-asyncoperation",
        "https://management.azure.com/subscriptions/s/operationResults/abc123",
    )]);
    let handle = locate(&h).unwrap();
    assert_eq!(handle.id, "abc123");
}

#[test]
fn query_is_not_part_of_the_id() {
    let h = headers_of(&[("location", "https://x/ops/42?api-version=2019-05-13")]);
    let handle = locate(&h).unwrap();
    assert_eq!(handle.id, "42");
}

#[test]
fn malformed_url_fails() {
    let h = headers_of(&[("location", "not a url at all")]);
    let err = locate(&h).unwrap_err();
    assert!(matches!(err, AppError::MalformedOperationHandle(_)));
}

#[test]
fn empty_final_segment_fails() {
    let h = headers_of(&[("location", "https://x/ops/")]);
    let err = locate(&h).unwrap_err();
    assert!(matches!(err, AppError::InvalidOperationHandle));
}

#[test]
fn handle_without_retry_after_defaults_to_sixty_seconds() {
    let h = headers_of(&[("location", "https://x/ops/42")]);
    let handle = locate(&h).unwrap();
    assert_eq!(handle.id, "42");
    assert_eq!(handle.retry_after_secs, 60);
}

#[test]
fn retry_after_is_read_in_seconds() {
    let h = headers_of(&[("location", "https://x/ops/42"), ("retry-after", "30")]);
    let handle = locate(&h).unwrap();
    assert_eq!(handle.retry_after_secs, 30);
}

#[test]
fn unparseable_retry_after_defaults() {
    let h = headers_of(&[("location", "https://x/ops/42"), ("retry-after", "soon")]);
    let handle = locate(&h).unwrap();
    assert_eq!(handle.retry_after_secs, 60);
}

#[test]
fn oversized_retry_after_defaults() {
    let h = headers_of(&[
        ("location", "https://x/ops/42"),
        ("retry-after", "99999999999999999999999999"),
    ]);
    let handle = locate(&h).unwrap();
    assert_eq!(handle.retry_after_secs, 60);
}

#[test]
fn header_lookup_ignores_ascii_case() {
    let h = headers_of(&[
        ("Azure-AsyncOperation", "https://a/ops/first"),
        ("Location", "https://b/ops/second"),
        ("Retry-After", "7"),
    ]);
    let handle = locate(&h).unwrap();
    assert_eq!(handle.poll_url, "https://a/ops/first");
    assert_eq!(handle.retry_after_secs, 7);
}

#[test]
fn first_entry_of_a_repeated_header_wins() {
    let h = headers_of(&[
        ("location", "https://x/ops/one"),
        ("location", "https://x/ops/two"),
    ]);
    let handle = locate(&h).unwrap();
    assert_eq!(handle.id, "one");
}

#[test]
fn parse_u64_reads_plain_decimals() {
    assert_eq!(parse_u64("0"), Some(0));
    assert_eq!(parse_u64("42"), Some(42));
    assert_eq!(parse_u64("007"), Some(7));
    assert_eq!(parse_u64("18446744073709551615"), Some(u64::MAX));
}

#[test]
fn parse_u64_rejects_everything_else() {
    assert_eq!(parse_u64(""), None);
    assert_eq!(parse_u64("-1"), None);
    assert_eq!(parse_u64("1.5"), None);
    assert_eq!(parse_u64(" 42"), None);
    assert_eq!(parse_u64("18446744073709551616"), None);
}

#[test]
fn last_segment_of_paths() {
    assert_eq!(last_path_segment("/ops/42"), "42");
    assert_eq!(last_path_segment("/a/b/c"), "c");
    assert_eq!(last_path_segment("abc"), "abc");
    assert_eq!(last_path_segment("/a/"), "");
    assert_eq!(last_path_segment(""), "");
    assert_eq!(last_path_segment("/"), "");
}

#[test]
fn error_messages_name_the_failure() {
    assert_eq!(
        AppError::MissingOperationHandle.message(),
        "The response is missing a location header"
    );
    assert_eq!(AppError::NoSub.message(), "No subscription specified");
    assert_eq!(AppError::NoRg.message(), "No resource group specified");
    assert_eq!(AppError::NoVault.message(), "No vault name specified");
}
