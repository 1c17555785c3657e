use uv_publish::{
    check_response_head, classify_failure, handle_response, PublishSendError, ResponseHead,
};

const REGISTRY: &str = "https://example.org/upload";

fn head(url: &str, status: u16, content_type: Option<&str>) -> ResponseHead {
    ResponseHead {
        url: url.to_string(),
        status,
        content_type: content_type.map(|value| value.to_string()),
    }
}

fn body(text: &str) -> Result<Vec<u8>, reqwest::Error> {
    Ok(text.as_bytes().to_vec())
}

fn unreadable() -> reqwest::Error {
    reqwest::Client::new()
        .get("this is no url")
        .build()
        .unwrap_err()
}

#[test]
fn success_is_newly_uploaded() {
    for status in [200, 201, 204, 299] {
        let outcome = handle_response(REGISTRY, &head(REGISTRY, status, None), body(""));
        assert!(matches!(outcome, Ok(true)));
    }
}

#[test]
fn success_does_not_need_its_body() {
    let outcome = handle_response(REGISTRY, &head(REGISTRY, 200, None), Err(unreadable()));
    assert!(matches!(outcome, Ok(true)));
    assert!(matches!(
        check_response_head(REGISTRY, &head(REGISTRY, 200, None)),
        Some(Ok(true))
    ));
}

#[test]
fn redirect_is_an_error_even_with_success_status() {
    let canonical = "https://example.org/upload/";
    for status in [200, 301, 403, 409, 500] {
        let outcome = handle_response(REGISTRY, &head(canonical, status, None), body("ok"));
        match outcome {
            Err(PublishSendError::RedirectError(url)) => assert_eq!(url, canonical),
            other => panic!("unexpected outcome: {other:?}"),
        }
    }
    let early = check_response_head(REGISTRY, &head(canonical, 200, None));
    assert!(matches!(
        early,
        Some(Err(PublishSendError::RedirectError(_)))
    ));
}

#[test]
fn head_of_failure_asks_for_the_body() {
    for status in [100, 199, 300, 400, 403, 409, 500] {
        assert!(check_response_head(REGISTRY, &head(REGISTRY, status, None)).is_none());
    }
}

#[test]
fn conflict_is_already_exists() {
    let outcome = handle_response(REGISTRY, &head(REGISTRY, 409, None), body("whatever"));
    assert!(matches!(outcome, Ok(false)));
    let outcome = handle_response(REGISTRY, &head(REGISTRY, 409, None), body(""));
    assert!(matches!(outcome, Ok(false)));
}

#[test]
fn forbidden_overwrite_is_already_exists() {
    let text = "Not enough permissions to overwrite artifact 'pypi-local:dummy.whl'";
    let outcome = handle_response(REGISTRY, &head(REGISTRY, 403, None), body(text));
    assert!(matches!(outcome, Ok(false)));
}

#[test]
fn forbidden_without_the_phrase_is_permission_denied() {
    let outcome = handle_response(
        REGISTRY,
        &head(REGISTRY, 403, Some("text/plain")),
        body("Invalid or non-existent authentication information."),
    );
    match outcome {
        Err(PublishSendError::PermissionDenied(status, message)) => {
            assert_eq!(status, 403);
            assert_eq!(message, "Invalid or non-existent authentication information.");
        }
        other => panic!("unexpected outcome: {other:?}"),
    }
}

#[test]
fn overwrite_phrase_counts_only_with_forbidden() {
    let outcome = handle_response(
        REGISTRY,
        &head(REGISTRY, 500, None),
        body("cannot overwrite artifact"),
    );
    match outcome {
        Err(PublishSendError::Status(status, message)) => {
            assert_eq!(status, 500);
            assert_eq!(message, "cannot overwrite artifact");
        }
        other => panic!("unexpected outcome: {other:?}"),
    }
}

#[test]
fn bad_request_quirks_are_already_exists() {
    let nexus = "Repository does not allow updating assets: pypi";
    let outcome = handle_response(REGISTRY, &head(REGISTRY, 400, None), body(nexus));
    assert!(matches!(outcome, Ok(false)));
    let gitlab = "Validation failed: File name has already been taken";
    let outcome = handle_response(REGISTRY, &head(REGISTRY, 400, None), body(gitlab));
    assert!(matches!(outcome, Ok(false)));
}

#[test]
fn bad_request_without_a_quirk_is_a_status_failure() {
    let outcome = handle_response(
        REGISTRY,
        &head(REGISTRY, 400, None),
        body("Use 'source' as Python version for an sdist."),
    );
    match outcome {
        Err(PublishSendError::Status(status, message)) => {
            assert_eq!(status, 400);
            assert_eq!(message, "Use 'source' as Python version for an sdist.");
        }
        other => panic!("unexpected outcome: {other:?}"),
    }
}

#[test]
fn unreadable_body_is_status_no_body() {
    for status in [400, 403, 409, 500] {
        let outcome = handle_response(REGISTRY, &head(REGISTRY, status, None), Err(unreadable()));
        match outcome {
            Err(PublishSendError::StatusNoBody(code, cause)) => {
                assert_eq!(code, status);
                assert!(cause.is_builder());
            }
            other => panic!("unexpected outcome: {other:?}"),
        }
    }
}

#[test]
fn json_code_is_the_message() {
    let body = r#"{"code":"X","message":"Y"}"#.to_string();
    assert_eq!(
        PublishSendError::extract_error_message(body.clone(), Some("application/json")),
        "X"
    );
    assert_eq!(
        PublishSendError::extract_error_message(body.clone(), Some("text/plain")),
        body
    );
    assert_eq!(
        PublishSendError::extract_error_message(body.clone(), None),
        body
    );
}

#[test]
fn json_content_type_must_match_exactly() {
    let body = r#"{"code":"X"}"#.to_string();
    for content_type in [
        "application/json; charset=utf-8",
        "Application/JSON",
        "application/json ",
        "",
    ] {
        assert_eq!(
            PublishSendError::extract_error_message(body.clone(), Some(content_type)),
            body
        );
    }
}

#[test]
fn body_without_string_code_is_the_message() {
    for body in [
        "not json at all",
        "",
        r#"{"message":"Y"}"#,
        r#"{"code":5}"#,
        r#"{"code":null}"#,
        r#"["X"]"#,
        r#""X""#,
        r#"{"code":"X"} trailing"#,
        r#"{"code":"X""#,
    ] {
        assert_eq!(
            PublishSendError::extract_error_message(body.to_string(), Some("application/json")),
            body
        );
    }
}

#[test]
fn json_code_is_unescaped() {
    let body = r#"{"title":"Forbidden","code":"403 \"quoted\"\né","message":"m"}"#;
    assert_eq!(
        PublishSendError::extract_error_message(body.to_string(), Some("application/json")),
        "403 \"quoted\"\n\u{e9}"
    );
}

#[test]
fn select_error_message_takes_the_given_code() {
    let pick = |content_type, code: Option<&str>| {
        PublishSendError::select_error_message(
            "body".to_string(),
            content_type,
            code.map(|code| code.to_string()),
        )
    };
    assert_eq!(pick(Some("application/json"), Some("code")), "code");
    assert_eq!(pick(Some("application/json"), None), "body");
    assert_eq!(pick(Some("text/html"), Some("code")), "body");
    assert_eq!(pick(None, Some("code")), "body");
}

#[test]
fn status_failure_carries_json_code() {
    let text = r#"{"message": "Access was denied to this resource.", "code": "403 Username/Password authentication is no longer supported.", "title": "Forbidden"}"#;
    let outcome = handle_response(
        REGISTRY,
        &head(REGISTRY, 403, Some("application/json")),
        body(text),
    );
    match outcome {
        Err(PublishSendError::PermissionDenied(status, message)) => {
            assert_eq!(status, 403);
            assert_eq!(
                message,
                "403 Username/Password authentication is no longer supported."
            );
        }
        other => panic!("unexpected outcome: {other:?}"),
    }
    let outcome = handle_response(
        REGISTRY,
        &head(REGISTRY, 503, Some("application/json")),
        body(r#"{"code":"busy"}"#),
    );
    match outcome {
        Err(PublishSendError::Status(status, message)) => {
            assert_eq!(status, 503);
            assert_eq!(message, "busy");
        }
        other => panic!("unexpected outcome: {other:?}"),
    }
}

#[test]
fn malformed_body_is_decoded_lossily() {
    let outcome = handle_response(
        REGISTRY,
        &head(REGISTRY, 500, None),
        Ok(vec![b'a', 0xff, b'b']),
    );
    match outcome {
        Err(PublishSendError::Status(status, message)) => {
            assert_eq!(status, 500);
            assert_eq!(message, "a\u{fffd}b");
        }
        other => panic!("unexpected outcome: {other:?}"),
    }
}

#[test]
fn classify_failure_reads_status_and_text() {
    assert!(matches!(
        classify_failure(409, "x".to_string(), None),
        Ok(false)
    ));
    assert!(matches!(
        classify_failure(403, "will not overwrite artifact".to_string(), None),
        Ok(false)
    ));
    assert!(matches!(
        classify_failure(403, "overwrite  artifact".to_string(), None),
        Err(PublishSendError::PermissionDenied(403, _))
    ));
    assert!(matches!(
        classify_failure(400, "already been taken".to_string(), None),
        Ok(false)
    ));
    assert!(matches!(
        classify_failure(404, "updating asset".to_string(), None),
        Err(PublishSendError::Status(404, _))
    ));
    assert!(matches!(
        classify_failure(401, String::new(), None),
        Err(PublishSendError::Status(401, _))
    ));
}
