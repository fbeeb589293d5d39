//! The multipart protocol: request building, response reading, the finish
//! body, the coordinator, and the concurrency gate.

use ufile_core::{
    AbortMultipartUploadApi, ConcurrencyGate, FinishMultipartFileApi, HttpMethod,
    InitMultipartFileApi, InitMultipartState, MetadataDirective, MultipartPutFileApi,
    MultipartUploadCoordinator, MultipartUploadState, ObjectConfig, RequestBody, UFileError,
    UfileProtocol, UploadPhase,
};

fn test_config() -> ObjectConfig {
    ObjectConfig {
        endpoint: "https://api.ucloud.cn".to_string(),
        private_key: "test-private-key".to_string(),
        public_key: "pubkey".to_string(),
        region: "cn-bj".to_string(),
        proxy_suffix: Some("ufileos.com".to_string()),
        custom_host: None,
        protocol: UfileProtocol::Https,
    }
}

fn test_session(upload_id: &str) -> InitMultipartState {
    InitMultipartState {
        upload_id: upload_id.to_string(),
        blk_size: 4_194_304,
        bucket: "bucket".to_string(),
        key_name: "key".to_string(),
        mime_type: Some("application/octet-stream".to_string()),
    }
}

fn part(number: usize, etag: &str) -> MultipartUploadState {
    MultipartUploadState {
        headers: Vec::new(),
        part_number: number,
        etag: etag.to_string(),
    }
}

#[test]
fn init_request_posts_the_uploads_marker() {
    let api = InitMultipartFileApi::new(
        "bucket".to_string(),
        "key".to_string(),
        "text/plain".to_string(),
    )
    .unwrap();
    let request = api.build_request(&test_config(), "20240101000000");
    assert_eq!(request.method, HttpMethod::Post);
    assert_eq!(
        request.url,
        "https://bucket.cn-bj.ufileos.com/key?uploads"
    );
    assert!(matches!(request.body, RequestBody::Empty));
    assert_eq!(request.headers[0].0, "Content-Type");
    assert_eq!(request.headers[0].1, "text/plain");
    assert_eq!(request.headers[1], ("Accept".to_string(), "*/*".to_string()));
    assert_eq!(request.headers[2].1, "20240101000000");
    assert!(request.headers[3].1.starts_with("UCloud pubkey:"));
}

#[test]
fn init_rejects_invalid_fields() {
    let empty_bucket = InitMultipartFileApi::new(
        "".to_string(),
        "key".to_string(),
        "text/plain".to_string(),
    );
    assert_eq!(empty_bucket.err().unwrap(), "bucket name can not be empty");
    let bad_mime = InitMultipartFileApi::new(
        "bucket".to_string(),
        "key".to_string(),
        "not a mime".to_string(),
    );
    assert_eq!(bad_mime.err().unwrap(), "mime type [not a mime] is invalid");
}

#[test]
fn init_response_backfills_the_mime_type() {
    let api = InitMultipartFileApi::new(
        "bucket".to_string(),
        "key".to_string(),
        "text/plain".to_string(),
    )
    .unwrap();
    let body = InitMultipartState {
        upload_id: "abc123".to_string(),
        blk_size: 4_194_304,
        bucket: "bucket".to_string(),
        key_name: "key".to_string(),
        mime_type: None,
    };
    let session = api.accept_response(200, Some(body), None).unwrap();
    assert_eq!(session.mime_type.as_deref(), Some("text/plain"));
    assert_eq!(session.upload_id, "abc123");

    let api2 = InitMultipartFileApi::new(
        "bucket".to_string(),
        "key".to_string(),
        "text/plain".to_string(),
    )
    .unwrap();
    let failed = api2.accept_response(500, None, None);
    assert!(failed.is_err());
}

#[test]
fn part_request_carries_number_length_and_md5() {
    let mut api = MultipartPutFileApi::new(
        test_session("abc123"),
        b"hello world".to_vec(),
        4_194_304,
        2,
    )
    .unwrap();
    api.is_verify_md5 = true;
    let request = api.build_request(&test_config(), "20240101000000").unwrap();
    assert_eq!(request.method, HttpMethod::Put);
    assert_eq!(
        request.url,
        "https://bucket.cn-bj.ufileos.com/key?uploadId=abc123&partNumber=2"
    );
    assert_eq!(
        request.headers[4],
        ("Content-Length".to_string(), "11".to_string())
    );
    assert_eq!(
        request.headers[5],
        (
            "Content-MD5".to_string(),
            "5eb63bbbe01eeed093cb22bb8f5acdc3".to_string()
        )
    );
    match request.body {
        RequestBody::Bytes(b) => assert_eq!(b, b"hello world".to_vec()),
        _ => panic!("part upload must carry its bytes"),
    }
}

#[test]
fn part_rejects_empty_buffer_and_missing_mime() {
    let rejected = MultipartPutFileApi::new(test_session("id"), Vec::new(), 4_194_304, 1);
    assert_eq!(rejected.err().unwrap(), "buffer can not be empty");

    let mut session = test_session("id");
    session.mime_type = None;
    let api = MultipartPutFileApi::new(session, vec![1u8], 4_194_304, 1).unwrap();
    let built = api.build_request(&test_config(), "20240101000000");
    assert_eq!(
        built.err().unwrap(),
        UFileError::ValidationError("mime type is unset.".to_string())
    );
}

#[test]
fn part_response_takes_the_etag_header_and_strips_quotes() {
    let api = MultipartPutFileApi::new(test_session("id"), vec![1u8], 4_194_304, 1).unwrap();
    let body = MultipartUploadState {
        headers: Vec::new(),
        part_number: 1,
        etag: String::new(),
    };
    let headers = vec![("etag".to_string(), "\"abcdef\"".to_string())];
    let result = api.accept_response(200, Some(body), headers, None).unwrap();
    assert_eq!(result.etag, "abcdef");
    assert_eq!(result.part_number, 1);
}

#[test]
fn finish_body_is_comma_joined_etags_sorted_by_part_number() {
    let mut api = FinishMultipartFileApi::new(
        test_session("abc123"),
        vec![part(3, "c"), part(1, "a"), part(2, "b")],
    );
    let request = api.build_request(&test_config(), "20240101000000").unwrap();
    match &request.body {
        RequestBody::Text(body) => assert_eq!(body, "a,b,c"),
        _ => panic!("finish must carry a text body"),
    }
    assert_eq!(
        request.url,
        "https://bucket.cn-bj.ufileos.com/key?uploadId=abc123&newKey="
    );
    let lengths: Vec<&(String, String)> = request
        .headers
        .iter()
        .filter(|(name, _)| name == "Content-Length")
        .collect();
    assert_eq!(lengths, vec![&("Content-Length".to_string(), "5".to_string())]);
}

#[test]
fn finish_body_ignores_completion_order() {
    let mut first = FinishMultipartFileApi::new(
        test_session("id"),
        vec![part(2, "b"), part(3, "c"), part(1, "a")],
    );
    let mut second = FinishMultipartFileApi::new(
        test_session("id"),
        vec![part(1, "a"), part(3, "c"), part(2, "b")],
    );
    let body_of = |api: &mut FinishMultipartFileApi| -> String {
        match api.build_request(&test_config(), "20240101000000").unwrap().body {
            RequestBody::Text(body) => body,
            _ => panic!("finish must carry a text body"),
        }
    };
    assert_eq!(body_of(&mut first), body_of(&mut second));
}

#[test]
fn finish_directive_header_uses_the_wire_names() {
    assert_eq!(MetadataDirective::Unchanged.as_str(), "UNCHANGED");
    assert_eq!(MetadataDirective::Replace.as_str(), "REPLACE");
    let mut api = FinishMultipartFileApi::new(test_session("id"), vec![part(1, "a")]);
    api.metadata_directive = Some(MetadataDirective::Replace);
    let request = api.build_request(&test_config(), "20240101000000").unwrap();
    assert!(request
        .headers
        .contains(&("X-Ufile-Metadata-Directive".to_string(), "REPLACE".to_string())));
}

#[test]
fn finish_response_header_etag_overrides_the_body_field() {
    let api = FinishMultipartFileApi::new(test_session("id"), Vec::new());
    let body = ufile_core::FinishUploadResponse {
        headers: Vec::new(),
        bucket: "bucket".to_string(),
        key: "key".to_string(),
        file_size: 11,
        etag: "from-body".to_string(),
    };
    let headers = vec![("etag".to_string(), "from-header".to_string())];
    let outcome = api.accept_response(200, Some(body), headers, None).unwrap();
    assert_eq!(outcome.etag, "from-header");

    let api = FinishMultipartFileApi::new(test_session("id"), Vec::new());
    let body = ufile_core::FinishUploadResponse {
        headers: Vec::new(),
        bucket: "bucket".to_string(),
        key: "key".to_string(),
        file_size: 11,
        etag: "from-body".to_string(),
    };
    let outcome = api.accept_response(200, Some(body), Vec::new(), None).unwrap();
    assert_eq!(outcome.etag, "from-body");
}

#[test]
fn abort_issues_delete_with_the_upload_id_and_accepts_any_2xx() {
    let api = AbortMultipartUploadApi::new(test_session("abc123"));
    let request = api.build_request(&test_config(), "20240101000000").unwrap();
    assert_eq!(request.method, HttpMethod::Delete);
    assert_eq!(
        request.url,
        "https://bucket.cn-bj.ufileos.com/key?uploadId=abc123"
    );
    assert!(matches!(request.body, RequestBody::Empty));
    assert_eq!(api.accept_response(204, None), Ok(()));
    assert_eq!(api.accept_response(299, None), Ok(()));
    assert_eq!(api.accept_response(404, None), Err(UFileError::ApiError));
}

#[test]
fn failed_part_blocks_finish_and_surfaces_the_first_error() {
    let mut coordinator = MultipartUploadCoordinator::new(test_session("abc123"), 3);
    coordinator.on_part_success(part(1, "a"));
    coordinator.on_part_failure(UFileError::NetworkError("connection reset".to_string()));
    coordinator.on_part_success(part(3, "c"));
    assert_eq!(coordinator.parts_resolved(), 3);
    assert!(!coordinator.can_finish());
    assert_eq!(
        coordinator.first_error,
        Some(UFileError::NetworkError("connection reset".to_string()))
    );
    // The caller aborts explicitly; parts 1 and 3 still recorded success.
    assert_eq!(coordinator.completed.len(), 2);
    let abort = coordinator.abort_api();
    assert_eq!(abort.state.upload_id, "abc123");
    assert_eq!(coordinator.phase, UploadPhase::Aborted);
}

#[test]
fn later_failures_do_not_replace_the_first_error() {
    let mut coordinator = MultipartUploadCoordinator::new(test_session("id"), 2);
    coordinator.on_part_failure(UFileError::NetworkError("first".to_string()));
    coordinator.on_part_failure(UFileError::NetworkError("second".to_string()));
    assert_eq!(
        coordinator.first_error,
        Some(UFileError::NetworkError("first".to_string()))
    );
}

#[test]
fn coordinator_commits_after_all_parts_succeed() {
    let mut coordinator = MultipartUploadCoordinator::new(test_session("abc123"), 2);
    coordinator.on_part_success(part(2, "b"));
    coordinator.on_part_success(part(1, "a"));
    assert!(coordinator.can_finish());
    let mut finish = coordinator.finish_api();
    assert_eq!(coordinator.phase, UploadPhase::Finishing);
    let request = finish.build_request(&test_config(), "20240101000000").unwrap();
    match request.body {
        RequestBody::Text(body) => assert_eq!(body, "a,b"),
        _ => panic!("finish must carry a text body"),
    }
    coordinator.commit();
    assert_eq!(coordinator.phase, UploadPhase::Committed);
}

#[test]
fn gate_never_admits_more_than_its_capacity() {
    let mut gate = ConcurrencyGate::new(2);
    let mut peak = 0;
    let mut held = 0;
    // Admission pattern of five operations through a bound of two.
    for _ in 0..5 {
        if gate.try_acquire() {
            held += 1;
        }
        if held > peak {
            peak = held;
        }
        assert!(gate.in_flight() <= gate.capacity());
        if held == 2 {
            gate.release();
            held -= 1;
        }
    }
    assert_eq!(peak, 2);
    let mut tiny = ConcurrencyGate::new(1);
    assert!(tiny.try_acquire());
    assert!(!tiny.try_acquire());
    tiny.release();
    assert!(tiny.try_acquire());
}
