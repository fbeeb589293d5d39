//! The small utilities: numerals, quote stripping, header lookup, digests,
//! the ETag, validators, the head response, the pool, and the errors.

use base64::Engine;
use ufile_core::{
    is_bucket_name_not_empty, is_buffer_not_empty, is_key_name_not_empty, is_mime_type_valid,
    is_not_empty, parse_u64_dec, protocol_error, remove_quotes, sha1, u32_le_bytes, u64_to_dec,
    BaseResponse, DownloadFileApi, ETag, HeadFileApi, HeadFileResponse, HttpMethod, ObjectConfig,
    ObjectPool, UFileError, UfileProtocol,
};

#[test]
fn decimal_rendering_and_parsing() {
    assert_eq!(u64_to_dec(0), "0");
    assert_eq!(u64_to_dec(7), "7");
    assert_eq!(u64_to_dec(1234567890123), "1234567890123");
    assert_eq!(u64_to_dec(u64::MAX), "18446744073709551615");
    assert_eq!(parse_u64_dec("0"), Some(0));
    assert_eq!(parse_u64_dec("0042"), Some(42));
    assert_eq!(parse_u64_dec("18446744073709551615"), Some(u64::MAX));
    assert_eq!(parse_u64_dec("18446744073709551616"), None);
    assert_eq!(parse_u64_dec(""), None);
    assert_eq!(parse_u64_dec("12a"), None);
    assert_eq!(parse_u64_dec("-1"), None);
}

#[test]
fn remove_quotes_strips_both_quote_kinds_from_both_ends() {
    assert_eq!(remove_quotes("\"abc\""), "abc");
    assert_eq!(remove_quotes("'abc'"), "abc");
    assert_eq!(remove_quotes("\"'abc'\""), "abc");
    assert_eq!(remove_quotes("abc"), "abc");
    assert_eq!(remove_quotes("a\"b"), "a\"b");
    assert_eq!(remove_quotes("\"\""), "");
    assert_eq!(remove_quotes(""), "");
}

#[test]
fn sha1_matches_the_known_vector() {
    let digest = sha1(b"abc");
    let hex: String = digest.iter().map(|b| format!("{:02x}", b)).collect();
    assert_eq!(hex, "a9993e364706816aba3e25717850c26c9cd0d89d");
}

#[test]
fn u32_le_bytes_is_little_endian() {
    assert_eq!(u32_le_bytes(192), vec![192, 0, 0, 0]);
    assert_eq!(u32_le_bytes(0x01020304), vec![4, 3, 2, 1]);
}

#[test]
fn test_buff() {
    let block_size = 192;
    let head = u32_le_bytes(block_size);
    let mut buff: Vec<u8> = Vec::with_capacity(head.len() + 20);
    buff.extend_from_slice(head.as_slice());
    buff.resize(head.len() + 20, 0);
    println!("{:?}", buff);
}

#[test]
fn etag_of_one_block_hashes_the_block() {
    let block = b"some file content".to_vec();
    let etag = ETag::from_parts(&vec![block.clone()]);
    let mut buff = vec![1u8, 0, 0, 0];
    buff.extend_from_slice(&sha1(&block));
    let expected = base64::engine::general_purpose::URL_SAFE.encode(&buff);
    assert_eq!(etag.etag, expected);
    assert!(etag.part_etags.is_empty());
}

#[test]
fn etag_of_many_blocks_hashes_the_concatenated_block_hashes() {
    let blocks = vec![b"first block".to_vec(), b"second block".to_vec()];
    let etag = ETag::from_parts(&blocks);
    let hash_one = sha1(&blocks[0]);
    let hash_two = sha1(&blocks[1]);
    assert_eq!(etag.part_etags.len(), 2);
    assert_eq!(
        etag.part_etags[0],
        base64::engine::general_purpose::URL_SAFE.encode(&hash_one)
    );
    let mut concatenated = hash_one.clone();
    concatenated.extend_from_slice(&hash_two);
    let mut buff = vec![2u8, 0, 0, 0];
    buff.extend_from_slice(&sha1(&concatenated));
    let expected = base64::engine::general_purpose::URL_SAFE.encode(&buff);
    assert_eq!(etag.etag, expected);
}

#[test]
fn validators_accept_and_reject_as_documented() {
    assert_eq!(is_not_empty("x".to_string(), "boom"), Ok("x".to_string()));
    assert_eq!(is_not_empty("".to_string(), "boom"), Err("boom"));
    assert_eq!(
        is_key_name_not_empty("".to_string()),
        Err("key_name can not be empty")
    );
    assert_eq!(
        is_bucket_name_not_empty("".to_string()),
        Err("bucket name can not be empty")
    );
    assert_eq!(is_buffer_not_empty(vec![1]), Ok(vec![1]));
    assert_eq!(is_buffer_not_empty(Vec::new()), Err("buffer can not be empty"));
}

#[test]
fn mime_validation_canonicalizes_and_rejects() {
    assert_eq!(
        is_mime_type_valid("text/plain".to_string()),
        Ok("text/plain".to_string())
    );
    assert_eq!(
        is_mime_type_valid("".to_string()),
        Err("mime_type can not be empty".to_string())
    );
    assert_eq!(
        is_mime_type_valid("not a mime".to_string()),
        Err("mime type [not a mime] is invalid".to_string())
    );
}

#[test]
fn head_response_reads_type_length_and_etag() {
    let api = HeadFileApi::new("bucket".to_string(), "key".to_string()).unwrap();
    let headers = vec![
        ("content-type".to_string(), "text/plain".to_string()),
        ("content-length".to_string(), "10000000".to_string()),
        ("etag".to_string(), "\"abc\"".to_string()),
        ("last-modified".to_string(), "yesterday".to_string()),
    ];
    let head = api.accept_response(200, headers, None).unwrap();
    assert_eq!(head.content_type, "text/plain");
    assert_eq!(head.content_length, 10_000_000);
    assert_eq!(head.etag.as_deref(), Some("\"abc\""));
    assert_eq!(head.last_modified.as_deref(), Some("yesterday"));

    let api = HeadFileApi::new("bucket".to_string(), "key".to_string()).unwrap();
    let missing_length = vec![("content-type".to_string(), "text/plain".to_string())];
    assert_eq!(
        api.accept_response(200, missing_length, None),
        Err(UFileError::DeserializeError)
    );
}

#[test]
fn head_request_is_a_signed_head_call() {
    let config = ObjectConfig {
        endpoint: "https://api.ucloud.cn".to_string(),
        private_key: "test-private-key".to_string(),
        public_key: "pubkey".to_string(),
        region: "cn-bj".to_string(),
        proxy_suffix: Some("ufileos.com".to_string()),
        custom_host: None,
        protocol: UfileProtocol::Https,
    };
    let api = HeadFileApi::new("bucket".to_string(), "key".to_string()).unwrap();
    let request = api.build_request(&config, "20240101000000");
    assert_eq!(request.method, HttpMethod::Head);
    assert_eq!(request.url, "https://bucket.cn-bj.ufileos.com/key");
}

#[test]
fn download_plan_splits_by_the_default_part_size() {
    let head = HeadFileResponse {
        headers: None,
        etag: None,
        content_type: "application/octet-stream".to_string(),
        content_length: 10_000_000,
        last_modified: None,
    };
    let api = DownloadFileApi::new("bucket".to_string(), "key".to_string(), head).unwrap();
    let ranges = api.plan_ranges();
    assert_eq!(ranges.len(), 3);
    assert_eq!(ranges[2].start, 8_388_608);
    assert_eq!(ranges[2].end, 10_000_000);
    assert_eq!(api.effective_concurrency(4), 8);
}

#[test]
fn protocol_errors_carry_the_service_envelope() {
    let envelope = BaseResponse {
        headers: Vec::new(),
        ret_code: -148654,
        message: Some("file not exist".to_string()),
    };
    let error = protocol_error(Some(envelope));
    assert_eq!(
        error,
        UFileError::ProtocolError {
            ret_code: -148654,
            message: "file not exist".to_string()
        }
    );
    assert_eq!(error.message(), "Service error: file not exist");
    assert_eq!(protocol_error(None), UFileError::ApiError);
    assert_eq!(
        UFileError::NetworkError("timed out".to_string()).message(),
        "Network request error for: timed out"
    );
}

#[test]
fn pool_hands_out_front_and_keeps_up_to_its_bound() {
    let mut pool: ObjectPool<u32> = ObjectPool::new(2);
    assert!(pool.get().is_none());
    pool.put_back(1);
    pool.put_back(2);
    pool.put_back(3);
    let first = pool.get().unwrap();
    assert_eq!(first.into_inner(), 1);
    let second = pool.get().unwrap();
    assert_eq!(*second.object(), 2);
    assert!(pool.get().is_none());
}
