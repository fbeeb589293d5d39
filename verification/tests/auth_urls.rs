//! Signing, canonical strings, and URL construction, held against known
//! vectors and against the outside crates directly.

use base64::Engine;
use hmac::{Hmac, KeyInit, Mac};
use ufile_core::{
    canonical_string, AuthorizationService, GenPrivateUrlApi, GenPrivateUrlOperation,
    GenPrivateUrlRequest, GenPublicUrlOperation, GenPublicUrlRequest, HmacSha1Signer, HttpMethod,
    ObjectConfig, ObjectOptAuthParam, Signer, UFileError, UfileProtocol,
};

fn test_config() -> ObjectConfig {
    ObjectConfig {
        endpoint: "https://api.ucloud.cn".to_string(),
        private_key: "test-private-key".to_string(),
        public_key: "pubkey".to_string(),
        region: "cn-bj".to_string(),
        proxy_suffix: Some("ufileos.com".to_string()),
        custom_host: None,
        protocol: UfileProtocol::Https,
    }
}

#[test]
fn hmac_sha1_signature_matches_known_vector() {
    let signer = HmacSha1Signer;
    let signature = signer
        .signature("key", "The quick brown fox jumps over the lazy dog")
        .unwrap();
    assert_eq!(signature, "3nybhbi3iqa8ino29wqQcBydtNk=");
}

#[test]
fn signing_the_same_inputs_twice_gives_the_same_signature() {
    let signer = HmacSha1Signer;
    let first = signer.signature("k1", "some data").unwrap();
    let second = signer.signature("k1", "some data").unwrap();
    assert_eq!(first, second);
}

#[test]
fn canonical_string_has_the_documented_shape() {
    let mut param = ObjectOptAuthParam::new(
        HttpMethod::Put,
        "bucket".to_string(),
        "key.txt".to_string(),
    );
    param.content_type = Some("text/plain".to_string());
    param.content_md5 = Some("d41d8cd98f00b204e9800998ecf8427e".to_string());
    param.date = Some("20240101000000".to_string());
    let canonical = canonical_string(&param);
    assert_eq!(
        canonical,
        "PUT\nd41d8cd98f00b204e9800998ecf8427e\ntext/plain\n20240101000000\n/bucket/key.txt"
    );
}

#[test]
fn canonical_string_omits_absent_copy_source_lines_entirely() {
    let param = ObjectOptAuthParam::new(
        HttpMethod::Get,
        "b".to_string(),
        "k".to_string(),
    );
    assert_eq!(canonical_string(&param), "GET\n\n\n\n/b/k");
    let mut with_copy = ObjectOptAuthParam::new(
        HttpMethod::Get,
        "b".to_string(),
        "k".to_string(),
    );
    with_copy.x_ufile_copy_source = Some("ufile://other/source".to_string());
    assert_eq!(
        canonical_string(&with_copy),
        "GET\n\n\n\nx-ufile-copy-source:ufile://other/source\n/b/k"
    );
}

#[test]
fn authorization_header_is_ucloud_key_colon_signature() {
    let config = test_config();
    let mut param = ObjectOptAuthParam::new(
        HttpMethod::Post,
        "bucket".to_string(),
        "key".to_string(),
    );
    param.content_type = Some("text/plain".to_string());
    param.date = Some("20240101000000".to_string());
    let header = AuthorizationService
        .authorization(&param, &config)
        .unwrap();
    let expected_signature = HmacSha1Signer
        .signature(&config.private_key, &canonical_string(&param))
        .unwrap();
    assert_eq!(header, format!("UCloud pubkey:{}", expected_signature));
}

#[test]
fn changing_one_signed_field_changes_the_signature() {
    let config = test_config();
    let mut param = ObjectOptAuthParam::new(
        HttpMethod::Get,
        "bucket".to_string(),
        "key".to_string(),
    );
    param.date = Some("20240101000000".to_string());
    let baseline = AuthorizationService.authorization(&param, &config).unwrap();

    let mut changed_method = param.clone();
    changed_method.method = HttpMethod::Put;
    let mut changed_bucket = param.clone();
    changed_bucket.bucket = "bucket2".to_string();
    let mut changed_key = param.clone();
    changed_key.key_name = "key2".to_string();
    let mut changed_type = param.clone();
    changed_type.content_type = Some("text/plain".to_string());
    let mut changed_md5 = param.clone();
    changed_md5.content_md5 = Some("abc".to_string());
    let mut changed_date = param.clone();
    changed_date.date = Some("20240101000001".to_string());

    for other in [
        changed_method,
        changed_bucket,
        changed_key,
        changed_type,
        changed_md5,
        changed_date,
    ] {
        let signed = AuthorizationService.authorization(&other, &config).unwrap();
        assert_ne!(signed, baseline);
    }
}

#[test]
fn final_host_percent_encodes_each_piece() {
    let config = test_config();
    let url = config.generate_final_host("my bucket", "a b.txt");
    assert_eq!(url, "https://my%20bucket.cn-bj.ufileos.com/a%20b.txt");
}

#[test]
fn final_host_uses_custom_host_when_configured() {
    let mut config = test_config();
    config.custom_host = Some("https://cdn.example.com".to_string());
    let url = config.generate_final_host("ignored", "dir file.bin");
    assert_eq!(url, "https://cdn.example.com/dir%20file.bin");
}

#[test]
fn private_url_signature_rejects_bad_inputs() {
    let config = test_config();
    let empty_bucket = config.authorization_private_url(HttpMethod::Get, "", "k", 60);
    assert_eq!(
        empty_bucket,
        Err(UFileError::ValidationError("bucket must not be empty.".to_string()))
    );
    let empty_key = config.authorization_private_url(HttpMethod::Get, "b", "", 60);
    assert_eq!(
        empty_key,
        Err(UFileError::ValidationError("key_name must not be empty.".to_string()))
    );
    let zero_expiry = config.authorization_private_url(HttpMethod::Get, "b", "k", 0);
    assert_eq!(
        zero_expiry,
        Err(UFileError::ValidationError("expires must not be zero.".to_string()))
    );
}

#[test]
fn private_url_signature_signs_the_simplified_canonical_string() {
    let config = test_config();
    let signature = config
        .authorization_private_url(HttpMethod::Get, "bucket", "key", 1700000000)
        .unwrap();
    let expected = HmacSha1Signer
        .signature(
            &config.private_key,
            "GET\n\n\n1700000000\n/bucket\n/key",
        )
        .unwrap();
    assert_eq!(signature, expected);
}

#[test]
fn public_url_appends_iop_command() {
    let config = test_config();
    let operation = GenPublicUrlOperation::new(config.clone());
    let url = operation
        .execute(GenPublicUrlRequest {
            bucket_name: "bucket".to_string(),
            key_name: "pic.png".to_string(),
            iop_cmd: Some("iopcmd=thumbnail".to_string()),
        })
        .unwrap();
    assert_eq!(
        url,
        "https://bucket.cn-bj.ufileos.com/pic.png?iopcmd=iopcmd=thumbnail"
    );
}

#[test]
fn private_url_operation_builds_the_full_signed_url() {
    let config = test_config();
    let operation = GenPrivateUrlOperation::new(config.clone());
    let now = 1_700_000_000u64;
    let url = operation
        .execute(
            GenPrivateUrlRequest {
                bucket_name: "bucket".to_string(),
                key_name: "file name.bin".to_string(),
                expires: 3600,
                iop_cmd: None,
                attachment_filename: Some("nice name.bin".to_string()),
                security_token: None,
            },
            now,
        )
        .unwrap();
    let expire_time = now + 3600;
    let signature = config
        .authorization_private_url(HttpMethod::Get, "bucket", "file name.bin", expire_time)
        .unwrap();
    let expected = format!(
        "{}?UCloudPublicKey={}&Signature={}&Expires={}&ufileattname={}",
        config.generate_final_host("bucket", "file name.bin"),
        urlencoding::encode("pubkey"),
        urlencoding::encode(&signature),
        expire_time,
        urlencoding::encode("nice name.bin"),
    );
    assert_eq!(url, expected);
}

#[test]
fn private_url_api_builds_the_plain_signed_url() {
    let config = test_config();
    let api = GenPrivateUrlApi {
        bucket_name: "bucket".to_string(),
        key_name: "key".to_string(),
        expires: 60,
        iop_cmd: Some("thumb".to_string()),
        attachment_filename: None,
        security_token: Some("token".to_string()),
    };
    let now = 1_700_000_000u64;
    let url = api.execute(&config, now).unwrap();
    let signature = config
        .authorization_private_url(HttpMethod::Get, "bucket", "key", now + 60)
        .unwrap();
    let expected = format!(
        "{}?UCloudPublicKey=pubkey&Signature={}&Expires={}&SecurityToken=token&iopcmd=thumb",
        config.generate_final_host("bucket", "key"),
        signature,
        now + 60,
    );
    assert_eq!(url, expected);
}

#[test]
fn base64_of_hmac_matches_outside_crates_composed_directly() {
    let signer = HmacSha1Signer;
    let ours = signer.signature("another key", "payload").unwrap();
    let theirs = {
        let mut mac =
            <Hmac<sha1::Sha1> as KeyInit>::new_from_slice(b"another key").unwrap();
        mac.update(b"payload");
        base64::engine::general_purpose::STANDARD.encode(mac.finalize().into_bytes())
    };
    assert_eq!(ours, theirs);
}
