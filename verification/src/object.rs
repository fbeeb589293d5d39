//! The per-object configuration (endpoint, keys, region) with its URL and
//! pre-signing logic, and the plain data types that the protocol's responses
//! are read into.

use vstd::prelude::*;
use vstd::string::{StrSliceExecFns, StringExecFns};
use crate::codec::{spec_url_encode, url_encode};
use crate::error::UFileError;
use crate::http::HttpMethod;
use crate::text::{spec_dec, u64_to_dec};

verus! {

/// The text of an optional string field: the string when present, empty
/// when not.
pub open spec fn spec_opt_str(o: Option<String>) -> Seq<char> {
    match o {
        Some(s) => s@,
        None => Seq::<char>::empty(),
    }
}

/// The scheme used to reach the service.
#[derive(Debug, Clone, Copy, PartialEq, Eq, Structural)]
pub enum UfileProtocol {
    Http,
    Https,
}

impl UfileProtocol {
    /// The scheme's lower-case wire name.
    pub open spec fn spec_str(self) -> Seq<char> {
        match self {
            UfileProtocol::Http => "http"@,
            UfileProtocol::Https => "https"@,
        }
    }

    /// The scheme's lower-case wire name.
    pub fn as_str(self) -> (r: &'static str)
        ensures
            r@ == self.spec_str(),
    {
        match self {
            UfileProtocol::Http => "http",
            UfileProtocol::Https => "https",
        }
    }
}

impl Default for UfileProtocol {
    /// The service is reached over HTTPS unless configured otherwise.
    fn default() -> (r: Self)
        ensures
            r == UfileProtocol::Https,
    {
        UfileProtocol::Https
    }
}

/// Configuration for object operations: the endpoint, the key pair, and the
/// pieces that per-object URLs are built from (region, proxy suffix, or a
/// custom host that replaces them).
#[derive(Debug, Clone, PartialEq, Eq)]
pub struct ObjectConfig {
    /// Default management endpoint.
    pub endpoint: String,
    /// Private key; keys the request signatures.
    pub private_key: String,
    /// Public key; named in the `Authorization` header.
    pub public_key: String,
    /// Storage region (eg: 'cn-bj').
    pub region: String,
    /// Proxy suffix (eg: 'ufileos.com').
    pub proxy_suffix: Option<String>,
    /// Custom host: when set and non-empty it is used as-is, and the
    /// region/proxy-suffix pieces are ignored.
    pub custom_host: Option<String>,
    /// Scheme for built URLs.
    pub protocol: UfileProtocol,
}

impl Default for ObjectConfig {
    /// An empty key pair against the public endpoint, region `cn-sh2`,
    /// HTTPS, no proxy suffix and no custom host.
    fn default() -> (r: Self)
        ensures
            r.endpoint@ == "https://api.ucloud.cn"@,
            r.private_key@ == Seq::<char>::empty(),
            r.public_key@ == Seq::<char>::empty(),
            r.region@ == "cn-sh2"@,
            r.proxy_suffix is None,
            r.custom_host is None,
            r.protocol == UfileProtocol::Https,
    {
        ObjectConfig {
            endpoint: "https://api.ucloud.cn".to_owned(),
            private_key: String::new(),
            public_key: String::new(),
            region: "cn-sh2".to_owned(),
            proxy_suffix: None,
            custom_host: None,
            protocol: UfileProtocol::Https,
        }
    }
}

/// The host-plus-path URL for one object: the custom host when configured,
/// otherwise `scheme://bucket.region.suffix/key`, each URL piece
/// percent-encoded on its own.
pub open spec fn spec_final_host(cfg: ObjectConfig, bucket: Seq<char>, key: Seq<char>) -> Seq<
    char,
> {
    match cfg.custom_host {
        Some(host) => host@ + "/"@ + spec_url_encode(key),
        None => cfg.protocol.spec_str() + "://"@ + spec_url_encode(bucket) + "."@
            + spec_url_encode(cfg.region@) + "."@ + spec_url_encode(spec_opt_str(cfg.proxy_suffix))
            + "/"@ + spec_url_encode(key),
    }
}

/// The simplified canonical string that a time-limited pre-signed URL signs:
/// the method, two empty lines for content-MD5 and content-type, the expiry
/// time, then `/bucket` and `/key` on separate lines.
pub open spec fn spec_private_url_sign_data(
    method: HttpMethod,
    bucket: Seq<char>,
    key: Seq<char>,
    expires: u64,
) -> Seq<char> {
    method.spec_str() + "\n"@ + "\n"@ + "\n"@ + spec_dec(expires as int) + "\n"@ + "/"@ + bucket
        + "\n"@ + "/"@ + key
}

impl ObjectConfig {
    /// A method to generate the final request full hosts.
    pub fn generate_final_host(&self, bucket_name: &str, key_name: &str) -> (r: String)
        ensures
            r@ == spec_final_host(*self, bucket_name@, key_name@),
    {
        let encoded_key = url_encode(key_name);
        match &self.custom_host {
            Some(custom_host) => {
                let mut url = custom_host.clone();
                url.append("/");
                url.append(encoded_key.as_str());
                proof {
                    assert(url@ =~= spec_final_host(*self, bucket_name@, key_name@));
                }
                url
            },
            None => {
                let encoded_bucket = url_encode(bucket_name);
                let encoded_region = url_encode(self.region.as_str());
                let encoded_suffix = match &self.proxy_suffix {
                    Some(suffix) => url_encode(suffix.as_str()),
                    None => url_encode(""),
                };
                proof {
                    reveal_strlit("");
                    assert(""@ =~= Seq::<char>::empty());
                }
                let mut url = self.protocol.as_str().to_owned();
                url.append("://");
                url.append(encoded_bucket.as_str());
                url.append(".");
                url.append(encoded_region.as_str());
                url.append(".");
                url.append(encoded_suffix.as_str());
                url.append("/");
                url.append(encoded_key.as_str());
                proof {
                    assert(url@ =~= spec_final_host(*self, bucket_name@, key_name@));
                }
                url
            },
        }
    }

    /// This method is used to generate the signature that a private URL
    /// carries, over the method, the expiry time, the bucket and the key.
    /// Succeeds exactly when bucket and key are non-empty and the expiry
    /// is non-zero.
    pub fn authorization_private_url(
        &self,
        method: HttpMethod,
        bucket_name: &str,
        key_name: &str,
        expires: u64,
    ) -> (r: Result<String, UFileError>)
        ensures
            r is Ok <==> bucket_name@.len() > 0 && key_name@.len() > 0 && expires > 0,
            r is Ok ==> r->Ok_0@ == crate::auth::spec_signature(
                self.private_key@,
                spec_private_url_sign_data(method, bucket_name@, key_name@, expires),
            ),
            bucket_name@.len() == 0 ==> (r matches Err(UFileError::ValidationError(m)) && m@
                == "bucket must not be empty."@),
            bucket_name@.len() > 0 && key_name@.len() == 0 ==> (r matches Err(
                UFileError::ValidationError(m),
            ) && m@ == "key_name must not be empty."@),
            bucket_name@.len() > 0 && key_name@.len() > 0 && expires == 0 ==> (r matches Err(
                UFileError::ValidationError(m),
            ) && m@ == "expires must not be zero."@),
    {
        if bucket_name.unicode_len() == 0 {
            return Err(UFileError::ValidationError("bucket must not be empty.".to_owned()));
        }
        if key_name.unicode_len() == 0 {
            return Err(UFileError::ValidationError("key_name must not be empty.".to_owned()));
        }
        if expires == 0 {
            return Err(UFileError::ValidationError("expires must not be zero.".to_owned()));
        }
        let mut sign_data = method.as_str().to_owned();
        sign_data.append("\n");
        sign_data.append("\n");
        sign_data.append("\n");
        sign_data.append(u64_to_dec(expires).as_str());
        sign_data.append("\n");
        sign_data.append("/");
        sign_data.append(bucket_name);
        sign_data.append("\n");
        sign_data.append("/");
        sign_data.append(key_name);
        proof {
            assert(sign_data@ =~= spec_private_url_sign_data(
                method,
                bucket_name@,
                key_name@,
                expires,
            ));
        }
        Ok(crate::auth::compute_signature(self.private_key.as_str(), sign_data.as_str()))
    }
}

/// The error envelope that a non-2xx response body carries: a return code
/// and a message, plus the response headers.
#[derive(Debug, Clone, PartialEq, Eq)]
pub struct BaseResponse {
    pub headers: Vec<(String, String)>,
    pub ret_code: i32,
    pub message: Option<String>,
}

/// The outcome of a single-shot object PUT: the envelope plus the object's
/// ETag.
#[derive(Debug, Clone, PartialEq, Eq)]
pub struct PutObjectResultResponse {
    pub resp: BaseResponse,
    pub etag: String,
}

impl PutObjectResultResponse {
    /// Wrap an envelope with an empty ETag, to be filled from the response
    /// headers.
    pub fn from_base(resp: BaseResponse) -> (r: Self)
        ensures
            r.resp == resp,
            r.etag@ == Seq::<char>::empty(),
    {
        PutObjectResultResponse { resp, etag: String::new() }
    }
}

/// This struct describe the init multipart upload task.
#[derive(Debug, PartialEq, Eq)]
pub struct InitMultipartState {
    /// The session token the service returned.
    pub upload_id: String,
    /// The negotiated part size in bytes.
    pub blk_size: u64,
    /// Target bucket.
    pub bucket: String,
    /// Cloud object name.
    pub key_name: String,
    /// Mime type; back-filled from the request after a successful init.
    pub mime_type: Option<String>,
}

impl Clone for InitMultipartState {
    /// A session copy is the same session, field for field.
    fn clone(&self) -> (res: Self)
        ensures
            res == *self,
    {
        InitMultipartState {
            upload_id: self.upload_id.clone(),
            blk_size: self.blk_size,
            bucket: self.bucket.clone(),
            key_name: self.key_name.clone(),
            mime_type: match &self.mime_type {
                Some(m) => Some(m.clone()),
                None => None,
            },
        }
    }
}

/// One part's result: its number, its ETag (stripped of quoting), and the
/// raw response headers.
#[derive(Debug, Clone, PartialEq, Eq)]
pub struct MultipartUploadState {
    pub headers: Vec<(String, String)>,
    pub part_number: usize,
    pub etag: String,
}

/// This struct describe the response of finish multipart upload task.
#[derive(Debug, Clone, PartialEq, Eq)]
pub struct FinishUploadResponse {
    pub headers: Vec<(String, String)>,
    pub bucket: String,
    pub key: String,
    pub file_size: isize,
    pub etag: String,
}

/// This struct describe the response headers of head file api request.
#[derive(Debug, Clone, PartialEq, Eq)]
pub struct HeadFileResponse {
    /// All response headers, names lower-cased.
    pub headers: Option<Vec<(String, String)>>,
    /// The object's ETag, when the service sent one.
    pub etag: Option<String>,
    /// Content-Type of the file.
    pub content_type: String,
    /// Content-length of the file.
    pub content_length: u64,
    /// Last modified time.
    pub last_modified: Option<String>,
}

} // verus!
