//! The metadata (HEAD) lookup and the ranged download: reading an object's
//! length and type from its head response, splitting that length into fixed
//! ranges, and preparing each range's fetch.

use vstd::prelude::*;
use vstd::string::StringExecFns;
use crate::auth::{build_auth_header, spec_auth_value, spec_canonical_of};
use crate::constant::MULTIPART_SIZE;
use crate::error::UFileError;
use crate::http::{
    base_headers, spec_base_headers, spec_headers, spec_status_is_success, status_is_success,
    HttpMethod, RequestBody, SignedRequest,
};
use crate::multipart::{protocol_error, spec_opt_header};
use crate::object::{spec_final_host, BaseResponse, HeadFileResponse, ObjectConfig};
use crate::ranges::{part_end, part_start, range_count, split_into_ranges, ByteRange};
use crate::text::{
    all_dec_digits, header_value, parse_u64_dec, spec_dec_value, spec_header_lookup,
};
use crate::url_ops::{spec_private_url_plain, GenPrivateUrlApi};
use crate::validator::{is_bucket_name_not_empty, is_key_name_not_empty};

verus! {

/// The head call's descriptor: ask for an object's metadata, which callers
/// need — in particular the byte length — before a ranged download can begin.
pub struct HeadFileApi {
    /// Bucket name
    pub bucket_name: String,
    /// Key name of the file which means file name in cloud.
    pub key_name: String,
    /// `STS` temporary security token.
    pub security_token: Option<String>,
}

/// The headers of the head call, in the order they are set.
pub open spec fn spec_head_headers(
    api: HeadFileApi,
    cfg: ObjectConfig,
    date: Seq<char>,
) -> Seq<(Seq<char>, Seq<char>)> {
    spec_base_headers(
        "application/json"@,
        date,
        spec_auth_value(
            cfg.public_key@,
            cfg.private_key@,
            spec_canonical_of(
                HttpMethod::Head,
                Seq::<char>::empty(),
                "application/json"@,
                date,
                None,
                None,
                api.bucket_name@,
                api.key_name@,
            ),
        ),
    ) + spec_opt_header("SecurityToken"@, api.security_token)
}

/// Whether a header list carries a parsable `content-length`.
pub open spec fn spec_head_length_ok(headers: Seq<(String, String)>) -> bool {
    match spec_header_lookup(headers, "content-length"@) {
        Some(v) => v.len() > 0 && all_dec_digits(v) && spec_dec_value(v) <= u64::MAX,
        None => false,
    }
}

impl HeadFileApi {
    /// The head descriptor. Succeeds exactly when bucket and key are
    /// non-empty.
    pub fn new(bucket_name: String, key_name: String) -> (r: Result<Self, &'static str>)
        ensures
            r is Ok <==> bucket_name@.len() > 0 && key_name@.len() > 0,
            r matches Ok(api) ==> {
                &&& api.bucket_name@ == bucket_name@
                &&& api.key_name@ == key_name@
                &&& api.security_token is None
            },
    {
        let bucket_name = match is_bucket_name_not_empty(bucket_name) {
            Ok(b) => b,
            Err(m) => {
                return Err(m);
            },
        };
        let key_name = match is_key_name_not_empty(key_name) {
            Ok(k) => k,
            Err(m) => {
                return Err(m);
            },
        };
        Ok(HeadFileApi { bucket_name, key_name, security_token: None })
    }

    /// Prepare the signed head request: a HEAD of the object's URL.
    pub fn build_request(&self, object_config: &ObjectConfig, date: &str) -> (r: SignedRequest)
        ensures
            r.method == HttpMethod::Head,
            r.url@ == spec_final_host(*object_config, self.bucket_name@, self.key_name@),
            spec_headers(r.headers@) == spec_head_headers(*self, *object_config, date@),
            r.body is Empty,
    {
        let authorization = build_auth_header(
            HttpMethod::Head,
            self.bucket_name.as_str(),
            self.key_name.as_str(),
            "application/json",
            None,
            date,
            object_config,
        );
        let mut headers = base_headers("application/json", date, authorization);
        crate::multipart::push_opt_header(&mut headers, "SecurityToken", &self.security_token);
        let url = object_config.generate_final_host(
            self.bucket_name.as_str(),
            self.key_name.as_str(),
        );
        proof {
            assert(spec_headers(headers@) =~= spec_head_headers(*self, *object_config, date@));
        }
        SignedRequest { method: HttpMethod::Head, url, headers, body: RequestBody::Empty }
    }

    /// Read the head response from its headers (names already lower-cased by
    /// the caller): the content type and a parsable content length are
    /// required, the ETag and last-modified time are kept when present.
    pub fn accept_response(
        &self,
        status: u16,
        response_headers: Vec<(String, String)>,
        envelope: Option<BaseResponse>,
    ) -> (r: Result<HeadFileResponse, UFileError>)
        ensures
            r is Ok <==> spec_status_is_success(status) && spec_header_lookup(
                response_headers@,
                "content-type"@,
            ) is Some && spec_head_length_ok(response_headers@),
            r matches Ok(head) ==> {
                &&& head.content_type@ == spec_header_lookup(response_headers@, "content-type"@)->0
                &&& head.content_length == spec_dec_value(
                    spec_header_lookup(response_headers@, "content-length"@)->0,
                )
                &&& (head.etag is Some <==> spec_header_lookup(
                    response_headers@,
                    "etag"@,
                ) is Some)
                &&& head.etag matches Some(e) ==> e@ == spec_header_lookup(
                    response_headers@,
                    "etag"@,
                )->0
                &&& (head.last_modified is Some <==> spec_header_lookup(
                    response_headers@,
                    "last-modified"@,
                ) is Some)
                &&& head.last_modified matches Some(m) ==> m@ == spec_header_lookup(
                    response_headers@,
                    "last-modified"@,
                )->0
                &&& head.headers matches Some(h) && h@ == response_headers@
            },
            !spec_status_is_success(status) ==> (envelope matches Some(b) ==> (r matches Err(
                UFileError::ProtocolError { ret_code, message },
            ) && ret_code == b.ret_code && message@ == crate::object::spec_opt_str(b.message))),
            !spec_status_is_success(status) && envelope is None ==> r == Err::<
                HeadFileResponse,
                UFileError,
            >(UFileError::ApiError),
            spec_status_is_success(status) && !(spec_header_lookup(
                response_headers@,
                "content-type"@,
            ) is Some && spec_head_length_ok(response_headers@)) ==> r == Err::<
                HeadFileResponse,
                UFileError,
            >(UFileError::DeserializeError),
    {
        if !status_is_success(status) {
            return Err(protocol_error(envelope));
        }
        let content_type = match header_value(&response_headers, "content-type") {
            Some(v) => v,
            None => {
                return Err(UFileError::DeserializeError);
            },
        };
        let length_text = match header_value(&response_headers, "content-length") {
            Some(v) => v,
            None => {
                return Err(UFileError::DeserializeError);
            },
        };
        let content_length = match parse_u64_dec(length_text.as_str()) {
            Some(v) => v,
            None => {
                return Err(UFileError::DeserializeError);
            },
        };
        let etag = header_value(&response_headers, "etag");
        let last_modified = header_value(&response_headers, "last-modified");
        Ok(
            HeadFileResponse {
                headers: Some(response_headers),
                etag,
                content_type,
                content_length,
                last_modified,
            },
        )
    }
}

/// Request for downloading one object by ranges.
pub struct DownloadFileRequest {
    /// Required: Bucket name
    pub bucket_name: String,
    /// Required: Key name or object name
    pub key_name: String,
    /// Optional: how many ranges may be in flight at once.
    pub concurrency: Option<u32>,
    /// Required: File profile response from head file api.
    pub head: HeadFileResponse,
    /// Required: The expires time of the private url, in seconds.
    pub expires: u64,
    /// Optional: The dest path to save the file.
    pub dest: Option<String>,
    /// Optional: Whether to overwrite the dest file if it already exists.
    pub overwrite: bool,
    /// Optional: The iop cmd to download the file which are images.
    pub iop_cmd: Option<String>,
    /// Optional: `STS` temporary security token.
    pub security_token: Option<String>,
}

/// The ranged download's planner: splits the known total length into fixed
/// ranges and prepares each range's fetch. The caller runs the fetches, at
/// most the configured number in flight at once, and writes each body at its
/// range's start offset.
pub struct DownloadFileApi {
    /// Which bucket the file is in, must not be empty.
    pub bucket_name: String,
    /// The name of the file to download, must not be empty.
    pub key_name: String,
    /// How many ranges may be in flight at once; when absent the caller's
    /// CPU parallelism, doubled, is used.
    pub concurrency: Option<u32>,
    /// File profile, which is returned by head file api.
    pub head: HeadFileResponse,
    /// The expires time of the private url, in seconds.
    pub expires: u64,
    /// The path to save the file.
    pub dest: Option<String>,
    /// If the file already exists, will overwrite it or not.
    pub overwrite: bool,
    /// The iop cmd to download the file which are images.
    pub iop_cmd: Option<String>,
    /// `STS` temporary security token used to authenticate the request.
    pub security_token: Option<String>,
}

/// The pre-signed URL descriptor that one download fetches its ranges from.
pub open spec fn spec_download_url_api(api: DownloadFileApi) -> GenPrivateUrlApi {
    GenPrivateUrlApi {
        bucket_name: api.bucket_name,
        key_name: api.key_name,
        expires: api.expires,
        iop_cmd: api.iop_cmd,
        attachment_filename: None,
        security_token: None,
    }
}

impl DownloadFileApi {
    /// The download descriptor over a head response. Succeeds exactly when
    /// bucket and key are non-empty. The private URL's validity defaults to
    /// one day; existing files are overwritten unless configured otherwise.
    pub fn new(bucket_name: String, key_name: String, head: HeadFileResponse) -> (r: Result<
        Self,
        &'static str,
    >)
        ensures
            r is Ok <==> bucket_name@.len() > 0 && key_name@.len() > 0,
            r matches Ok(api) ==> {
                &&& api.bucket_name@ == bucket_name@
                &&& api.key_name@ == key_name@
                &&& api.concurrency is None
                &&& api.head == head
                &&& api.expires == 86400
                &&& api.dest is None
                &&& api.overwrite == true
                &&& api.iop_cmd is None
                &&& api.security_token is None
            },
    {
        let bucket_name = match is_bucket_name_not_empty(bucket_name) {
            Ok(b) => b,
            Err(m) => {
                return Err(m);
            },
        };
        let key_name = match is_key_name_not_empty(key_name) {
            Ok(k) => k,
            Err(m) => {
                return Err(m);
            },
        };
        Ok(
            DownloadFileApi {
                bucket_name,
                key_name,
                concurrency: None,
                head,
                expires: 86400,
                dest: None,
                overwrite: true,
                iop_cmd: None,
                security_token: None,
            },
        )
    }

    /// Split the object's known length into the ranges to fetch: the same
    /// split rule as the multipart upload, with the default 4MB part size.
    /// An empty object has nothing to fetch.
    pub fn plan_ranges(&self) -> (r: Vec<ByteRange>)
        ensures
            self.head.content_length == 0 ==> r@.len() == 0,
            self.head.content_length > 0 ==> {
                &&& r@.len() == range_count(
                    self.head.content_length as int,
                    MULTIPART_SIZE as int,
                )
                &&& forall|i: int|
                    0 <= i < r@.len() ==> #[trigger] r@[i].start == part_start(
                        i,
                        MULTIPART_SIZE as int,
                    )
                &&& forall|i: int|
                    0 <= i < r@.len() ==> #[trigger] r@[i].end == part_end(
                        i,
                        MULTIPART_SIZE as int,
                        self.head.content_length as int,
                    )
                &&& r@[0].start == 0
                &&& r@[r@.len() - 1].end == self.head.content_length
                &&& forall|i: int| 0 <= i < r@.len() ==> #[trigger] r@[i].start < r@[i].end
                &&& forall|i: int| 0 < i < r@.len() ==> #[trigger] r@[i].start == r@[i - 1].end
            },
    {
        if self.head.content_length == 0 {
            Vec::new()
        } else {
            split_into_ranges(self.head.content_length, MULTIPART_SIZE as u64)
        }
    }

    /// How many ranges may be in flight at once: the configured bound, or
    /// twice the caller's CPU parallelism when none was configured.
    pub fn effective_concurrency(&self, cpu_parallelism: usize) -> (r: usize)
        requires
            cpu_parallelism <= usize::MAX / 2,
        ensures
            r == match self.concurrency {
                Some(c) => c as int,
                None => 2 * cpu_parallelism,
            },
    {
        match self.concurrency {
            Some(c) => c as usize,
            None => 2 * cpu_parallelism,
        }
    }

    /// The pre-signed URL every range is fetched from, valid until
    /// `expires` seconds after `now_epoch_secs`. Succeeds exactly when
    /// bucket and key are non-empty and the absolute expiry is non-zero.
    pub fn download_url(&self, object_config: &ObjectConfig, now_epoch_secs: u64) -> (r: Result<
        String,
        UFileError,
    >)
        requires
            self.expires + now_epoch_secs <= u64::MAX,
        ensures
            r is Ok <==> self.bucket_name@.len() > 0 && self.key_name@.len() > 0 && self.expires
                + now_epoch_secs > 0,
            r matches Ok(url) ==> url@ == spec_private_url_plain(
                *object_config,
                spec_download_url_api(*self),
                (self.expires + now_epoch_secs) as u64,
            ),
    {
        let url_api = GenPrivateUrlApi {
            bucket_name: self.bucket_name.clone(),
            key_name: self.key_name.clone(),
            expires: self.expires,
            iop_cmd: match &self.iop_cmd {
                Some(cmd) => Some(cmd.clone()),
                None => None,
            },
            attachment_filename: None,
            security_token: None,
        };
        proof {
            assert(url_api == spec_download_url_api(*self));
        }
        url_api.execute(object_config, now_epoch_secs)
    }
}

} // verus!
