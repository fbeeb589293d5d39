//! The four signed calls of the multipart protocol — init, part upload,
//! finish, abort — each as a request descriptor whose prepared request and
//! whose reading of the response are verified.

use vstd::prelude::*;
use vstd::string::{StrSliceExecFns, StringExecFns};
use crate::auth::{build_auth_header, spec_auth_value, spec_canonical_of};
use crate::codec::{md5_hex, spec_md5_hex};
use crate::error::UFileError;
use crate::http::{
    base_headers, push_header, spec_base_headers, spec_headers, spec_status_is_success,
    status_is_success, HttpMethod, RequestBody, SignedRequest,
};
use crate::object::{
    spec_final_host, spec_opt_str, BaseResponse, FinishUploadResponse, InitMultipartState,
    MultipartUploadState, ObjectConfig,
};
use crate::text::{header_value, remove_quotes, spec_dec, spec_header_lookup, spec_remove_quotes, u64_to_dec};
use crate::validator::{is_bucket_name_not_empty, is_key_name_not_empty, is_mime_type_valid};

verus! {

broadcast use vstd::seq_lib::group_to_multiset_ensures;

/// What the finish step does with user metadata: `UNCHANGED` keeps the
/// metadata set at init time, `REPLACE` takes the metadata given at finish.
#[derive(Debug, Clone, Copy, PartialEq, Eq, Structural)]
pub enum MetadataDirective {
    Unchanged,
    Replace,
}

impl MetadataDirective {
    /// The directive's wire name.
    pub open spec fn spec_str(self) -> Seq<char> {
        match self {
            MetadataDirective::Unchanged => "UNCHANGED"@,
            MetadataDirective::Replace => "REPLACE"@,
        }
    }

    /// The directive's wire name.
    pub fn as_str(self) -> (r: &'static str)
        ensures
            r@ == self.spec_str(),
    {
        match self {
            MetadataDirective::Unchanged => "UNCHANGED",
            MetadataDirective::Replace => "REPLACE",
        }
    }
}

/// An optional header: present exactly when the field is set and non-empty.
pub open spec fn spec_opt_header(name: Seq<char>, v: Option<String>) -> Seq<
    (Seq<char>, Seq<char>),
> {
    match v {
        Some(s) => if s@.len() > 0 {
            seq![(name, s@)]
        } else {
            Seq::<(Seq<char>, Seq<char>)>::empty()
        },
        None => Seq::<(Seq<char>, Seq<char>)>::empty(),
    }
}

/// One `X-Ufile-Meta-` header per user metadata entry, in the order given.
pub open spec fn spec_meta_headers(metadata: Seq<(String, String)>) -> Seq<
    (Seq<char>, Seq<char>),
> {
    metadata.map_values(|p: (String, String)| ("X-Ufile-Meta-"@ + p.0@, p.1@))
}

/// Push the optional header for `v` when it is set and non-empty.
pub(crate) fn push_opt_header(headers: &mut Vec<(String, String)>, name: &str, v: &Option<String>)
    ensures
        spec_headers(final(headers)@) == spec_headers(old(headers)@) + spec_opt_header(name@, *v),
{
    if let Some(value) = v {
        if value.as_str().unicode_len() > 0 {
            push_header(headers, name, value.clone());
            return ;
        }
    }
    proof {
        assert(spec_headers(headers@) =~= spec_headers(headers@) + spec_opt_header(name@, *v));
    }
}

/// Push one `X-Ufile-Meta-` header per metadata entry.
fn push_meta_headers(headers: &mut Vec<(String, String)>, metadata: &Vec<(String, String)>)
    ensures
        spec_headers(final(headers)@) == spec_headers(old(headers)@) + spec_meta_headers(
            metadata@,
        ),
{
    let n = metadata.len();
    let mut i: usize = 0;
    proof {
        assert(spec_headers(headers@) =~= spec_headers(headers@) + spec_meta_headers(
            metadata@.subrange(0, 0),
        ));
    }
    while i < n
        invariant
            n == metadata@.len(),
            0 <= i <= n,
            spec_headers(headers@) == spec_headers(old(headers)@) + spec_meta_headers(
                metadata@.subrange(0, i as int),
            ),
        decreases n - i,
    {
        let entry = &metadata[i];
        let mut name = "X-Ufile-Meta-".to_owned();
        name.append(entry.0.as_str());
        let value = entry.1.clone();
        let ghost pair_view = (name@, value@);
        let ghost pre = headers@;
        headers.push((name, value));
        proof {
            assert(spec_headers(headers@) =~= spec_headers(pre).push(pair_view));
            assert(metadata@.subrange(0, i + 1).drop_last() =~= metadata@.subrange(0, i as int));
            assert(spec_meta_headers(metadata@.subrange(0, i + 1)) =~= spec_meta_headers(
                metadata@.subrange(0, i as int),
            ).push(("X-Ufile-Meta-"@ + metadata@[i as int].0@, metadata@[i as int].1@)));
            assert(pair_view == ("X-Ufile-Meta-"@ + metadata@[i as int].0@, metadata@[
                i as int
            ].1@));
            assert(spec_headers(headers@) =~= spec_headers(old(headers)@) + spec_meta_headers(
                metadata@.subrange(0, i + 1),
            ));
        }
        i = i + 1;
    }
    proof {
        assert(metadata@.subrange(0, n as int) =~= metadata@);
    }
}

/// The failure that a non-2xx response reports: the service's error envelope
/// when its body could be read, a bare failure otherwise.
pub fn protocol_error(envelope: Option<BaseResponse>) -> (r: UFileError)
    ensures
        envelope matches Some(b) ==> (r matches UFileError::ProtocolError {
            ret_code,
            message,
        } && ret_code == b.ret_code && message@ == spec_opt_str(b.message)),
        envelope is None ==> r is ApiError,
{
    match envelope {
        Some(base) => {
            let message = match base.message {
                Some(m) => m,
                None => String::new(),
            };
            UFileError::ProtocolError { ret_code: base.ret_code, message }
        },
        None => UFileError::ApiError,
    }
}

/// The init call's descriptor: start one multipart upload session.
pub struct InitMultipartFileApi {
    /// 上传云端后的文件名
    pub key_name: String,
    /// 上传对象的mimeType (canonical form)
    pub mime_type: String,
    /// 要上传的目标Bucket
    pub bucket_name: String,
    /// 用户自定义文件元数据
    pub metadata: Vec<(String, String)>,
    /// 文件存储类型，分别是标准、低频、冷存，对应有效值：STANDARD | IA | ARCHIVE
    pub storage_type: Option<String>,
    /// 安全令牌（STS临时凭证）
    pub security_token: Option<String>,
}

/// The headers of the init call, in the order they are set.
pub open spec fn spec_init_headers(
    api: InitMultipartFileApi,
    cfg: ObjectConfig,
    date: Seq<char>,
) -> Seq<(Seq<char>, Seq<char>)> {
    spec_base_headers(
        api.mime_type@,
        date,
        spec_auth_value(
            cfg.public_key@,
            cfg.private_key@,
            spec_canonical_of(
                HttpMethod::Post,
                Seq::<char>::empty(),
                api.mime_type@,
                date,
                None,
                None,
                api.bucket_name@,
                api.key_name@,
            ),
        ),
    ) + spec_opt_header("X-Ufile-Storage-Class"@, api.storage_type) + spec_opt_header(
        "SecurityToken"@,
        api.security_token,
    ) + spec_meta_headers(api.metadata@)
}

impl InitMultipartFileApi {
    /// Validate the three required fields and build the descriptor. The mime
    /// type is stored in its canonical form. Succeeds exactly when the bucket
    /// and key are non-empty and the mime type is non-empty and well-formed.
    pub fn new(bucket_name: String, key_name: String, mime_type: String) -> (r: Result<
        Self,
        String,
    >)
        ensures
            r is Ok <==> bucket_name@.len() > 0 && key_name@.len() > 0 && mime_type@.len() > 0
                && crate::codec::spec_media_type_canon(mime_type@) is Some,
            r matches Ok(api) ==> {
                &&& api.bucket_name@ == bucket_name@
                &&& api.key_name@ == key_name@
                &&& api.mime_type@ == crate::codec::spec_media_type_canon(mime_type@)->0
                &&& api.metadata@.len() == 0
                &&& api.storage_type is None
                &&& api.security_token is None
            },
    {
        let bucket_name = match is_bucket_name_not_empty(bucket_name) {
            Ok(b) => b,
            Err(m) => {
                return Err(m.to_owned());
            },
        };
        let key_name = match is_key_name_not_empty(key_name) {
            Ok(k) => k,
            Err(m) => {
                return Err(m.to_owned());
            },
        };
        let mime_type = match is_mime_type_valid(mime_type) {
            Ok(m) => m,
            Err(m) => {
                return Err(m);
            },
        };
        Ok(InitMultipartFileApi {
            key_name,
            mime_type,
            bucket_name,
            metadata: Vec::new(),
            storage_type: None,
            security_token: None,
        })
    }

    /// Prepare the signed init request: a POST to the object's URL with the
    /// `uploads` marker, carrying the base headers, the optional storage
    /// class and security token, and one header per metadata entry.
    pub fn build_request(&self, object_config: &ObjectConfig, date: &str) -> (r: SignedRequest)
        ensures
            r.method == HttpMethod::Post,
            r.url@ == spec_final_host(*object_config, self.bucket_name@, self.key_name@)
                + "?uploads"@,
            spec_headers(r.headers@) == spec_init_headers(*self, *object_config, date@),
            r.body is Empty,
    {
        let authorization = build_auth_header(
            HttpMethod::Post,
            self.bucket_name.as_str(),
            self.key_name.as_str(),
            self.mime_type.as_str(),
            None,
            date,
            object_config,
        );
        let mut headers = base_headers(self.mime_type.as_str(), date, authorization);
        push_opt_header(&mut headers, "X-Ufile-Storage-Class", &self.storage_type);
        push_opt_header(&mut headers, "SecurityToken", &self.security_token);
        push_meta_headers(&mut headers, &self.metadata);
        let mut url = object_config.generate_final_host(
            self.bucket_name.as_str(),
            self.key_name.as_str(),
        );
        url.append("?uploads");
        proof {
            assert(spec_headers(headers@) =~= spec_init_headers(*self, *object_config, date@));
        }
        SignedRequest { method: HttpMethod::Post, url, headers, body: RequestBody::Empty }
    }

    /// Read the init response: on any 2xx the session is the parsed body with
    /// the request's mime type backfilled; on anything else the call failed
    /// and no session exists.
    pub fn accept_response(&self, status: u16, body: Option<InitMultipartState>, envelope: Option<
        BaseResponse,
    >) -> (r: Result<InitMultipartState, UFileError>)
        ensures
            r is Ok <==> spec_status_is_success(status) && body is Some,
            r matches Ok(session) ==> {
                &&& session.upload_id == body->0.upload_id
                &&& session.blk_size == body->0.blk_size
                &&& session.bucket == body->0.bucket
                &&& session.key_name == body->0.key_name
                &&& session.mime_type matches Some(m) && m@ == self.mime_type@
            },
            !spec_status_is_success(status) ==> (envelope matches Some(b) ==> (r matches Err(
                UFileError::ProtocolError { ret_code, message },
            ) && ret_code == b.ret_code && message@ == spec_opt_str(b.message))),
            !spec_status_is_success(status) && envelope is None ==> r == Err::<
                InitMultipartState,
                UFileError,
            >(UFileError::ApiError),
            spec_status_is_success(status) && body is None ==> r == Err::<
                InitMultipartState,
                UFileError,
            >(UFileError::DeserializeError),
    {
        if !status_is_success(status) {
            return Err(protocol_error(envelope));
        }
        match body {
            Some(mut session) => {
                session.mime_type = Some(self.mime_type.clone());
                Ok(session)
            },
            None => Err(UFileError::DeserializeError),
        }
    }
}

/// The part-upload call's descriptor: one part's bytes, its 1-based number,
/// and the session it belongs to.
pub struct MultipartPutFileApi {
    /// Slice initial state
    pub state: InitMultipartState,
    /// Slice data
    pub buffer: Vec<u8>,
    /// Slice data size, used for the ranged split; the body's length is the
    /// buffer's own.
    pub buffer_size: u64,
    /// Index of slices
    pub part_index: usize,
    /// Whether to verify md5 of the slice
    pub is_verify_md5: bool,
    /// Temporary `STS` token
    pub security_token: Option<String>,
}

/// The Content-MD5 text that a part upload signs and sends: the hex MD5 of
/// the part's bytes when verification is on, absent otherwise.
pub open spec fn spec_part_md5(api: MultipartPutFileApi) -> Seq<char> {
    if api.is_verify_md5 {
        spec_md5_hex(api.buffer@)
    } else {
        Seq::<char>::empty()
    }
}

/// The headers of one part upload, in the order they are set.
pub open spec fn spec_part_headers(
    api: MultipartPutFileApi,
    cfg: ObjectConfig,
    date: Seq<char>,
) -> Seq<(Seq<char>, Seq<char>)> {
    spec_base_headers(
        spec_opt_str(api.state.mime_type),
        date,
        spec_auth_value(
            cfg.public_key@,
            cfg.private_key@,
            spec_canonical_of(
                HttpMethod::Put,
                spec_part_md5(api),
                spec_opt_str(api.state.mime_type),
                date,
                None,
                None,
                api.state.bucket@,
                api.state.key_name@,
            ),
        ),
    ) + seq![("Content-Length"@, spec_dec(api.buffer@.len() as int))] + (if api.is_verify_md5 {
        seq![("Content-MD5"@, spec_md5_hex(api.buffer@))]
    } else {
        Seq::<(Seq<char>, Seq<char>)>::empty()
    }) + spec_opt_header("SecurityToken"@, api.security_token)
}

/// The part-upload URL: the object's URL with the session and the part
/// number as query parameters.
pub open spec fn spec_part_url(api: MultipartPutFileApi, cfg: ObjectConfig) -> Seq<char> {
    spec_final_host(cfg, api.state.bucket@, api.state.key_name@) + "?uploadId="@
        + api.state.upload_id@ + "&partNumber="@ + spec_dec(api.part_index as int)
}

impl MultipartPutFileApi {
    /// Build the descriptor for one part. Rejects an empty part body.
    pub fn new(state: InitMultipartState, buffer: Vec<u8>, buffer_size: u64, part_index: usize)
        -> (r: Result<Self, &'static str>)
        ensures
            r is Ok <==> buffer@.len() > 0,
            r matches Ok(api) ==> {
                &&& api.state == state
                &&& api.buffer@ == buffer@
                &&& api.buffer_size == buffer_size
                &&& api.part_index == part_index
                &&& api.is_verify_md5 == false
                &&& api.security_token is None
            },
            r matches Err(m) ==> m@ == "buffer can not be empty"@,
    {
        let buffer = match crate::validator::is_buffer_not_empty(buffer) {
            Ok(b) => b,
            Err(m) => {
                return Err(m);
            },
        };
        Ok(MultipartPutFileApi {
            state,
            buffer,
            buffer_size,
            part_index,
            is_verify_md5: false,
            security_token: None,
        })
    }

    /// Prepare the signed part upload: a PUT of the part's bytes to the
    /// session's URL under the part's number, with `Content-Length` set to
    /// the exact byte count and `Content-MD5` included when verification is
    /// requested. Fails exactly when the session has no mime type.
    pub fn build_request(&self, object_config: &ObjectConfig, date: &str) -> (r: Result<
        SignedRequest,
        UFileError,
    >)
        ensures
            r is Ok <==> self.state.mime_type is Some,
            self.state.mime_type is None ==> (r matches Err(UFileError::ValidationError(m)) && m@
                == "mime type is unset."@),
            r matches Ok(req) ==> {
                &&& req.method == HttpMethod::Put
                &&& req.url@ == spec_part_url(*self, *object_config)
                &&& spec_headers(req.headers@) == spec_part_headers(*self, *object_config, date@)
                &&& req.body matches RequestBody::Bytes(b) && b@ == self.buffer@
            },
    {
        let mime_type = match &self.state.mime_type {
            Some(m) => m.clone(),
            None => {
                return Err(UFileError::ValidationError("mime type is unset.".to_owned()));
            },
        };
        let content_md5: Option<String> = if self.is_verify_md5 {
            Some(md5_hex(self.buffer.as_slice()))
        } else {
            None
        };
        let authorization = build_auth_header(
            HttpMethod::Put,
            self.state.bucket.as_str(),
            self.state.key_name.as_str(),
            mime_type.as_str(),
            content_md5.as_ref(),
            date,
            object_config,
        );
        let mut headers = base_headers(mime_type.as_str(), date, authorization);
        push_header(&mut headers, "Content-Length", u64_to_dec(self.buffer.len() as u64));
        if let Some(md5_text) = content_md5 {
            push_header(&mut headers, "Content-MD5", md5_text);
        }
        push_opt_header(&mut headers, "SecurityToken", &self.security_token);
        let mut url = object_config.generate_final_host(
            self.state.bucket.as_str(),
            self.state.key_name.as_str(),
        );
        url.append("?uploadId=");
        url.append(self.state.upload_id.as_str());
        url.append("&partNumber=");
        url.append(u64_to_dec(self.part_index as u64).as_str());
        let body = vstd::slice::slice_to_vec(self.buffer.as_slice());
        proof {
            assert(spec_headers(headers@) =~= spec_part_headers(*self, *object_config, date@));
            assert(url@ =~= spec_part_url(*self, *object_config));
        }
        Ok(
            SignedRequest {
                method: HttpMethod::Put,
                url,
                headers,
                body: RequestBody::Bytes(body),
            },
        )
    }

    /// Read one part upload's response: on any 2xx the result carries the
    /// part number from the parsed body, the response headers appended to
    /// the body's, and the ETag taken from the `etag` response header with
    /// its surrounding quotes stripped (falling back to the body's ETag when
    /// the header is absent). On anything else the part failed.
    pub fn accept_response(
        &self,
        status: u16,
        body: Option<MultipartUploadState>,
        response_headers: Vec<(String, String)>,
        envelope: Option<BaseResponse>,
    ) -> (r: Result<MultipartUploadState, UFileError>)
        ensures
            r is Ok <==> spec_status_is_success(status) && body is Some,
            r matches Ok(part) ==> {
                &&& part.part_number == body->0.part_number
                &&& part.headers@ == body->0.headers@ + response_headers@
                &&& part.etag@ == match spec_header_lookup(response_headers@, "etag"@) {
                    Some(v) => spec_remove_quotes(v),
                    None => body->0.etag@,
                }
            },
            !spec_status_is_success(status) ==> (envelope matches Some(b) ==> (r matches Err(
                UFileError::ProtocolError { ret_code, message },
            ) && ret_code == b.ret_code && message@ == spec_opt_str(b.message))),
            !spec_status_is_success(status) && envelope is None ==> r == Err::<
                MultipartUploadState,
                UFileError,
            >(UFileError::ApiError),
            spec_status_is_success(status) && body is None ==> r == Err::<
                MultipartUploadState,
                UFileError,
            >(UFileError::DeserializeError),
    {
        if !status_is_success(status) {
            return Err(protocol_error(envelope));
        }
        match body {
            Some(mut part) => {
                let etag_header = header_value(&response_headers, "etag");
                if let Some(quoted) = etag_header {
                    part.etag = remove_quotes(quoted.as_str());
                }
                let mut merged = response_headers;
                part.headers.append(&mut merged);
                Ok(part)
            },
            None => Err(UFileError::DeserializeError),
        }
    }
}

/// Whether `parts` is ascending by part number.
pub open spec fn spec_sorted_by_part_number(parts: Seq<MultipartUploadState>) -> bool {
    forall|i: int, j: int|
        0 <= i < j < parts.len() ==> #[trigger] parts[i].part_number
            <= #[trigger] parts[j].part_number
}

/// Whether no two parts share a part number.
pub open spec fn spec_distinct_part_numbers(parts: Seq<MultipartUploadState>) -> bool {
    forall|i: int, j: int|
        0 <= i < j < parts.len() ==> #[trigger] parts[i].part_number
            != #[trigger] parts[j].part_number
}

/// Sort parts ascending by part number. The result holds exactly the parts
/// given, whatever order they arrived in.
pub fn sort_parts(parts: Vec<MultipartUploadState>) -> (r: Vec<MultipartUploadState>)
    ensures
        spec_sorted_by_part_number(r@),
        r@.to_multiset() == parts@.to_multiset(),
{
    let mut rest = parts;
    let mut result: Vec<MultipartUploadState> = Vec::new();
    proof {
        assert(result@.to_multiset().add(rest@.to_multiset()) =~= parts@.to_multiset());
    }
    while rest.len() > 0
        invariant
            result@.to_multiset().add(rest@.to_multiset()) == parts@.to_multiset(),
            spec_sorted_by_part_number(result@),
            forall|i: int, j: int|
                0 <= i < result@.len() && 0 <= j < rest@.len() ==> #[trigger] result@[
                    i
                ].part_number <= #[trigger] rest@[j].part_number,
        decreases rest@.len(),
    {
        let mut m: usize = 0;
        let mut k: usize = 1;
        while k < rest.len()
            invariant
                0 <= m < k <= rest@.len(),
                forall|j: int| 0 <= j < k ==> rest@[m as int].part_number <= #[trigger] rest@[
                    j
                ].part_number,
            decreases rest@.len() - k,
        {
            if rest[k].part_number < rest[m].part_number {
                m = k;
            }
            k = k + 1;
        }
        let ghost old_rest = rest@;
        let ghost old_result = result@;
        let item = rest.remove(m);
        result.push(item);
        proof {
            assert(old_rest.remove(m as int).to_multiset() =~= old_rest.to_multiset().remove(
                old_rest[m as int],
            ));
            assert(old_rest.to_multiset().count(old_rest[m as int]) > 0) by {
                assert(old_rest.contains(old_rest[m as int]));
            }
            assert(result@.to_multiset().add(rest@.to_multiset()) =~= parts@.to_multiset());
            assert forall|i: int, j: int|
                0 <= i < result@.len() && 0 <= j < rest@.len() implies #[trigger] result@[
                i
            ].part_number <= #[trigger] rest@[j].part_number by {
                if j < m {
                    assert(rest@[j] == old_rest[j]);
                } else {
                    assert(rest@[j] == old_rest[j + 1]);
                }
            }
        }
    }
    result
}

/// Two ascending part lists holding the same parts are the same list, as
/// long as the part numbers are distinct.
pub proof fn lemma_sorted_parts_unique(s1: Seq<MultipartUploadState>, s2: Seq<
    MultipartUploadState,
>)
    requires
        s1.to_multiset() == s2.to_multiset(),
        spec_sorted_by_part_number(s1),
        spec_sorted_by_part_number(s2),
        spec_distinct_part_numbers(s1),
    ensures
        s1 == s2,
    decreases s1.len(),
{
    if s1.len() == 0 {
        assert(s2.len() == s2.to_multiset().len());
        assert(s1 =~= s2);
    } else {
        assert(s2.len() == s2.to_multiset().len());
        let a = s1[0];
        let b = s2[0];
        assert(s2.contains(b));
        assert(s1.to_multiset().count(b) > 0);
        assert(s1.contains(b));
        let kb = choose|k: int| 0 <= k < s1.len() && s1[k] == b;
        assert(s1.contains(a));
        assert(s2.to_multiset().count(a) > 0);
        assert(s2.contains(a));
        let la = choose|l: int| 0 <= l < s2.len() && s2[l] == a;
        assert(a.part_number <= s1[kb].part_number);
        assert(b.part_number <= s2[la].part_number);
        assert(a.part_number == b.part_number);
        if kb != 0 {
            assert(s1[0].part_number != s1[kb].part_number);
            assert(false);
        }
        assert(a == b);
        assert(s1.remove(0) =~= s1.drop_first());
        assert(s2.remove(0) =~= s2.drop_first());
        assert(s1.drop_first().to_multiset() =~= s1.to_multiset().remove(a));
        assert(s2.drop_first().to_multiset() =~= s2.to_multiset().remove(a));
        assert forall|i: int, j: int|
            0 <= i < j < s1.drop_first().len() implies #[trigger] s1.drop_first()[i].part_number
            <= #[trigger] s1.drop_first()[j].part_number by {
            assert(s1.drop_first()[i] == s1[i + 1]);
            assert(s1.drop_first()[j] == s1[j + 1]);
        }
        assert forall|i: int, j: int|
            0 <= i < j < s2.drop_first().len() implies #[trigger] s2.drop_first()[i].part_number
            <= #[trigger] s2.drop_first()[j].part_number by {
            assert(s2.drop_first()[i] == s2[i + 1]);
            assert(s2.drop_first()[j] == s2[j + 1]);
        }
        assert forall|i: int, j: int|
            0 <= i < j < s1.drop_first().len() implies #[trigger] s1.drop_first()[i].part_number
            != #[trigger] s1.drop_first()[j].part_number by {
            assert(s1.drop_first()[i] == s1[i + 1]);
            assert(s1.drop_first()[j] == s1[j + 1]);
        }
        lemma_sorted_parts_unique(s1.drop_first(), s2.drop_first());
        assert(s1.len() == s2.len());
        assert forall|i: int| 0 <= i < s1.len() implies s1[i] == s2[i] by {
            if i > 0 {
                assert(s1.drop_first()[i - 1] == s1[i]);
                assert(s2.drop_first()[i - 1] == s2[i]);
            }
        }
        assert(s1 =~= s2);
    }
}

/// The comma-joined ETags of `parts`, in the order given.
pub open spec fn spec_etag_join(parts: Seq<MultipartUploadState>) -> Seq<char>
    decreases parts.len(),
{
    if parts.len() == 0 {
        Seq::<char>::empty()
    } else if parts.len() == 1 {
        parts[0].etag@
    } else {
        spec_etag_join(parts.drop_last()) + ","@ + parts.last().etag@
    }
}

/// Join the ETags of `parts` with commas, in the order given.
pub fn etag_join(parts: &Vec<MultipartUploadState>) -> (r: String)
    ensures
        r@ == spec_etag_join(parts@),
{
    let mut s = String::new();
    let n = parts.len();
    let mut i: usize = 0;
    while i < n
        invariant
            n == parts@.len(),
            0 <= i <= n,
            s@ == spec_etag_join(parts@.subrange(0, i as int)),
        decreases n - i,
    {
        if i > 0 {
            s.append(",");
        }
        s.append(parts[i].etag.as_str());
        proof {
            assert(parts@.subrange(0, i + 1).drop_last() =~= parts@.subrange(0, i as int));
            assert(parts@.subrange(0, i + 1).last() == parts@[i as int]);
        }
        i = i + 1;
    }
    proof {
        assert(parts@.subrange(0, n as int) =~= parts@);
    }
    s
}

/// The finish body is determined by the set of completed parts alone: any two
/// completion orders of the same parts, once sorted by part number, join to
/// the same comma-separated ETag list — provided the part numbers are
/// distinct, as the protocol assigns them.
pub proof fn lemma_finish_body_order_independent(
    done1: Seq<MultipartUploadState>,
    done2: Seq<MultipartUploadState>,
    sorted1: Seq<MultipartUploadState>,
    sorted2: Seq<MultipartUploadState>,
)
    requires
        done1.to_multiset() == done2.to_multiset(),
        sorted1.to_multiset() == done1.to_multiset(),
        sorted2.to_multiset() == done2.to_multiset(),
        spec_sorted_by_part_number(sorted1),
        spec_sorted_by_part_number(sorted2),
        spec_distinct_part_numbers(sorted1),
    ensures
        sorted1 == sorted2,
        spec_etag_join(sorted1) == spec_etag_join(sorted2),
{
    lemma_sorted_parts_unique(sorted1, sorted2);
}

/// The finish call's descriptor: commit the session with the collected parts.
pub struct FinishMultipartFileApi {
    /// State of multipart upload task.
    pub state: InitMultipartState,
    /// The collected part results; sorted by part number when the request is
    /// built.
    pub part_states: Vec<MultipartUploadState>,
    /// New object name used to replace old one if finish multipart upload
    /// task successfully.
    pub new_object: Option<String>,
    /// UNCHANGED keeps the metadata set at init time; REPLACE takes the
    /// metadata given here.
    pub metadata_directive: Option<MetadataDirective>,
    /// User custom headers metadata.
    pub metadata: Vec<(String, String)>,
    /// Security Token
    pub security_token: Option<String>,
}

/// The headers of the finish call, in the order they are set. The
/// `Content-Length` is the byte length of the comma-joined ETag body.
pub open spec fn spec_finish_headers(
    api: FinishMultipartFileApi,
    cfg: ObjectConfig,
    date: Seq<char>,
) -> Seq<(Seq<char>, Seq<char>)> {
    spec_base_headers(
        spec_opt_str(api.state.mime_type),
        date,
        spec_auth_value(
            cfg.public_key@,
            cfg.private_key@,
            spec_canonical_of(
                HttpMethod::Post,
                Seq::<char>::empty(),
                spec_opt_str(api.state.mime_type),
                date,
                None,
                None,
                api.state.bucket@,
                api.state.key_name@,
            ),
        ),
    ) + spec_opt_header("SecurityToken"@, api.security_token) + (
    match api.metadata_directive {
        Some(d) => seq![("X-Ufile-Metadata-Directive"@, d.spec_str())],
        None => Seq::<(Seq<char>, Seq<char>)>::empty(),
    }) + seq![
        (
            "Content-Length"@,
            spec_dec(
                (vstd::utf8::encode_utf8(spec_etag_join(api.part_states@)).len() as usize) as int,
            ),
        ),
    ] + spec_meta_headers(api.metadata@)
}

/// The finish URL: the object's URL with the session and the optional new
/// key as query parameters.
pub open spec fn spec_finish_url(api: FinishMultipartFileApi, cfg: ObjectConfig) -> Seq<char> {
    spec_final_host(cfg, api.state.bucket@, api.state.key_name@) + "?uploadId="@
        + api.state.upload_id@ + "&newKey="@ + spec_opt_str(api.new_object)
}

impl FinishMultipartFileApi {
    /// The finish descriptor for a session and its collected parts, with no
    /// optional fields set.
    pub fn new(state: InitMultipartState, part_states: Vec<MultipartUploadState>) -> (r: Self)
        ensures
            r.state == state,
            r.part_states == part_states,
            r.new_object is None,
            r.metadata_directive is None,
            r.metadata@.len() == 0,
            r.security_token is None,
    {
        FinishMultipartFileApi {
            state,
            part_states,
            new_object: None,
            metadata_directive: None,
            metadata: Vec::new(),
            security_token: None,
        }
    }

    /// Prepare the signed finish request: sort the collected parts by part
    /// number, join their ETags with commas as the POST body, and set
    /// `Content-Length` to that body's byte length. Fails exactly when the
    /// session has no mime type, and then changes nothing.
    pub fn build_request(&mut self, object_config: &ObjectConfig, date: &str) -> (r: Result<
        SignedRequest,
        UFileError,
    >)
        ensures
            r is Ok <==> old(self).state.mime_type is Some,
            r is Err ==> *final(self) == *old(self),
            old(self).state.mime_type is None ==> (r matches Err(UFileError::ValidationError(m))
                && m@ == "mime type is unset."@),
            r is Ok ==> {
                &&& spec_sorted_by_part_number(final(self).part_states@)
                &&& final(self).part_states@.to_multiset() == old(self).part_states@.to_multiset()
                &&& final(self).state == old(self).state
                &&& final(self).new_object == old(self).new_object
                &&& final(self).metadata_directive == old(self).metadata_directive
                &&& final(self).metadata == old(self).metadata
                &&& final(self).security_token == old(self).security_token
            },
            r matches Ok(req) ==> {
                &&& req.method == HttpMethod::Post
                &&& req.url@ == spec_finish_url(*final(self), *object_config)
                &&& spec_headers(req.headers@) == spec_finish_headers(
                    *final(self),
                    *object_config,
                    date@,
                )
                &&& req.body matches RequestBody::Text(b) && b@ == spec_etag_join(
                    final(self).part_states@,
                )
            },
    {
        let mime_type = match &self.state.mime_type {
            Some(m) => m.clone(),
            None => {
                return Err(UFileError::ValidationError("mime type is unset.".to_owned()));
            },
        };
        let mut collected: Vec<MultipartUploadState> = Vec::new();
        core::mem::swap(&mut collected, &mut self.part_states);
        let sorted = sort_parts(collected);
        let body = etag_join(&sorted);
        self.part_states = sorted;
        let authorization = build_auth_header(
            HttpMethod::Post,
            self.state.bucket.as_str(),
            self.state.key_name.as_str(),
            mime_type.as_str(),
            None,
            date,
            object_config,
        );
        let mut headers = base_headers(mime_type.as_str(), date, authorization);
        push_opt_header(&mut headers, "SecurityToken", &self.security_token);
        if let Some(directive) = self.metadata_directive {
            push_header(&mut headers, "X-Ufile-Metadata-Directive", directive.as_str().to_owned());
        }
        push_header(&mut headers, "Content-Length", u64_to_dec(body.as_str().len() as u64));
        push_meta_headers(&mut headers, &self.metadata);
        let mut url = object_config.generate_final_host(
            self.state.bucket.as_str(),
            self.state.key_name.as_str(),
        );
        url.append("?uploadId=");
        url.append(self.state.upload_id.as_str());
        url.append("&newKey=");
        if let Some(new_object) = &self.new_object {
            url.append(new_object.as_str());
        }
        proof {
            assert(spec_headers(headers@) =~= spec_finish_headers(*self, *object_config, date@));
            assert(url@ =~= spec_finish_url(*self, *object_config));
        }
        Ok(SignedRequest { method: HttpMethod::Post, url, headers, body: RequestBody::Text(body) })
    }

    /// Read the finish response: on any 2xx the outcome is the parsed body
    /// with the response headers appended, and with the `ETag` response
    /// header, when present, taking precedence over the body's etag field.
    /// On anything else the commit failed.
    pub fn accept_response(
        &self,
        status: u16,
        body: Option<FinishUploadResponse>,
        response_headers: Vec<(String, String)>,
        envelope: Option<BaseResponse>,
    ) -> (r: Result<FinishUploadResponse, UFileError>)
        ensures
            r is Ok <==> spec_status_is_success(status) && body is Some,
            r matches Ok(outcome) ==> {
                &&& outcome.bucket == body->0.bucket
                &&& outcome.key == body->0.key
                &&& outcome.file_size == body->0.file_size
                &&& outcome.headers@ == body->0.headers@ + response_headers@
                &&& outcome.etag@ == match spec_header_lookup(response_headers@, "etag"@) {
                    Some(v) => v,
                    None => body->0.etag@,
                }
            },
            !spec_status_is_success(status) ==> (envelope matches Some(b) ==> (r matches Err(
                UFileError::ProtocolError { ret_code, message },
            ) && ret_code == b.ret_code && message@ == spec_opt_str(b.message))),
            !spec_status_is_success(status) && envelope is None ==> r == Err::<
                FinishUploadResponse,
                UFileError,
            >(UFileError::ApiError),
            spec_status_is_success(status) && body is None ==> r == Err::<
                FinishUploadResponse,
                UFileError,
            >(UFileError::DeserializeError),
    {
        if !status_is_success(status) {
            return Err(protocol_error(envelope));
        }
        match body {
            Some(mut outcome) => {
                let etag_header = header_value(&response_headers, "etag");
                if let Some(etag) = etag_header {
                    outcome.etag = etag;
                }
                let mut merged = response_headers;
                outcome.headers.append(&mut merged);
                Ok(outcome)
            },
            None => Err(UFileError::DeserializeError),
        }
    }
}

/// The abort call's descriptor: discard the session on the service side.
pub struct AbortMultipartUploadApi {
    /// State of multipart upload task.
    pub state: InitMultipartState,
    /// User custom headers metadata.
    pub metadata: Vec<(String, String)>,
    /// Security Token
    pub security_token: Option<String>,
}

/// The headers of the abort call, in the order they are set.
pub open spec fn spec_abort_headers(
    api: AbortMultipartUploadApi,
    cfg: ObjectConfig,
    date: Seq<char>,
) -> Seq<(Seq<char>, Seq<char>)> {
    spec_base_headers(
        spec_opt_str(api.state.mime_type),
        date,
        spec_auth_value(
            cfg.public_key@,
            cfg.private_key@,
            spec_canonical_of(
                HttpMethod::Delete,
                Seq::<char>::empty(),
                spec_opt_str(api.state.mime_type),
                date,
                None,
                None,
                api.state.bucket@,
                api.state.key_name@,
            ),
        ),
    ) + spec_opt_header("SecurityToken"@, api.security_token) + spec_meta_headers(api.metadata@)
}

impl AbortMultipartUploadApi {
    /// The abort descriptor for a session, with no optional fields set.
    pub fn new(state: InitMultipartState) -> (r: Self)
        ensures
            r.state == state,
            r.metadata@.len() == 0,
            r.security_token is None,
    {
        AbortMultipartUploadApi { state, metadata: Vec::new(), security_token: None }
    }

    /// Prepare the signed abort request: a DELETE of the session's URL with
    /// the upload id as the only query parameter. Fails exactly when the
    /// session has no mime type.
    pub fn build_request(&self, object_config: &ObjectConfig, date: &str) -> (r: Result<
        SignedRequest,
        UFileError,
    >)
        ensures
            r is Ok <==> self.state.mime_type is Some,
            self.state.mime_type is None ==> (r matches Err(UFileError::ValidationError(m)) && m@
                == "mime type is unset."@),
            r matches Ok(req) ==> {
                &&& req.method == HttpMethod::Delete
                &&& req.url@ == spec_final_host(
                    *object_config,
                    self.state.bucket@,
                    self.state.key_name@,
                ) + "?uploadId="@ + self.state.upload_id@
                &&& spec_headers(req.headers@) == spec_abort_headers(
                    *self,
                    *object_config,
                    date@,
                )
                &&& req.body is Empty
            },
    {
        let mime_type = match &self.state.mime_type {
            Some(m) => m.clone(),
            None => {
                return Err(UFileError::ValidationError("mime type is unset.".to_owned()));
            },
        };
        let authorization = build_auth_header(
            HttpMethod::Delete,
            self.state.bucket.as_str(),
            self.state.key_name.as_str(),
            mime_type.as_str(),
            None,
            date,
            object_config,
        );
        let mut headers = base_headers(mime_type.as_str(), date, authorization);
        push_opt_header(&mut headers, "SecurityToken", &self.security_token);
        push_meta_headers(&mut headers, &self.metadata);
        let mut url = object_config.generate_final_host(
            self.state.bucket.as_str(),
            self.state.key_name.as_str(),
        );
        url.append("?uploadId=");
        url.append(self.state.upload_id.as_str());
        proof {
            assert(spec_headers(headers@) =~= spec_abort_headers(*self, *object_config, date@));
            assert(url@ =~= spec_final_host(*object_config, self.state.bucket@, self.state.key_name@)
                + "?uploadId="@ + self.state.upload_id@);
        }
        Ok(SignedRequest { method: HttpMethod::Delete, url, headers, body: RequestBody::Empty })
    }

    /// Read the abort response: success on any 2xx status, the service's
    /// error otherwise. Aborting does not undo parts already committed
    /// server-side; it only discards the session.
    pub fn accept_response(&self, status: u16, envelope: Option<BaseResponse>) -> (r: Result<
        (),
        UFileError,
    >)
        ensures
            r is Ok <==> spec_status_is_success(status),
            !spec_status_is_success(status) ==> (envelope matches Some(b) ==> (r matches Err(
                UFileError::ProtocolError { ret_code, message },
            ) && ret_code == b.ret_code && message@ == spec_opt_str(b.message))),
            !spec_status_is_success(status) && envelope is None ==> r == Err::<(), UFileError>(
                UFileError::ApiError,
            ),
    {
        if status_is_success(status) {
            Ok(())
        } else {
            Err(protocol_error(envelope))
        }
    }
}

} // verus!
