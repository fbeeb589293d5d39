//! Client-side engine for multipart transfers to and from a UFile-style
//! object-storage service: request signing, canonical-string construction,
//! range splitting, and the coordinator state machines that drive the
//! init / upload-parts / finish (or abort) protocol.

use vstd::prelude::*;

mod auth;
mod codec;
mod constant;
mod coordinator;
mod digest;
mod download;
mod error;
mod gate;
mod http;
mod multipart;
mod object;
mod pool;
mod post_file;
mod ranges;
mod text;
mod transfer;
mod url_ops;
mod validator;

pub use auth::{
    canonical_string, AuthorizationService, HmacSha1Signer, ObjectOptAuthParam, Signer,
};
pub use codec::sha1;
pub use coordinator::{MultipartUploadCoordinator, UploadPhase};
pub use constant::{DEFAULT_CONCURRENCY, MULTIPART_SIZE};
pub use download::{DownloadFileApi, DownloadFileRequest, HeadFileApi};
pub use digest::{u32_le_bytes, ETag};
pub use error::{UFileError, UFileResult};
pub use gate::ConcurrencyGate;
pub use http::{HttpMethod, RequestBody, SignedRequest};
pub use multipart::{
    etag_join, protocol_error, sort_parts, AbortMultipartUploadApi, FinishMultipartFileApi,
    InitMultipartFileApi, MetadataDirective, MultipartPutFileApi,
};
pub use object::{
    BaseResponse, FinishUploadResponse, HeadFileResponse, InitMultipartState,
    MultipartUploadState, ObjectConfig, PutObjectResultResponse, UfileProtocol,
};
pub use pool::{ObjectPool, PooledObject};
pub use post_file::PostFileApi;
pub use ranges::ByteRange;
pub use ranges::split_into_ranges;
pub use transfer::{extract_chunk, range_header, transfer_round_trip, write_chunk};
pub use text::{header_value, parse_u64_dec, remove_quotes, u64_to_dec};
pub use url_ops::{
    GenPrivateUrlApi, GenPrivateUrlOperation, GenPrivateUrlRequest, GenPublicUrlOperation,
    GenPublicUrlRequest,
};
pub use validator::{
    is_bucket_name_not_empty, is_buffer_not_empty, is_key_name_not_empty, is_mime_type_valid,
    is_not_empty,
};

verus! {

/// Seals the operation traits of the surrounding tooling: only this crate's
/// own request and operation types may implement them.
pub trait Sealed {

}

} // verus!
