//! Simple Form Post File. The call itself is not offered yet; the descriptor
//! and its validation exist so callers can prepare one.

use vstd::prelude::*;
use crate::validator::is_bucket_name_not_empty;

verus! {

/// The form-post call's descriptor.
pub struct PostFileApi {
    /// The bucket to post into; must not be empty.
    pub bucket_name: String,
    /// Whether to send an MD5 checksum with the form.
    pub is_verify_md5: bool,
    /// STS temporary security token.
    pub security_token: Option<String>,
}

impl PostFileApi {
    /// The descriptor with its bucket validated. Succeeds exactly when the
    /// bucket name is non-empty.
    pub fn new(bucket_name: String) -> (r: Result<Self, &'static str>)
        ensures
            r is Ok <==> bucket_name@.len() > 0,
            r matches Ok(api) ==> {
                &&& api.bucket_name@ == bucket_name@
                &&& api.is_verify_md5 == false
                &&& api.security_token is None
            },
    {
        let bucket_name = match is_bucket_name_not_empty(bucket_name) {
            Ok(b) => b,
            Err(m) => {
                return Err(m);
            },
        };
        Ok(PostFileApi { bucket_name, is_verify_md5: false, security_token: None })
    }
}

} // verus!
