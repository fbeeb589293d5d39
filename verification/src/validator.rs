//! Validator functions for api field's validation checking. Each rejects its
//! input before any network call is made.

use vstd::prelude::*;
use vstd::string::{StrSliceExecFns, StringExecFns};
use crate::codec::{media_type_canon, spec_media_type_canon};

verus! {

/// Check the given key is not empty; hand it back unchanged when it is not.
pub fn is_not_empty(key: String, error_msg: &'static str) -> (r: Result<String, &'static str>)
    ensures
        key@.len() > 0 ==> r == Ok::<String, &'static str>(key),
        key@.len() == 0 ==> (r matches Err(m) && m@ == error_msg@),
{
    if key.as_str().unicode_len() == 0 {
        return Err(error_msg);
    }
    Ok(key)
}

/// Check the given key name is empty or not.
pub fn is_key_name_not_empty(key_name: String) -> (r: Result<String, &'static str>)
    ensures
        key_name@.len() > 0 ==> r == Ok::<String, &'static str>(key_name),
        key_name@.len() == 0 ==> (r matches Err(m) && m@ == "key_name can not be empty"@),
{
    is_not_empty(key_name, "key_name can not be empty")
}

/// Check the given bucket name is empty or not.
pub fn is_bucket_name_not_empty(bucket_name: String) -> (r: Result<String, &'static str>)
    ensures
        bucket_name@.len() > 0 ==> r == Ok::<String, &'static str>(bucket_name),
        bucket_name@.len() == 0 ==> (r matches Err(m) && m@ == "bucket name can not be empty"@),
{
    is_not_empty(bucket_name, "bucket name can not be empty")
}

/// Check that a mime type is non-empty and well-formed; hand back its
/// canonical text when it is.
pub fn is_mime_type_valid(mime_type: String) -> (r: Result<String, String>)
    ensures
        mime_type@.len() == 0 ==> (r matches Err(m) && m@ == "mime_type can not be empty"@),
        mime_type@.len() > 0 ==> ((r is Ok) <==> spec_media_type_canon(mime_type@) is Some),
        mime_type@.len() > 0 && spec_media_type_canon(mime_type@) is Some ==> r->Ok_0@
            == spec_media_type_canon(mime_type@)->0,
        mime_type@.len() > 0 && spec_media_type_canon(mime_type@) is None ==> r->Err_0@
            == "mime type ["@ + mime_type@ + "] is invalid"@,
{
    if mime_type.as_str().unicode_len() == 0 {
        return Err("mime_type can not be empty".to_owned());
    }
    match media_type_canon(mime_type.as_str()) {
        Some(canonical) => Ok(canonical),
        None => {
            let mut message = "mime type [".to_owned();
            message.append(mime_type.as_str());
            message.append("] is invalid");
            proof {
                assert(message@ =~= "mime type ["@ + mime_type@ + "] is invalid"@);
            }
            Err(message)
        },
    }
}

/// Check the given buffer holds at least one byte.
pub fn is_buffer_not_empty(buffer: Vec<u8>) -> (r: Result<Vec<u8>, &'static str>)
    ensures
        buffer@.len() > 0 ==> (r matches Ok(b) && b@ == buffer@),
        buffer@.len() == 0 ==> (r matches Err(m) && m@ == "buffer can not be empty"@),
{
    if buffer.len() == 0 {
        return Err("buffer can not be empty");
    }
    Ok(buffer)
}

} // verus!
