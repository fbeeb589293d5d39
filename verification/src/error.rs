//! The error cases that the engine reports to its callers.

use vstd::prelude::*;
use vstd::string::StringExecFns;

verus! {

/// A terminal failure of one operation. Validation failures are raised before
/// any network call; transport failures come from the HTTP layer verbatim;
/// protocol failures carry the service's error envelope (return code and
/// message) parsed from a non-2xx response.
#[derive(Debug, Clone, PartialEq, Eq)]
pub enum UFileError {
    ApiError,
    NetworkError(String),
    SerializeError,
    DeserializeError,
    UnknownError,
    ValidationError(String),
    ProtocolError { ret_code: i32, message: String },
}

impl UFileError {
    /// A short, human-readable description of the failure.
    pub fn message(&self) -> (r: String)
        ensures
            self is NetworkError ==> r@ == "Network request error for: "@ + self->NetworkError_0@,
            self is ValidationError ==> r@ == self->ValidationError_0@,
            self is ProtocolError ==> r@ == "Service error: "@ + self->ProtocolError_message@,
            self is ApiError ==> r@ == "Api error"@,
            self is SerializeError ==> r@ == "Serialize error"@,
            self is DeserializeError ==> r@ == "Deserialize error"@,
            self is UnknownError ==> r@ == "Unknown error"@,
    {
        match self {
            UFileError::ApiError => "Api error".to_owned(),
            UFileError::NetworkError(what) => {
                let mut s = "Network request error for: ".to_owned();
                s.append(what.as_str());
                s
            },
            UFileError::SerializeError => "Serialize error".to_owned(),
            UFileError::DeserializeError => "Deserialize error".to_owned(),
            UFileError::UnknownError => "Unknown error".to_owned(),
            UFileError::ValidationError(what) => what.clone(),
            UFileError::ProtocolError { ret_code: _, message } => {
                let mut s = "Service error: ".to_owned();
                s.append(message.as_str());
                s
            },
        }
    }
}

/// The usual shape of this library's results.
pub type UFileResult<T> = Result<T, UFileError>;

} // verus!
