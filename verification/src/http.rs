//! Plain models of the HTTP vocabulary the engine needs: the five verbs it
//! uses, a description of one fully prepared request, and the success rule
//! for status codes.

use vstd::prelude::*;

verus! {

/// The HTTP verbs that the storage protocol uses.
#[derive(Debug, Clone, Copy, PartialEq, Eq, Structural)]
pub enum HttpMethod {
    Get,
    Put,
    Post,
    Delete,
    Head,
}

impl HttpMethod {
    /// The verb's upper-case wire name.
    pub open spec fn spec_str(self) -> Seq<char> {
        match self {
            HttpMethod::Get => "GET"@,
            HttpMethod::Put => "PUT"@,
            HttpMethod::Post => "POST"@,
            HttpMethod::Delete => "DELETE"@,
            HttpMethod::Head => "HEAD"@,
        }
    }

    /// The verb's upper-case wire name.
    pub fn as_str(self) -> (r: &'static str)
        ensures
            r@ == self.spec_str(),
    {
        match self {
            HttpMethod::Get => "GET",
            HttpMethod::Put => "PUT",
            HttpMethod::Post => "POST",
            HttpMethod::Delete => "DELETE",
            HttpMethod::Head => "HEAD",
        }
    }
}

/// What a prepared request carries besides URL and headers.
#[derive(Debug, Clone, PartialEq, Eq)]
pub enum RequestBody {
    /// No payload.
    Empty,
    /// A textual payload (the finish step's ETag list).
    Text(String),
    /// A raw payload (one part's bytes).
    Bytes(Vec<u8>),
}

/// One fully prepared HTTP request: everything the transport needs to put the
/// call on the wire. Built and signed by the library; sent by the caller.
#[derive(Debug, Clone, PartialEq, Eq)]
pub struct SignedRequest {
    pub method: HttpMethod,
    pub url: String,
    pub headers: Vec<(String, String)>,
    pub body: RequestBody,
}

/// The view of a header list: each name/value pair as character sequences.
pub open spec fn spec_headers(h: Seq<(String, String)>) -> Seq<(Seq<char>, Seq<char>)> {
    h.map_values(|p: (String, String)| (p.0@, p.1@))
}

/// The four headers that every signed call carries, in the order they are
/// set: `Content-Type`, `Accept: */*`, `Date`, and `Authorization`.
pub open spec fn spec_base_headers(
    content_type: Seq<char>,
    date: Seq<char>,
    authorization: Seq<char>,
) -> Seq<(Seq<char>, Seq<char>)> {
    seq![
        ("Content-Type"@, content_type),
        ("Accept"@, "*/*"@),
        ("Date"@, date),
        ("Authorization"@, authorization),
    ]
}

/// Append one header to a list.
pub(crate) fn push_header(headers: &mut Vec<(String, String)>, name: &str, value: String)
    ensures
        spec_headers(final(headers)@) == spec_headers(old(headers)@) + seq![(name@, value@)],
{
    let owned_name = name.to_owned();
    let ghost value_view = value@;
    headers.push((owned_name, value));
    proof {
        assert(spec_headers(headers@) =~= spec_headers(old(headers)@) + seq![(name@, value_view)]);
    }
}

/// Build the four headers of every signed call.
pub(crate) fn base_headers(content_type: &str, date: &str, authorization: String) -> (r: Vec<
    (String, String),
>)
    ensures
        spec_headers(r@) == spec_base_headers(content_type@, date@, authorization@),
{
    let mut headers: Vec<(String, String)> = Vec::new();
    let ghost auth_view = authorization@;
    push_header(&mut headers, "Content-Type", content_type.to_owned());
    push_header(&mut headers, "Accept", "*/*".to_owned());
    push_header(&mut headers, "Date", date.to_owned());
    push_header(&mut headers, "Authorization", authorization);
    proof {
        assert(spec_headers(headers@) =~= spec_base_headers(content_type@, date@, auth_view));
    }
    headers
}

/// Whether an HTTP status code reports success: any code in the 2xx class.
pub open spec fn spec_status_is_success(status: u16) -> bool {
    200 <= status < 300
}

/// Whether an HTTP status code reports success: any code in the 2xx class.
pub fn status_is_success(status: u16) -> (r: bool)
    ensures
        r == spec_status_is_success(status),
{
    200 <= status && status < 300
}

} // verus!
