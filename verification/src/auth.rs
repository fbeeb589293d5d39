//! Request signing: the canonical string built from one operation's
//! descriptor, the HMAC-SHA1 signer over it, and the final `Authorization`
//! header value.

use vstd::prelude::*;
use vstd::string::StringExecFns;
use crate::codec::{base64_standard, hmac_sha1, spec_base64, spec_hmac_sha1};
use crate::error::UFileError;
use crate::http::HttpMethod;
use crate::object::{spec_opt_str, ObjectConfig};

verus! {

/// The descriptor of one signed operation, consumed once per HTTP call.
/// Method, bucket and key are always present; the string fields take part in
/// canonical-string construction in a fixed order.
#[derive(Debug, Clone, PartialEq, Eq)]
pub struct ObjectOptAuthParam {
    /// Specify the http method.
    pub method: HttpMethod,
    /// Specify the name of the bucket.
    pub bucket: String,
    /// Specify the name of the object.
    pub key_name: String,
    /// Content-Type of the payload, when sent.
    pub content_type: Option<String>,
    /// Content-MD5 of the payload, when sent.
    pub content_md5: Option<String>,
    /// Date of the request, when sent.
    pub date: Option<String>,
    /// Source object of a copy, when the operation is a copy.
    pub x_ufile_copy_source: Option<String>,
    /// Byte range of a copy's source, when limited.
    pub x_ufile_copy_source_range: Option<String>,
}

impl ObjectOptAuthParam {
    /// A descriptor with the three required fields and no optional ones.
    pub fn new(method: HttpMethod, bucket: String, key_name: String) -> (r: Self)
        ensures
            r.method == method,
            r.bucket == bucket,
            r.key_name == key_name,
            r.content_type is None,
            r.content_md5 is None,
            r.date is None,
            r.x_ufile_copy_source is None,
            r.x_ufile_copy_source_range is None,
    {
        ObjectOptAuthParam {
            method,
            bucket,
            key_name,
            content_type: None,
            content_md5: None,
            date: None,
            x_ufile_copy_source: None,
            x_ufile_copy_source_range: None,
        }
    }
}

/// The copy-source header's line in the canonical string: omitted entirely
/// when the field is absent, not even an empty line.
pub open spec fn spec_copy_source_line(v: Option<String>) -> Seq<char> {
    match v {
        Some(s) => "x-ufile-copy-source:"@ + s@ + "\n"@,
        None => Seq::<char>::empty(),
    }
}

/// The copy-source-range header's line, with the same omission rule.
pub open spec fn spec_copy_source_range_line(v: Option<String>) -> Seq<char> {
    match v {
        Some(s) => "x-ufile-copy-source-range:"@ + s@ + "\n"@,
        None => Seq::<char>::empty(),
    }
}

/// The view of an optional string field: the text when present.
pub open spec fn spec_opt_view(o: Option<String>) -> Option<Seq<char>> {
    match o {
        Some(s) => Some(s@),
        None => None,
    }
}

/// The canonical string over plain texts, newline-joined in a fixed order:
/// method, Content-MD5, Content-Type, Date (absent fields as empty strings),
/// the two copy-source lines (omitted entirely when absent), then `/bucket`
/// and `/key` joined directly with no separating newline.
pub open spec fn spec_canonical_of(
    method: HttpMethod,
    content_md5: Seq<char>,
    content_type: Seq<char>,
    date: Seq<char>,
    copy_source: Option<Seq<char>>,
    copy_source_range: Option<Seq<char>>,
    bucket: Seq<char>,
    key: Seq<char>,
) -> Seq<char> {
    method.spec_str() + "\n"@ + content_md5 + "\n"@ + content_type + "\n"@ + date + "\n"@ + (
    match copy_source {
        Some(s) => "x-ufile-copy-source:"@ + s + "\n"@,
        None => Seq::<char>::empty(),
    }) + (match copy_source_range {
        Some(s) => "x-ufile-copy-source-range:"@ + s + "\n"@,
        None => Seq::<char>::empty(),
    }) + "/"@ + bucket + "/"@ + key
}

/// The canonical string that one operation's descriptor signs.
pub open spec fn spec_canonical_string(p: ObjectOptAuthParam) -> Seq<char> {
    spec_canonical_of(
        p.method,
        spec_opt_str(p.content_md5),
        spec_opt_str(p.content_type),
        spec_opt_str(p.date),
        spec_opt_view(p.x_ufile_copy_source),
        spec_opt_view(p.x_ufile_copy_source_range),
        p.bucket@,
        p.key_name@,
    )
}

/// Build the canonical string of `param`.
pub fn canonical_string(param: &ObjectOptAuthParam) -> (r: String)
    ensures
        r@ == spec_canonical_string(*param),
{
    let mut s = param.method.as_str().to_owned();
    s.append("\n");
    if let Some(content_md5) = &param.content_md5 {
        s.append(content_md5.as_str());
    }
    s.append("\n");
    if let Some(content_type) = &param.content_type {
        s.append(content_type.as_str());
    }
    s.append("\n");
    if let Some(date) = &param.date {
        s.append(date.as_str());
    }
    s.append("\n");
    if let Some(copy_source) = &param.x_ufile_copy_source {
        s.append("x-ufile-copy-source:");
        s.append(copy_source.as_str());
        s.append("\n");
    }
    if let Some(copy_source_range) = &param.x_ufile_copy_source_range {
        s.append("x-ufile-copy-source-range:");
        s.append(copy_source_range.as_str());
        s.append("\n");
    }
    s.append("/");
    s.append(param.bucket.as_str());
    s.append("/");
    s.append(param.key_name.as_str());
    proof {
        assert(s@ =~= spec_canonical_string(*param));
    }
    s
}

/// The signature text of `data` under `private_key`: the base64 rendering of
/// the HMAC-SHA1 tag.
pub open spec fn spec_signature(private_key: Seq<char>, data: Seq<char>) -> Seq<char> {
    spec_base64(spec_hmac_sha1(private_key, data))
}

/// Compute the signature text of `data` under `private_key`.
pub(crate) fn compute_signature(private_key: &str, data: &str) -> (r: String)
    ensures
        r@ == spec_signature(private_key@, data@),
{
    let tag = hmac_sha1(private_key, data);
    base64_standard(tag.as_slice())
}

/// Something that can sign canonical data with a private key.
pub trait Signer {
    /// Method used to sign data.
    fn signature(&self, private_key: &str, data: &str) -> Result<String, UFileError>;
}

/// The HMAC-SHA1 signer that the service's protocol prescribes.
#[derive(Debug, Clone, Copy, PartialEq, Eq, Structural)]
pub struct HmacSha1Signer;

impl HmacSha1Signer {
    /// Sign `data` with `private_key`: base64 of the HMAC-SHA1 tag. Any byte
    /// string is a valid HMAC key, so this never fails in practice; the
    /// `Result` keeps the boundary's declared possibility of a key error.
    pub fn sign(&self, private_key: &str, data: &str) -> (r: Result<String, UFileError>)
        ensures
            r is Ok,
            r->Ok_0@ == spec_signature(private_key@, data@),
    {
        Ok(compute_signature(private_key, data))
    }
}

impl Signer for HmacSha1Signer {
    fn signature(&self, private_key: &str, data: &str) -> (r: Result<String, UFileError>)
        ensures
            r is Ok,
            r->Ok_0@ == spec_signature(private_key@, data@),
    {
        self.sign(private_key, data)
    }
}

/// The full `Authorization` header value over plain texts:
/// `UCloud {public_key}:{signature of the canonical string}`.
pub open spec fn spec_auth_value(
    public_key: Seq<char>,
    private_key: Seq<char>,
    canonical: Seq<char>,
) -> Seq<char> {
    "UCloud "@ + public_key + ":"@ + spec_signature(private_key, canonical)
}

/// The full `Authorization` header value for one operation's descriptor.
pub open spec fn spec_authorization(p: ObjectOptAuthParam, cfg: ObjectConfig) -> Seq<char> {
    spec_auth_value(cfg.public_key@, cfg.private_key@, spec_canonical_string(p))
}

/// Builds canonical strings and produces `Authorization` header values.
#[derive(Debug, Clone, Copy, PartialEq, Eq, Structural)]
pub struct AuthorizationService;

impl AuthorizationService {
    /// The `Authorization` header value for `param` under `object_config`.
    /// Deterministic: equal inputs always give the equal header value. The
    /// declared failure path is never taken (any key is a valid HMAC key).
    pub fn authorization(&self, param: &ObjectOptAuthParam, object_config: &ObjectConfig) -> (r:
        Result<String, UFileError>)
        ensures
            r is Ok,
            r->Ok_0@ == spec_authorization(*param, *object_config),
    {
        let sign_data = canonical_string(param);
        let signature = compute_signature(
            object_config.private_key.as_str(),
            sign_data.as_str(),
        );
        let mut header = "UCloud ".to_owned();
        header.append(object_config.public_key.as_str());
        header.append(":");
        header.append(signature.as_str());
        proof {
            assert(header@ =~= spec_authorization(*param, *object_config));
        }
        Ok(header)
    }
}

/// Build the `Authorization` header for one call that carries no copy-source
/// headers: the common case of every operation in this engine.
pub(crate) fn build_auth_header(
    method: HttpMethod,
    bucket: &str,
    key_name: &str,
    content_type: &str,
    content_md5: Option<&String>,
    date: &str,
    cfg: &ObjectConfig,
) -> (r: String)
    ensures
        r@ == spec_auth_value(
            cfg.public_key@,
            cfg.private_key@,
            spec_canonical_of(
                method,
                match content_md5 {
                    Some(m) => m@,
                    None => Seq::<char>::empty(),
                },
                content_type@,
                date@,
                None,
                None,
                bucket@,
                key_name@,
            ),
        ),
{
    let mut param = ObjectOptAuthParam::new(method, bucket.to_owned(), key_name.to_owned());
    param.content_type = Some(content_type.to_owned());
    param.content_md5 = match content_md5 {
        Some(m) => Some(m.clone()),
        None => None,
    };
    param.date = Some(date.to_owned());
    let service = AuthorizationService;
    service.authorization(&param, cfg).unwrap()
}

/// Signing is deterministic: two signatures of the same data under the same
/// key are the same text.
pub proof fn lemma_signature_deterministic(
    key: Seq<char>,
    data: Seq<char>,
    r1: Seq<char>,
    r2: Seq<char>,
)
    requires
        r1 == spec_signature(key, data),
        r2 == spec_signature(key, data),
    ensures
        r1 == r2,
{
}

/// Cancelling a common prefix of two equal strings leaves equal remainders.
proof fn lemma_prefix_cancel(p: Seq<char>, s1: Seq<char>, s2: Seq<char>)
    requires
        p + s1 == p + s2,
    ensures
        s1 == s2,
{
    assert((p + s1).len() == p.len() + s1.len());
    assert((p + s2).len() == p.len() + s2.len());
    assert(s1.len() == s2.len());
    assert forall|i: int| 0 <= i < s1.len() implies s1[i] == s2[i] by {
        assert((p + s1)[p.len() + i] == s1[i]);
        assert((p + s2)[p.len() + i] == s2[i]);
    }
    assert(s1 =~= s2);
}

/// A separator-terminated field can be read back uniquely: when neither
/// field contains the separator, equal concatenations force equal fields and
/// equal remainders.
proof fn lemma_sep_split_unique(sep: char, a1: Seq<char>, r1: Seq<char>, a2: Seq<char>, r2: Seq<
    char,
>)
    requires
        !a1.contains(sep),
        !a2.contains(sep),
        a1 + seq![sep] + r1 == a2 + seq![sep] + r2,
    ensures
        a1 == a2,
        r1 == r2,
{
    let s = a1 + seq![sep] + r1;
    if a1.len() < a2.len() {
        assert(s[a1.len() as int] == sep);
        assert(s[a1.len() as int] == a2[a1.len() as int]);
        assert(a2.contains(sep));
    } else if a2.len() < a1.len() {
        assert(s[a2.len() as int] == sep);
        assert(s[a2.len() as int] == a1[a2.len() as int]);
        assert(a1.contains(sep));
    }
    assert(a1.len() == a2.len());
    assert forall|i: int| 0 <= i < a1.len() implies a1[i] == a2[i] by {
        assert(s[i] == a1[i]);
        assert(s[i] == a2[i]);
    }
    assert(a1 =~= a2);
    lemma_prefix_cancel(a1 + seq![sep], r1, r2);
}

/// Every verb's wire name starts with the two characters that tell the five
/// verbs apart, and none of its characters is a newline.
proof fn lemma_method_tag(m: HttpMethod)
    ensures
        m.spec_str().len() >= 2,
        !m.spec_str().contains('\n'),
        m is Get ==> m.spec_str()[0] == 'G' && m.spec_str()[1] == 'E',
        m is Put ==> m.spec_str()[0] == 'P' && m.spec_str()[1] == 'U',
        m is Post ==> m.spec_str()[0] == 'P' && m.spec_str()[1] == 'O',
        m is Delete ==> m.spec_str()[0] == 'D' && m.spec_str()[1] == 'E',
        m is Head ==> m.spec_str()[0] == 'H' && m.spec_str()[1] == 'E',
{
    reveal_strlit("GET");
    reveal_strlit("PUT");
    reveal_strlit("POST");
    reveal_strlit("DELETE");
    reveal_strlit("HEAD");
    match m {
        HttpMethod::Get => {
            assert forall|i: int| 0 <= i < "GET"@.len() implies "GET"@[i] != '\n' by {}
        },
        HttpMethod::Put => {
            assert forall|i: int| 0 <= i < "PUT"@.len() implies "PUT"@[i] != '\n' by {}
        },
        HttpMethod::Post => {
            assert forall|i: int| 0 <= i < "POST"@.len() implies "POST"@[i] != '\n' by {}
        },
        HttpMethod::Delete => {
            assert forall|i: int| 0 <= i < "DELETE"@.len() implies "DELETE"@[i] != '\n' by {}
        },
        HttpMethod::Head => {
            assert forall|i: int| 0 <= i < "HEAD"@.len() implies "HEAD"@[i] != '\n' by {}
        },
    }
}

/// The five verbs have five different wire names.
proof fn lemma_method_str_injective(m1: HttpMethod, m2: HttpMethod)
    requires
        m1.spec_str() == m2.spec_str(),
    ensures
        m1 == m2,
{
    lemma_method_tag(m1);
    lemma_method_tag(m2);
    if m1 != m2 {
        assert(m1.spec_str()[0] == m2.spec_str()[0]);
        assert(m1.spec_str()[1] == m2.spec_str()[1]);
        assert(false);
    }
}

/// The canonical string's copy-source section.
spec fn nested_copies(p: ObjectOptAuthParam) -> Seq<char> {
    spec_copy_source_line(p.x_ufile_copy_source) + spec_copy_source_range_line(
        p.x_ufile_copy_source_range,
    )
}

/// The canonical string's bucket-and-key section, separator-first.
spec fn nested_inner(p: ObjectOptAuthParam) -> Seq<char> {
    p.bucket@ + seq!['/'] + p.key_name@
}

/// The canonical string's section after the Date line, grouped for reading
/// the fields back one by one.
spec fn nested_path(p: ObjectOptAuthParam) -> Seq<char> {
    nested_copies(p) + (seq!['/'] + nested_inner(p))
}

/// The canonical string's section after the method line, grouped likewise.
spec fn nested_tail(p: ObjectOptAuthParam) -> Seq<char> {
    spec_opt_str(p.content_md5) + seq!['\n'] + (spec_opt_str(p.content_type) + seq!['\n'] + (
    spec_opt_str(p.date) + seq!['\n'] + nested_path(p)))
}

/// The canonical string, regrouped: the same characters as
/// `spec_canonical_string`, associated so that each newline-joined field can
/// be split off in turn.
#[verifier::rlimit(100)]
proof fn lemma_canonical_nested(p: ObjectOptAuthParam)
    ensures
        spec_canonical_string(p) == p.method.spec_str() + seq!['\n'] + nested_tail(p),
{
    reveal_strlit("\n");
    reveal_strlit("/");
    assert("\n"@ =~= seq!['\n']);
    assert("/"@ =~= seq!['/']);
    match p.x_ufile_copy_source {
        Some(_) => match p.x_ufile_copy_source_range {
            Some(_) => {
                assert(spec_canonical_string(p) =~= p.method.spec_str() + seq!['\n']
                    + nested_tail(p));
            },
            None => {
                assert(spec_canonical_string(p) =~= p.method.spec_str() + seq!['\n']
                    + nested_tail(p));
            },
        },
        None => match p.x_ufile_copy_source_range {
            Some(_) => {
                assert(spec_canonical_string(p) =~= p.method.spec_str() + seq!['\n']
                    + nested_tail(p));
            },
            None => {
                assert(spec_canonical_string(p) =~= p.method.spec_str() + seq!['\n']
                    + nested_tail(p));
            },
        },
    }
}

/// Canonical-string construction is injective over the signed fields: two
/// descriptors with the same canonical string agree on method, Content-MD5,
/// Content-Type, Date, bucket and key — so changing any one of them changes
/// the canonical string, and with it the data handed to the signer. This
/// needs the newline-joined fields to be newline-free and the bucket to be
/// slash-free, since those characters are the joiners.
pub proof fn lemma_canonical_string_injective(p1: ObjectOptAuthParam, p2: ObjectOptAuthParam)
    requires
        spec_canonical_string(p1) == spec_canonical_string(p2),
        !spec_opt_str(p1.content_md5).contains('\n'),
        !spec_opt_str(p2.content_md5).contains('\n'),
        !spec_opt_str(p1.content_type).contains('\n'),
        !spec_opt_str(p2.content_type).contains('\n'),
        !spec_opt_str(p1.date).contains('\n'),
        !spec_opt_str(p2.date).contains('\n'),
        !p1.bucket@.contains('/'),
        !p2.bucket@.contains('/'),
        spec_copy_source_line(p1.x_ufile_copy_source) == spec_copy_source_line(
            p2.x_ufile_copy_source,
        ),
        spec_copy_source_range_line(p1.x_ufile_copy_source_range) == spec_copy_source_range_line(
            p2.x_ufile_copy_source_range,
        ),
    ensures
        p1.method == p2.method,
        spec_opt_str(p1.content_md5) == spec_opt_str(p2.content_md5),
        spec_opt_str(p1.content_type) == spec_opt_str(p2.content_type),
        spec_opt_str(p1.date) == spec_opt_str(p2.date),
        p1.bucket@ == p2.bucket@,
        p1.key_name@ == p2.key_name@,
{
    let nl = '\n';
    let sl = '/';
    lemma_canonical_nested(p1);
    lemma_canonical_nested(p2);
    lemma_method_tag(p1.method);
    lemma_method_tag(p2.method);
    lemma_sep_split_unique(
        nl,
        p1.method.spec_str(),
        nested_tail(p1),
        p2.method.spec_str(),
        nested_tail(p2),
    );
    lemma_method_str_injective(p1.method, p2.method);
    lemma_sep_split_unique(
        nl,
        spec_opt_str(p1.content_md5),
        spec_opt_str(p1.content_type) + seq![nl] + (spec_opt_str(p1.date) + seq![nl]
            + nested_path(p1)),
        spec_opt_str(p2.content_md5),
        spec_opt_str(p2.content_type) + seq![nl] + (spec_opt_str(p2.date) + seq![nl]
            + nested_path(p2)),
    );
    lemma_sep_split_unique(
        nl,
        spec_opt_str(p1.content_type),
        spec_opt_str(p1.date) + seq![nl] + nested_path(p1),
        spec_opt_str(p2.content_type),
        spec_opt_str(p2.date) + seq![nl] + nested_path(p2),
    );
    lemma_sep_split_unique(nl, spec_opt_str(p1.date), nested_path(p1), spec_opt_str(p2.date), nested_path(p2));
    assert(nested_copies(p1) == nested_copies(p2));
    lemma_prefix_cancel(
        nested_copies(p1),
        seq![sl] + nested_inner(p1),
        seq![sl] + nested_inner(p2),
    );
    lemma_prefix_cancel(seq![sl], nested_inner(p1), nested_inner(p2));
    lemma_sep_split_unique(sl, p1.bucket@, p1.key_name@, p2.bucket@, p2.key_name@);
}

} // verus!
