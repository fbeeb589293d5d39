//! Building shareable object URLs: the plain public form, and the pre-signed
//! private form that carries a signature and an expiry time.

use vstd::prelude::*;
use vstd::string::StringExecFns;
use crate::auth::spec_signature;
use crate::codec::{spec_url_encode, url_encode};
use crate::error::UFileError;
use crate::http::HttpMethod;
use crate::object::{spec_final_host, spec_private_url_sign_data, ObjectConfig};
use crate::text::{spec_dec, u64_to_dec};

verus! {

/// Request for generating a public URL.
pub struct GenPublicUrlRequest {
    /// Required: Bucket name.
    pub bucket_name: String,
    /// Required: Object name.
    pub key_name: String,
    /// Optional: IOP command for image operations.
    pub iop_cmd: Option<String>,
}

/// The public URL: the object's URL, with the IOP command appended as its
/// only query parameter when given.
pub open spec fn spec_public_url(cfg: ObjectConfig, req: GenPublicUrlRequest) -> Seq<char> {
    spec_final_host(cfg, req.bucket_name@, req.key_name@) + (match req.iop_cmd {
        Some(cmd) => "?iopcmd="@ + cmd@,
        None => Seq::<char>::empty(),
    })
}

/// Builds public object URLs from one configuration.
pub struct GenPublicUrlOperation {
    object_config: ObjectConfig,
}

impl GenPublicUrlOperation {
    /// An operation over the given configuration.
    pub fn new(object_config: ObjectConfig) -> (r: Self)
        ensures
            r.spec_config() == object_config,
    {
        GenPublicUrlOperation { object_config }
    }

    /// The configuration the operation builds URLs from.
    pub closed spec fn spec_config(self) -> ObjectConfig {
        self.object_config
    }

    /// Build the public URL for `req`.
    pub fn execute(&self, req: GenPublicUrlRequest) -> (r: Result<String, UFileError>)
        ensures
            r is Ok,
            r->Ok_0@ == spec_public_url(self.spec_config(), req),
    {
        let mut url = self.object_config.generate_final_host(
            req.bucket_name.as_str(),
            req.key_name.as_str(),
        );
        if let Some(iop_cmd) = &req.iop_cmd {
            url.append("?iopcmd=");
            url.append(iop_cmd.as_str());
        }
        proof {
            assert(url@ =~= spec_public_url(self.spec_config(), req));
        }
        Ok(url)
    }
}

/// Request for generating private URL which will be expired in `expires`
/// seconds.
pub struct GenPrivateUrlRequest {
    /// Required: Bucket name.
    pub bucket_name: String,
    /// Required: Object name.
    pub key_name: String,
    /// Required: Expire time in seconds from now.
    pub expires: u64,
    /// Optional: IOP command for image operations.
    pub iop_cmd: Option<String>,
    /// Optional: Attachment filename.
    pub attachment_filename: Option<String>,
    /// Optional: Security token.
    pub security_token: Option<String>,
}

/// One optional query parameter of a private URL, percent-encoded.
pub open spec fn spec_opt_query_encoded(name: Seq<char>, v: Option<String>) -> Seq<char> {
    match v {
        Some(s) => name + spec_url_encode(s@),
        None => Seq::<char>::empty(),
    }
}

/// The pre-signed private URL: the object's URL carrying the public key, the
/// signature over `GET`, the absolute expiry time and the object path, the
/// expiry time itself, and the optional attachment name, security token and
/// IOP command — every parameter value percent-encoded.
pub open spec fn spec_private_url(
    cfg: ObjectConfig,
    req: GenPrivateUrlRequest,
    expire_time: u64,
) -> Seq<char> {
    spec_final_host(cfg, req.bucket_name@, req.key_name@) + "?UCloudPublicKey="@
        + spec_url_encode(cfg.public_key@) + "&Signature="@ + spec_url_encode(
        spec_signature(
            cfg.private_key@,
            spec_private_url_sign_data(
                HttpMethod::Get,
                req.bucket_name@,
                req.key_name@,
                expire_time,
            ),
        ),
    ) + "&Expires="@ + spec_url_encode(spec_dec(expire_time as int)) + spec_opt_query_encoded(
        "&ufileattname="@,
        req.attachment_filename,
    ) + spec_opt_query_encoded("&SecurityToken="@, req.security_token) + spec_opt_query_encoded(
        "&iopcmd="@,
        req.iop_cmd,
    )
}

/// Builds pre-signed private object URLs from one configuration.
pub struct GenPrivateUrlOperation {
    object_config: ObjectConfig,
}

impl GenPrivateUrlOperation {
    /// An operation over the given configuration.
    pub fn new(object_config: ObjectConfig) -> (r: Self)
        ensures
            r.spec_config() == object_config,
    {
        GenPrivateUrlOperation { object_config }
    }

    /// The configuration the operation builds URLs from.
    pub closed spec fn spec_config(self) -> ObjectConfig {
        self.object_config
    }

    /// Build the private URL for `req`, valid until `req.expires` seconds
    /// after `now_epoch_secs` (seconds since the epoch, supplied by the
    /// caller's clock). Succeeds exactly when bucket and key are non-empty
    /// and the absolute expiry time is non-zero.
    pub fn execute(&self, req: GenPrivateUrlRequest, now_epoch_secs: u64) -> (r: Result<
        String,
        UFileError,
    >)
        requires
            req.expires + now_epoch_secs <= u64::MAX,
        ensures
            r is Ok <==> req.bucket_name@.len() > 0 && req.key_name@.len() > 0 && req.expires
                + now_epoch_secs > 0,
            r matches Ok(url) ==> url@ == spec_private_url(
                self.spec_config(),
                req,
                (req.expires + now_epoch_secs) as u64,
            ),
    {
        let expire_time: u64 = req.expires + now_epoch_secs;
        let signature = match self.object_config.authorization_private_url(
            HttpMethod::Get,
            req.bucket_name.as_str(),
            req.key_name.as_str(),
            expire_time,
        ) {
            Ok(s) => s,
            Err(e) => {
                return Err(e);
            },
        };
        let expire_text = u64_to_dec(expire_time);
        let mut url = self.object_config.generate_final_host(
            req.bucket_name.as_str(),
            req.key_name.as_str(),
        );
        url.append("?UCloudPublicKey=");
        url.append(url_encode(self.object_config.public_key.as_str()).as_str());
        url.append("&Signature=");
        url.append(url_encode(signature.as_str()).as_str());
        url.append("&Expires=");
        url.append(url_encode(expire_text.as_str()).as_str());
        if let Some(attachment_filename) = &req.attachment_filename {
            url.append("&ufileattname=");
            url.append(url_encode(attachment_filename.as_str()).as_str());
        }
        if let Some(security_token) = &req.security_token {
            url.append("&SecurityToken=");
            url.append(url_encode(security_token.as_str()).as_str());
        }
        if let Some(iop_cmd) = &req.iop_cmd {
            url.append("&iopcmd=");
            url.append(url_encode(iop_cmd.as_str()).as_str());
        }
        proof {
            assert(url@ =~= spec_private_url(self.spec_config(), req, expire_time));
        }
        Ok(url)
    }
}

/// One optional query parameter of a private URL, sent as given.
pub open spec fn spec_opt_query_plain(name: Seq<char>, v: Option<String>) -> Seq<char> {
    match v {
        Some(s) => name + s@,
        None => Seq::<char>::empty(),
    }
}

/// The private URL in the plain form: the same parameters as the pre-signed
/// URL, none of them percent-encoded.
pub open spec fn spec_private_url_plain(
    cfg: ObjectConfig,
    api: GenPrivateUrlApi,
    expire_time: u64,
) -> Seq<char> {
    spec_final_host(cfg, api.bucket_name@, api.key_name@) + "?UCloudPublicKey="@ + cfg.public_key@
        + "&Signature="@ + spec_signature(
        cfg.private_key@,
        spec_private_url_sign_data(HttpMethod::Get, api.bucket_name@, api.key_name@, expire_time),
    ) + "&Expires="@ + spec_dec(expire_time as int) + spec_opt_query_plain(
        "&ufileattname="@,
        api.attachment_filename,
    ) + spec_opt_query_plain("&SecurityToken="@, api.security_token) + spec_opt_query_plain(
        "&iopcmd="@,
        api.iop_cmd,
    )
}

/// This struct describe the request of generating private URL.
pub struct GenPrivateUrlApi {
    /// Bucket name
    pub bucket_name: String,
    /// Object name.
    pub key_name: String,
    /// Expire time duration from now in seconds; must be greater than 0.
    pub expires: u64,
    /// IOP command used for image objects.
    pub iop_cmd: Option<String>,
    /// Attachment filename, sent under the key `ufileattname`.
    pub attachment_filename: Option<String>,
    /// STS temporary security token.
    pub security_token: Option<String>,
}

impl GenPrivateUrlApi {
    /// Build the private URL, valid until `expires` seconds after
    /// `now_epoch_secs` (seconds since the epoch, supplied by the caller's
    /// clock). Succeeds exactly when bucket and key are non-empty and the
    /// absolute expiry time is non-zero.
    pub fn execute(&self, object_config: &ObjectConfig, now_epoch_secs: u64) -> (r: Result<
        String,
        UFileError,
    >)
        requires
            self.expires + now_epoch_secs <= u64::MAX,
        ensures
            r is Ok <==> self.bucket_name@.len() > 0 && self.key_name@.len() > 0 && self.expires
                + now_epoch_secs > 0,
            r matches Ok(url) ==> url@ == spec_private_url_plain(
                *object_config,
                *self,
                (self.expires + now_epoch_secs) as u64,
            ),
    {
        let expire_time: u64 = self.expires + now_epoch_secs;
        let signature = match object_config.authorization_private_url(
            HttpMethod::Get,
            self.bucket_name.as_str(),
            self.key_name.as_str(),
            expire_time,
        ) {
            Ok(s) => s,
            Err(e) => {
                return Err(e);
            },
        };
        let mut url = object_config.generate_final_host(
            self.bucket_name.as_str(),
            self.key_name.as_str(),
        );
        url.append("?UCloudPublicKey=");
        url.append(object_config.public_key.as_str());
        url.append("&Signature=");
        url.append(signature.as_str());
        url.append("&Expires=");
        url.append(u64_to_dec(expire_time).as_str());
        if let Some(attachment_filename) = &self.attachment_filename {
            url.append("&ufileattname=");
            url.append(attachment_filename.as_str());
        }
        if let Some(security_token) = &self.security_token {
            url.append("&SecurityToken=");
            url.append(security_token.as_str());
        }
        if let Some(iop_cmd) = &self.iop_cmd {
            url.append("&iopcmd=");
            url.append(iop_cmd.as_str());
        }
        proof {
            assert(url@ =~= spec_private_url_plain(*object_config, *self, expire_time));
        }
        Ok(url)
    }
}

} // verus!
