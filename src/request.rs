//! Building one outbound request: URL, authentication headers and content
//! type, and the treatment of the status that comes back.
use vstd::prelude::*;
use vstd::string::*;
use crate::decimal::{dec_of, decimal_string};
use crate::error::ApiError;
use crate::signing::{get_signature, signature_of};
use crate::endpoints::{ApiRequest, owned_params_view};
use crate::types::{Params, params_view, push_param};
use std::time::{Instant, SystemTime};

verus! {

/// The origin that every path is relative to.
pub const API_BASE: &'static str = "https://coincheck.com";

/// The header that carries the nonce.
pub const NONCE_HEADER: &'static str = "ACCESS-NONCE";

/// The header that carries the signature.
pub const SIGNATURE_HEADER: &'static str = "ACCESS-SIGNATURE";

/// The header that carries the access key.
pub const KEY_HEADER: &'static str = "ACCESS-KEY";

/// The content-type header, by its lowercase name.
pub const CONTENT_TYPE_HEADER: &'static str = "content-type";

/// The content type of POST and DELETE requests.
pub const CONTENT_TYPE_JSON: &'static str = "application/json";

/// An HTTP method.
#[derive(Debug, Clone, Copy, PartialEq, Eq, Structural)]
pub enum HttpMethod {
    Get,
    Post,
    Put,
    Delete,
    Head,
    Options,
    Connect,
    Patch,
    Trace,
}

impl HttpMethod {
    /// The methods this API is called with.
    pub open spec fn is_supported(self) -> bool {
        self is Get || self is Post || self is Delete
    }

    /// POST and DELETE carry a JSON content type.
    pub open spec fn has_json_body(self) -> bool {
        self is Post || self is Delete
    }
}

/// The access key and the secret key; either may be absent.
#[derive(Debug, PartialEq, Eq)]
pub struct Credentials {
    pub access_key: Option<String>,
    pub secret_key: Option<String>,
}

/// What a built request holds, as values.
pub struct RequestView {
    pub method: HttpMethod,
    pub url: Seq<char>,
    pub headers: Seq<(Seq<char>, Seq<char>)>,
}

/// A request ready to be sent: method, full URL, and headers in the order
/// they were set.
#[derive(Debug, PartialEq, Eq)]
pub struct PreparedRequest {
    pub method: HttpMethod,
    pub url: String,
    pub headers: Vec<(String, String)>,
}

impl PreparedRequest {
    pub open spec fn view(&self) -> RequestView {
        RequestView { method: self.method, url: self.url@, headers: params_view(self.headers@) }
    }
}

pub open spec fn result_view(r: Result<PreparedRequest, ApiError>) -> Result<RequestView, ApiError> {
    match r {
        Ok(p) => Ok(p.view()),
        Err(e) => Err(e),
    }
}

pub open spec fn opt_params_view(p: Option<&Params>) -> Option<Seq<(Seq<char>, Seq<char>)>> {
    match p {
        Some(v) => Some(params_view(v@)),
        None => None,
    }
}

pub open spec fn opt_text_view(o: Option<String>) -> Option<Seq<char>> {
    match o {
        Some(s) => Some(s@),
        None => None,
    }
}

/// The serialization of the URL that `Url::parse` reads from `s`, if it reads one.
pub uninterp spec fn parsed_url_of(s: Seq<char>) -> Option<Seq<char>>;

/// The serialization of the URL that `Url::parse_with_params` makes from `s`
/// and the form-encoded `params`, if `s` parses.
pub uninterp spec fn url_with_params_of(s: Seq<char>, params: Seq<(Seq<char>, Seq<char>)>) -> Option<Seq<char>>;

/// Relies on `Url::parse` and `Url::as_str` of the url crate, as re-exported
/// by reqwest: the result depends on the text alone.
#[verifier::external_body]
fn parse_url(s: &str) -> (r: Option<String>)
    ensures
        opt_text_view(r) == parsed_url_of(s@),
{
    match reqwest::Url::parse(s) {
        Ok(u) => Some(u.as_str().to_owned()),
        Err(_) => None,
    }
}

/// Relies on `Url::parse_with_params` and `Url::as_str` of the url crate, as
/// re-exported by reqwest: the pairs are form-encoded in the order given.
#[verifier::external_body]
fn parse_url_with_params(s: &str, params: &Params) -> (r: Option<String>)
    ensures
        opt_text_view(r) == url_with_params_of(s@, params_view(params@)),
{
    match reqwest::Url::parse_with_params(s, params) {
        Ok(u) => Some(u.as_str().to_owned()),
        Err(_) => None,
    }
}

/// The full URL of `path` on the API's origin, with `params` as its query.
pub open spec fn url_text_of(path: Seq<char>, params: Option<Seq<(Seq<char>, Seq<char>)>>) -> Option<Seq<char>> {
    match params {
        Some(p) => url_with_params_of(API_BASE@ + path, p),
        None => parsed_url_of(API_BASE@ + path),
    }
}

/// Builds the full URL of `path` with `params` as its query.
pub fn build_url(path: &str, params: Option<&Params>) -> (r: Result<String, ApiError>)
    ensures
        match url_text_of(path@, opt_params_view(params)) {
            Some(u) => r is Ok && r->Ok_0@ == u,
            None => r == Err::<String, ApiError>(ApiError::InvalidUrl),
        },
{
    let text = API_BASE.to_owned().concat(path);
    let parsed = match params {
        Some(p) => parse_url_with_params(text.as_str(), p),
        None => parse_url(text.as_str()),
    };
    match parsed {
        Some(u) => Ok(u),
        None => Err(ApiError::InvalidUrl),
    }
}

/// The three authentication headers, in the order they are set: nonce,
/// signature of nonce followed by URL, access key.
pub open spec fn auth_headers_of(
    access_key: Seq<char>,
    secret_key: Seq<char>,
    nonce: Seq<char>,
    url: Seq<char>,
) -> Seq<(Seq<char>, Seq<char>)> {
    seq![
        (NONCE_HEADER@, nonce),
        (SIGNATURE_HEADER@, signature_of(secret_key, nonce + url)),
        (KEY_HEADER@, access_key),
    ]
}

/// The content-type header that POST and DELETE carry.
pub open spec fn content_headers_of(method: HttpMethod) -> Seq<(Seq<char>, Seq<char>)> {
    if method.has_json_body() {
        seq![(CONTENT_TYPE_HEADER@, CONTENT_TYPE_JSON@)]
    } else {
        Seq::empty()
    }
}

/// The authentication headers of a request to `url`, signed with the nonce.
pub fn auth_headers(access_key: &str, secret_key: &str, nonce: &str, url: &str) -> (r: Result<
    Params,
    ApiError,
>)
    ensures
        r is Ok,
        params_view(r->Ok_0@) == auth_headers_of(access_key@, secret_key@, nonce@, url@),
{
    let message = nonce.to_owned().concat(url);
    let signature = match get_signature(secret_key, message.as_str()) {
        Ok(s) => s,
        Err(e) => return Err(e),
    };
    let mut headers: Params = Vec::new();
    push_param(&mut headers, NONCE_HEADER, nonce.to_owned());
    push_param(&mut headers, SIGNATURE_HEADER, signature);
    push_param(&mut headers, KEY_HEADER, access_key.to_owned());
    assert(params_view(headers@) =~= auth_headers_of(access_key@, secret_key@, nonce@, url@));
    Ok(headers)
}

/// What a request comes to, given the nonce it would be signed with: the
/// method is checked first, then the URL, then the keys.
pub open spec fn spec_prepare(
    credentials: Credentials,
    method: HttpMethod,
    path: Seq<char>,
    params: Option<Seq<(Seq<char>, Seq<char>)>>,
    use_auth: bool,
    nonce: Seq<char>,
) -> Result<RequestView, ApiError> {
    if !method.is_supported() {
        Err(ApiError::UnsupportedMethod)
    } else {
        match url_text_of(path, params) {
            None => Err(ApiError::InvalidUrl),
            Some(url) => {
                if !use_auth {
                    Ok(RequestView { method, url, headers: content_headers_of(method) })
                } else {
                    match (credentials.access_key, credentials.secret_key) {
                        (Some(a), Some(s)) => Ok(
                            RequestView {
                                method,
                                url,
                                headers: auth_headers_of(a@, s@, nonce, url) + content_headers_of(method),
                            },
                        ),
                        _ => Err(ApiError::MissingCredentials),
                    }
                }
            },
        }
    }
}

/// Builds a request, signing it with `nonce` where `use_auth` holds.
pub fn prepare_request(
    credentials: &Credentials,
    method: HttpMethod,
    path: &str,
    params: Option<&Params>,
    use_auth: bool,
    nonce: &str,
) -> (r: Result<PreparedRequest, ApiError>)
    ensures
        result_view(r) == spec_prepare(*credentials, method, path@, opt_params_view(params), use_auth, nonce@),
{
    match method {
        HttpMethod::Get | HttpMethod::Post | HttpMethod::Delete => {},
        _ => return Err(ApiError::UnsupportedMethod),
    }
    let url = match build_url(path, params) {
        Ok(u) => u,
        Err(e) => return Err(e),
    };
    let mut headers: Params = if use_auth {
        match (&credentials.access_key, &credentials.secret_key) {
            (Some(a), Some(s)) => match auth_headers(a.as_str(), s.as_str(), nonce, url.as_str()) {
                Ok(h) => h,
                Err(e) => return Err(e),
            },
            _ => return Err(ApiError::MissingCredentials),
        }
    } else {
        Vec::new()
    };
    let ghost before = params_view(headers@);
    if method == HttpMethod::Post || method == HttpMethod::Delete {
        push_param(&mut headers, CONTENT_TYPE_HEADER, CONTENT_TYPE_JSON.to_owned());
    }
    assert(params_view(headers@) =~= before + content_headers_of(method));
    let r = PreparedRequest { method, url, headers };
    assert(result_view(Ok(r)) == spec_prepare(*credentials, method, path@, opt_params_view(params), use_auth, nonce@));
    Ok(r)
}

#[verifier::external_type_specification]
#[verifier::external_body]
pub struct ExSystemTime(SystemTime);

/// Relies on `SystemTime::now` of std: a reading of the system clock.
#[verifier::external_body]
fn system_now() -> (r: SystemTime) {
    SystemTime::now()
}

/// Relies on `SystemTime::duration_since` of std, measured from
/// `UNIX_EPOCH` and counted in whole microseconds; nothing where the time
/// lies before the epoch.
#[verifier::external_body]
fn micros_since_epoch(t: &SystemTime) -> (r: Option<u128>) {
    match t.duration_since(SystemTime::UNIX_EPOCH) {
        Ok(d) => Some(d.as_micros()),
        Err(_) => None,
    }
}

/// A fresh nonce: the decimal microseconds since the Unix epoch, read from
/// the system clock at the call.
pub fn get_nonce() -> (r: Result<String, ApiError>)
    ensures
        r is Err ==> r == Err::<String, ApiError>(ApiError::Clock),
        r is Ok ==> exists|n: nat| r->Ok_0@ == dec_of(n),
{
    match micros_since_epoch(&system_now()) {
        Some(m) => Ok(decimal_string(m)),
        None => Err(ApiError::Clock),
    }
}

/// Whether an HTTP status is a client or server error (4xx or 5xx).
pub open spec fn is_error_status(status: u16) -> bool {
    400 <= status && status < 600
}

/// Hands the body on for decoding, or turns a 4xx or 5xx status into an error
/// that carries the status and the body.
pub fn check_status(status: u16, body: String) -> (r: Result<String, ApiError>)
    ensures
        is_error_status(status) ==> r == Err::<String, ApiError>(ApiError::ApiStatus { status, body }),
        !is_error_status(status) ==> r == Ok::<String, ApiError>(body),
{
    if 400 <= status && status < 600 {
        Err(ApiError::ApiStatus { status, body })
    } else {
        Ok(body)
    }
}

proof fn lemma_header_names_distinct()
    ensures
        CONTENT_TYPE_HEADER@ != NONCE_HEADER@,
        CONTENT_TYPE_HEADER@ != SIGNATURE_HEADER@,
        CONTENT_TYPE_HEADER@ != KEY_HEADER@,
{
    reveal_strlit("content-type");
    reveal_strlit("ACCESS-NONCE");
    reveal_strlit("ACCESS-SIGNATURE");
    reveal_strlit("ACCESS-KEY");
    assert(CONTENT_TYPE_HEADER@[0] != NONCE_HEADER@[0]);
    assert(CONTENT_TYPE_HEADER@[0] != SIGNATURE_HEADER@[0]);
    assert(CONTENT_TYPE_HEADER@[0] != KEY_HEADER@[0]);
}

/// A request built without authentication carries none of the three
/// authentication headers, whatever keys the client holds.
pub proof fn lemma_no_auth_headers_without_auth(
    credentials: Credentials,
    method: HttpMethod,
    path: Seq<char>,
    params: Option<Seq<(Seq<char>, Seq<char>)>>,
    nonce: Seq<char>,
)
    ensures
        spec_prepare(credentials, method, path, params, false, nonce) matches Ok(v) ==> forall|i: int|
            0 <= i < v.headers.len() ==> {
                &&& v.headers[i].0 != NONCE_HEADER@
                &&& v.headers[i].0 != SIGNATURE_HEADER@
                &&& v.headers[i].0 != KEY_HEADER@
            },
{
    lemma_header_names_distinct();
}

/// An authenticated request on a client that lacks either key is refused
/// before anything is sent.
pub proof fn lemma_auth_needs_keys(
    credentials: Credentials,
    method: HttpMethod,
    path: Seq<char>,
    params: Option<Seq<(Seq<char>, Seq<char>)>>,
    nonce: Seq<char>,
)
    requires
        credentials.access_key is None || credentials.secret_key is None,
    ensures
        spec_prepare(credentials, method, path, params, true, nonce) is Err,
{
}

/// An authenticated request that is built carries the nonce, the signature
/// of the nonce followed by the very URL it is sent to, and the access key,
/// in that order, then the content type for POST and DELETE.
pub proof fn lemma_signature_covers_sent_url(
    credentials: Credentials,
    method: HttpMethod,
    path: Seq<char>,
    params: Option<Seq<(Seq<char>, Seq<char>)>>,
    nonce: Seq<char>,
)
    ensures
        spec_prepare(credentials, method, path, params, true, nonce) matches Ok(v) ==> {
            &&& credentials.access_key is Some
            &&& credentials.secret_key is Some
            &&& v.headers.len() == 3 + content_headers_of(method).len()
            &&& v.headers[0] == (NONCE_HEADER@, nonce)
            &&& v.headers[1] == (SIGNATURE_HEADER@, signature_of(credentials.secret_key->Some_0@, nonce + v.url))
            &&& v.headers[2] == (KEY_HEADER@, credentials.access_key->Some_0@)
            &&& v.headers.subrange(3, v.headers.len() as int) == content_headers_of(method)
            &&& Some(v.url) == url_text_of(path, params)
        },
{
    if let Ok(v) = spec_prepare(credentials, method, path, params, true, nonce) {
        assert(v.headers.subrange(3, v.headers.len() as int) =~= content_headers_of(method));
    }
}

#[verifier::external_type_specification]
#[verifier::external_body]
pub struct ExInstant(Instant);

/// Relies on `Instant::now` of std: a reading of the monotonic clock.
#[verifier::external_body]
fn instant_now() -> (r: Instant) {
    Instant::now()
}

/// The keys a client was made with, and the time of its last request.
pub struct Client {
    credentials: Credentials,
    last_request_time: Instant,
}

impl Client {
    /// The keys; they never change after construction.
    pub closed spec fn spec_credentials(&self) -> Credentials {
        self.credentials
    }

    /// A client with the given keys; with either absent only unauthenticated
    /// requests can be built.
    pub fn new(access_key: Option<String>, secret_key: Option<String>) -> (r: Client)
        ensures
            r.spec_credentials() == (Credentials { access_key, secret_key }),
    {
        Client { credentials: Credentials { access_key, secret_key }, last_request_time: instant_now() }
    }

    pub fn credentials(&self) -> (r: &Credentials)
        ensures
            *r == self.spec_credentials(),
    {
        &self.credentials
    }

    /// When the last request was built.
    pub fn last_request_time(&self) -> (r: Instant) {
        self.last_request_time
    }

    /// Builds one request. It records the time, reads the clock for a nonce
    /// where `use_auth` holds, and signs the full URL with it.
    pub fn request(
        &mut self,
        method: HttpMethod,
        path: &str,
        params: Option<&Params>,
        use_auth: bool,
    ) -> (r: Result<PreparedRequest, ApiError>)
        ensures
            final(self).spec_credentials() == old(self).spec_credentials(),
            !use_auth ==> result_view(r) == spec_prepare(
                old(self).spec_credentials(),
                method,
                path@,
                opt_params_view(params),
                use_auth,
                Seq::empty(),
            ),
            use_auth ==> r == Err::<PreparedRequest, ApiError>(ApiError::Clock) || exists|n: nat|
                result_view(r) == spec_prepare(
                    old(self).spec_credentials(),
                    method,
                    path@,
                    opt_params_view(params),
                    use_auth,
                    dec_of(n),
                ),
    {
        self.last_request_time = instant_now();
        let nonce = if use_auth {
            match get_nonce() {
                Ok(n) => n,
                Err(e) => return Err(e),
            }
        } else {
            String::new()
        };
        prepare_request(&self.credentials, method, path, params, use_auth, nonce.as_str())
    }

    /// Builds the request of one endpoint call.
    pub fn request_call(&mut self, call: &ApiRequest) -> (r: Result<PreparedRequest, ApiError>)
        ensures
            final(self).spec_credentials() == old(self).spec_credentials(),
            !call.use_auth ==> result_view(r) == spec_prepare(
                old(self).spec_credentials(),
                call.method,
                call.path@,
                owned_params_view(call.params),
                false,
                Seq::empty(),
            ),
            call.use_auth ==> r == Err::<PreparedRequest, ApiError>(ApiError::Clock) || exists|n: nat|
                result_view(r) == spec_prepare(
                    old(self).spec_credentials(),
                    call.method,
                    call.path@,
                    owned_params_view(call.params),
                    true,
                    dec_of(n),
                ),
    {
        let params: Option<&Params> = match &call.params {
            Some(p) => Some(p),
            None => None,
        };
        self.request(call.method, call.path.as_str(), params, call.use_auth)
    }
}

} // verus!
