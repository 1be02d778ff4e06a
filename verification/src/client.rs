//! The client typestate: an unauthenticated client holding credentials, a
//! one-way, consuming transition to an authenticated client holding a token,
//! and the single call path that all endpoint operations funnel through,
//! with its status classifier.

pub mod authenticate;
pub mod get_home_status;
pub mod get_homes_data;
pub mod get_measure;
pub mod get_station_data;
pub mod set_room_thermpoint;
pub mod transport;
pub mod wire;

use vstd::prelude::*;
use vstd::string::*;

use crate::client::authenticate::{is_decoded_token, Scope, Token};
use crate::client::wire::ParamMap;
use crate::errors::{
    has_some_text_cause, has_text_cause, is_call_failure_for, is_endpoint_failure_for, Error,
    ErrorCause, ErrorKind,
};

verus! {

/// The protected endpoint operations that an authenticated client offers.
/// Every method is one request/response round trip on the authenticated call
/// path, and every failure is attributed to the operation's name.
pub trait Netatmo {
    /// Fetch the home status; the raw success body is returned, its typed
    /// decoding standing outside the verified core.
    fn get_home_status(&self, parameters: &get_home_status::Parameters) -> (r: Result<
        String,
        Error,
    >)
        ensures
            r matches Err(e) ==> is_call_failure_for(e.kind, "homestatus"@),
    ;

    /// Fetch the home structure; the raw success body is returned, its typed
    /// decoding standing outside the verified core.
    fn get_homes_data(&self, parameters: &get_homes_data::Parameters) -> (r: Result<String, Error>)
        ensures
            r matches Err(e) ==> is_call_failure_for(e.kind, "homesdata"@),
    ;

    /// Fetch station data; the raw success body is returned, its typed
    /// decoding standing outside the verified core.
    fn get_station_data(&self, device_id: &str) -> (r: Result<String, Error>)
        ensures
            r matches Err(e) ==> is_call_failure_for(e.kind, "getstationsdata"@),
    ;

    /// Fetch measurements; the raw success body is returned, its typed
    /// decoding standing outside the verified core.
    fn get_measure(&self, parameters: &get_measure::Parameters) -> (r: Result<String, Error>)
        ensures
            r matches Err(e) ==> is_call_failure_for(e.kind, "getmeasure"@),
    ;

    /// Write a room setpoint and decode the typed success response.
    fn set_room_thermpoint(&self, parameters: &set_room_thermpoint::Parameters) -> (r: Result<
        set_room_thermpoint::Response,
        Error,
    >)
        ensures
            r matches Err(e) ==> is_endpoint_failure_for(e.kind, "setroomthermpoint"@),
    ;
}

/// The immutable pair of client identifier and client secret, supplied once.
#[derive(Debug)]
pub struct ClientCredentials {
    pub client_id: String,
    pub client_secret: String,
}

impl Clone for ClientCredentials {
    /// Cloning keeps both fields.
    fn clone(&self) -> (r: Self)
        ensures
            r == *self,
    {
        ClientCredentials {
            client_id: self.client_id.clone(),
            client_secret: self.client_secret.clone(),
        }
    }
}

/// The factory for clients: builds an unauthenticated client from
/// credentials, or an authenticated one from an externally obtained token.
pub struct NetatmoClient {}

impl NetatmoClient {
    /// A new, unauthenticated client for the given credentials, pointed at
    /// the vendor's API. Pure construction: no request is made.
    pub fn new(client_credentials: &ClientCredentials) -> (r: UnauthenticatedClient)
        ensures
            r.spec_credentials() == *client_credentials,
            r.spec_base_url() == "https://api.netatmo.com"@,
    {
        UnauthenticatedClient {
            client_credentials: client_credentials.clone(),
            base_url: "https://api.netatmo.com".to_owned(),
            http: transport::new_http_client(),
        }
    }

    /// An authenticated client carrying an externally obtained token. No
    /// login is performed and no expiry checking happens: the caller answers
    /// for the token's validity.
    pub fn with_token(token: Token) -> (r: AuthenticatedClient)
        ensures
            r.spec_token() == token,
            r.spec_base_url() == "https://api.netatmo.com"@,
    {
        AuthenticatedClient {
            token,
            base_url: "https://api.netatmo.com".to_owned(),
            http: transport::new_http_client(),
        }
    }
}

/// A client that has not authenticated yet: it holds the credentials and can
/// only reach the token endpoint. Authenticating consumes it.
#[derive(Debug)]
pub struct UnauthenticatedClient {
    pub(crate) client_credentials: ClientCredentials,
    pub(crate) base_url: String,
    pub(crate) http: reqwest::blocking::Client,
}

impl UnauthenticatedClient {
    /// The credentials the client was built with.
    pub closed spec fn spec_credentials(&self) -> ClientCredentials {
        self.client_credentials
    }

    /// The base URL that the endpoint paths are joined onto.
    pub closed spec fn spec_base_url(&self) -> Seq<char> {
        self.base_url@
    }

    /// The same client pointed at another base URL (a test or proxy
    /// endpoint).
    pub fn base_url(self, url: &str) -> (r: Self)
        ensures
            r.spec_credentials() == self.spec_credentials(),
            r.spec_base_url() == url@,
    {
        UnauthenticatedClient { base_url: url.to_owned(), ..self }
    }

    /// Exchange user credentials for a token: consumes the unauthenticated
    /// client and, on success, produces the authenticated client carrying the
    /// decoded token. Every failure comes back with kind
    /// `AuthenticationFailed`, the underlying failure chained as its cause.
    pub fn authenticate(self, username: &str, password: &str, scopes: &Vec<Scope>) -> (r: Result<
        AuthenticatedClient,
        Error,
    >)
        ensures
            r matches Ok(c) ==> c.spec_base_url() == self.spec_base_url() && is_decoded_token(
                c.spec_token(),
            ),
            r matches Err(e) ==> {
                &&& e.kind is AuthenticationFailed
                &&& e.cause matches Some(ErrorCause::Inner(inner))
                &&& is_endpoint_failure_for(inner.kind, "authenticate"@)
            },
    {
        match authenticate::get_token(&self, username, password, scopes) {
            Ok(token) => Ok(
                AuthenticatedClient { token, base_url: self.base_url, http: self.http },
            ),
            Err(e) => Err(Error::with_inner_cause(ErrorKind::AuthenticationFailed, e)),
        }
    }

    /// The unauthenticated call path, used only for the token endpoint: the
    /// parameters go out as given, with no token injection.
    pub(crate) fn call(&self, name: &str, url: &str, params: &ParamMap) -> (r: Result<
        String,
        Error,
    >)
        ensures
            r matches Err(e) ==> is_call_failure_for(e.kind, name@),
    {
        api_call(&self.http, name, url, params)
    }
}

/// A client that has authenticated: it holds the token and is the only client
/// shape that can invoke protected endpoints.
pub struct AuthenticatedClient {
    pub(crate) token: Token,
    pub(crate) base_url: String,
    pub(crate) http: reqwest::blocking::Client,
}

impl AuthenticatedClient {
    /// The token the client holds.
    pub closed spec fn spec_token(&self) -> Token {
        self.token
    }

    /// The base URL that the endpoint paths are joined onto.
    pub closed spec fn spec_base_url(&self) -> Seq<char> {
        self.base_url@
    }

    /// Read-only access to the token; no side effects.
    pub fn token(&self) -> (r: &Token)
        ensures
            *r == self.spec_token(),
    {
        &self.token
    }

    /// The same client pointed at another base URL (a test or proxy
    /// endpoint).
    pub fn base_url(self, url: &str) -> (r: Self)
        ensures
            r.spec_token() == self.spec_token(),
            r.spec_base_url() == url@,
    {
        AuthenticatedClient { base_url: url.to_owned(), ..self }
    }

    /// The given parameters with the client's current access token injected
    /// under `access_token`, overwriting any entry already under that key.
    pub fn params_with_token(&self, params: ParamMap) -> (r: ParamMap)
        requires
            params.wf(),
        ensures
            r.wf(),
            r@ == params@.insert("access_token"@, self.spec_token().access_token@),
    {
        let mut p = params;
        p.insert("access_token", self.token.access_token.clone());
        p
    }

    /// The authenticated call path that every protected endpoint operation
    /// funnels through: inject the current access token, submit the
    /// form-encoded POST, classify the response status, and return the
    /// success body. Errors are attributed to the operation named `name`.
    pub(crate) fn call(&self, name: &str, url: &str, params: ParamMap) -> (r: Result<
        String,
        Error,
    >)
        requires
            params.wf(),
        ensures
            r matches Err(e) ==> is_call_failure_for(e.kind, name@),
    {
        let with_token = self.params_with_token(params);
        api_call(&self.http, name, url, &with_token)
    }
}

/// How a response status stands to the expected success status.
#[derive(Debug, Clone, Copy, PartialEq, Eq, Structural)]
pub enum StatusClass {
    /// The expected success status: the response passes through untouched.
    Expected,
    /// A recognized client/server error status, whose body is expected to
    /// carry a structured API error.
    KnownError,
    /// Any other status: fails without reading the body.
    Unknown,
}

/// The recognized client/server error statuses: the only statuses for which
/// the vendor returns a structured error body.
pub open spec fn is_known_error_status(status: u16) -> bool {
    ||| status == 400
    ||| status == 401
    ||| status == 403
    ||| status == 404
    ||| status == 406
    ||| status == 500
}

/// The classification of a response status against the expected success
/// status.
pub open spec fn spec_classify_status(status: u16, expected: u16) -> StatusClass {
    if status == expected {
        StatusClass::Expected
    } else if is_known_error_status(status) {
        StatusClass::KnownError
    } else {
        StatusClass::Unknown
    }
}

/// Classify a response status against the expected success status.
pub fn classify_status(status: u16, expected: u16) -> (c: StatusClass)
    ensures
        c == spec_classify_status(status, expected),
{
    if status == expected {
        StatusClass::Expected
    } else if status == 400 || status == 401 || status == 403 || status == 404 || status == 406
        || status == 500 {
        StatusClass::KnownError
    } else {
        StatusClass::Unknown
    }
}

/// The error for a recognized error status, given the outcome of decoding
/// the body as a structured API error: the vendor's own code and message when
/// the body decoded, otherwise the generic unknown failure carrying the
/// status and chaining the decode failure as its cause.
pub fn error_for_known_status(name: &str, status: u16, decoded: Result<(i64, String), String>) -> (e:
    Error)
    ensures
        decoded matches Ok(p) ==> (e.kind matches ErrorKind::ApiCallFailed {
            name: n,
            code: c,
            msg: m,
        } && n@ == name@ && c == p.0 && m == p.1 && e.cause is None),
        decoded matches Err(t) ==> (e.kind matches ErrorKind::UnknownApiCallFailure {
            name: n,
            status_code: s,
        } && n@ == name@ && s == status && has_text_cause(e, t@)),
{
    match decoded {
        Ok((code, msg)) => Error::from_kind(
            ErrorKind::ApiCallFailed { name: name.to_owned(), code, msg },
        ),
        Err(cause) => Error::with_text_cause(
            ErrorKind::UnknownApiCallFailure { name: name.to_owned(), status_code: status },
            cause,
        ),
    }
}

/// What the error for a recognized error status looks like, given the body:
/// the vendor's own code and message when the body has the structured error
/// shape, otherwise the generic unknown failure carrying the status, with the
/// decode failure chained as its cause.
pub open spec fn is_structured_error_for(
    e: Error,
    name: Seq<char>,
    status: u16,
    body: Seq<char>,
) -> bool {
    match transport::api_error_of(body) {
        Some(p) => e.kind matches ErrorKind::ApiCallFailed { name: n, code: c, msg: m } && n@
            == name && c == p.0 && m@ == p.1 && e.cause is None,
        None => e.kind matches ErrorKind::UnknownApiCallFailure { name: n, status_code: s } && n@
            == name && s == status && has_some_text_cause(e),
    }
}

/// The error for a recognized error status, decoding the body as a
/// structured API error.
pub fn error_from_error_body(name: &str, status: u16, body: &str) -> (e: Error)
    ensures
        is_structured_error_for(e, name@, status, body@),
{
    let decoded = transport::parse_api_error(body);
    error_for_known_status(name, status, decoded)
}

/// The outcome of one response once its status and body stand as plain
/// values: the exhaustive three-way classification against the expected
/// success status. On the expected status the body passes through untouched
/// (a failed read becomes `FailedToReadResponse`); on a recognized error
/// status the body is decoded as a structured API error (a failed read
/// becomes the unknown failure, the read error chained as cause); on any
/// other status the outcome is the unknown failure carrying that status,
/// whatever was or was not read. Every error is attributed to the operation
/// named `name`.
pub fn response_outcome(
    name: &str,
    expected_status: u16,
    status: u16,
    read: Result<String, String>,
) -> (r: Result<String, Error>)
    ensures
        read matches Ok(body) ==> (spec_classify_status(status, expected_status) is Expected
            ==> (r matches Ok(b) && b == body)),
        read matches Err(t) ==> (spec_classify_status(status, expected_status) is Expected ==> ({
            &&& r matches Err(e)
            &&& e.kind is FailedToReadResponse
            &&& has_text_cause(e, t@)
        })),
        read matches Ok(body) ==> (spec_classify_status(status, expected_status) is KnownError
            ==> (r matches Err(e) && is_structured_error_for(e, name@, status, body@))),
        read matches Err(t) ==> (spec_classify_status(status, expected_status) is KnownError
            ==> ({
            &&& r matches Err(e)
            &&& e.kind matches ErrorKind::UnknownApiCallFailure { name: n, status_code: s }
            &&& n@ == name@
            &&& s == status
            &&& has_text_cause(e, t@)
        })),
        spec_classify_status(status, expected_status) is Unknown ==> ({
            &&& r matches Err(e)
            &&& e.kind matches ErrorKind::UnknownApiCallFailure { name: n, status_code: s }
            &&& n@ == name@
            &&& s == status
            &&& e.cause is None
        }),
        r matches Err(e) ==> is_call_failure_for(e.kind, name@),
{
    match classify_status(status, expected_status) {
        StatusClass::Expected => match read {
            Ok(body) => Ok(body),
            Err(cause) => Err(Error::with_text_cause(ErrorKind::FailedToReadResponse, cause)),
        },
        StatusClass::KnownError => match read {
            Ok(body) => Err(error_from_error_body(name, status, body.as_str())),
            Err(cause) => Err(
                Error::with_text_cause(
                    ErrorKind::UnknownApiCallFailure {
                        name: name.to_owned(),
                        status_code: status,
                    },
                    cause,
                ),
            ),
        },
        StatusClass::Unknown => Err(
            Error::from_kind(
                ErrorKind::UnknownApiCallFailure { name: name.to_owned(), status_code: status },
            ),
        ),
    }
}

/// Run the status classifier against a response: read its status and body,
/// then take the classified outcome. The body, where one was read, plays no
/// part in the outcome of an unrecognized status.
fn handle_response(name: &str, expected_status: u16, resp: reqwest::blocking::Response) -> (r:
    Result<String, Error>)
    ensures
        r matches Err(e) ==> is_call_failure_for(e.kind, name@),
{
    let status = transport::response_status(&resp);
    let read = transport::response_text(resp);
    response_outcome(name, expected_status, status, read)
}

/// One request/response round trip: submit the parameters as a form-encoded
/// POST to the URL, then run the status classifier expecting 200 and return
/// the success body. Errors are attributed to the operation named `name`.
fn api_call(http: &reqwest::blocking::Client, name: &str, url: &str, params: &ParamMap) -> (r:
    Result<String, Error>)
    ensures
        r matches Err(e) ==> is_call_failure_for(e.kind, name@),
{
    match transport::send_form(http, url, params) {
        Ok(resp) => handle_response(name, 200, resp),
        Err(cause) => Err(Error::with_text_cause(ErrorKind::FailedToSendRequest, cause)),
    }
}

/// Join the base URL and an endpoint path.
pub(crate) fn url_join(base: &String, path: &str) -> (r: String)
    ensures
        r@ == base@ + path@,
{
    base.clone().concat(path)
}

impl Netatmo for AuthenticatedClient {
    fn get_home_status(&self, parameters: &get_home_status::Parameters) -> (r: Result<
        String,
        Error,
    >) {
        get_home_status::get_home_status(self, parameters)
    }

    fn get_homes_data(&self, parameters: &get_homes_data::Parameters) -> (r: Result<
        String,
        Error,
    >) {
        get_homes_data::get_homes_data(self, parameters)
    }

    fn get_station_data(&self, device_id: &str) -> (r: Result<String, Error>) {
        get_station_data::get_station_data(self, device_id)
    }

    fn get_measure(&self, parameters: &get_measure::Parameters) -> (r: Result<String, Error>) {
        get_measure::get_measure(self, parameters)
    }

    fn set_room_thermpoint(&self, parameters: &set_room_thermpoint::Parameters) -> (r: Result<
        set_room_thermpoint::Response,
        Error,
    >) {
        set_room_thermpoint::set_room_thermpoint(self, parameters)
    }
}

} // verus!
