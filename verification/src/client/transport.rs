//! The trusted boundary to the outside crates: the HTTP transport (reqwest)
//! and the JSON codec (serde_json). Each item's contract states only what the
//! outside crate's source shows; nothing is promised of a network outcome.

use vstd::prelude::*;

use reqwest::blocking::Response as HttpResponse;

use crate::client::wire::ParamMap;

verus! {

#[verifier::external_type_specification]
#[verifier::external_body]
pub struct ExClient(reqwest::blocking::Client);

#[verifier::external_type_specification]
#[verifier::external_body]
pub struct ExResponse(HttpResponse);

/// Relies on reqwest::blocking::Client::new for the transport handle. That
/// constructor fails only on its environment (it panics when the system
/// configuration cannot be loaded or when called inside an async runtime),
/// never on an input.
#[verifier::external_body]
pub(crate) fn new_http_client() -> reqwest::blocking::Client {
    reqwest::blocking::Client::new()
}

/// Relies on reqwest::blocking::Client::post, RequestBuilder::form and
/// RequestBuilder::send to submit the parameter entries as a form-encoded
/// POST body and wait for the response. The outcome depends on the network,
/// so nothing is promised of it.
#[verifier::external_body]
pub(crate) fn send_form(
    http: &reqwest::blocking::Client,
    url: &str,
    params: &ParamMap,
) -> Result<reqwest::blocking::Response, String> {
    http.post(url).form(&params.pairs).send().map_err(|e| format!("{e:?}"))
}

/// Relies on reqwest::blocking::Response::status and
/// http::StatusCode::as_u16 for the numeric HTTP status of the response.
#[verifier::external_body]
pub(crate) fn response_status(resp: &reqwest::blocking::Response) -> u16 {
    resp.status().as_u16()
}

/// Relies on reqwest::blocking::Response::text to read the full response
/// body as text; reading may fail, and the text depends on the response.
#[verifier::external_body]
pub(crate) fn response_text(resp: reqwest::blocking::Response) -> Result<String, String> {
    resp.text().map_err(|e| e.to_string())
}

/// The structured API error that a body text denotes: the integer code and
/// the message of a `{"error":{"code":...,"message":...}}` object, when the
/// body has that shape. A function of the body text alone.
pub uninterp spec fn api_error_of(body: Seq<char>) -> Option<(i64, Seq<char>)>;

/// Relies on serde_json (from_str, the Value index operator — null for a
/// missing key, never a panic — Value::as_i64, Value::as_str) to decode the
/// vendor's structured error body; whether it decodes, and to what, depends
/// on the body text alone. On failure the text of the decode error comes back
/// for diagnostics; nothing is promised of that text.
#[verifier::external_body]
pub(crate) fn parse_api_error(body: &str) -> (r: Result<(i64, String), String>)
    ensures
        r is Ok <==> api_error_of(body@) is Some,
        r matches Ok(p) ==> (api_error_of(body@) matches Some(q) && p.0 == q.0 && p.1@ == q.1),
{
    let v: serde_json::Value = serde_json::from_str(body).map_err(|e| e.to_string())?;
    let code = v["error"]["code"].as_i64().ok_or("no integer code under the error key")?;
    let message = v["error"]["message"]
        .as_str()
        .ok_or("no message string under the error key")?
        .to_owned();
    Ok((code, message))
}

/// The token-response fields that a body text denotes: access token, refresh
/// token, scope wire forms, and the two expiry fields of a token-endpoint
/// success body. A function of the body text alone.
pub uninterp spec fn token_fields_of(body: Seq<char>) -> Option<
    (Seq<char>, Seq<char>, Seq<Seq<char>>, u64, u64),
>;

/// Relies on serde_json (from_str, the Value index operator — null for a
/// missing key, never a panic — Value::as_str, Value::as_array, Value::as_u64)
/// to decode a token-endpoint success body; whether it decodes, and to what,
/// depends on the body text alone. On failure the text of the decode error
/// comes back for diagnostics; nothing is promised of that text.
#[verifier::external_body]
pub(crate) fn parse_token_fields(body: &str) -> (r: Result<
    (String, String, Vec<String>, u64, u64),
    String,
>)
    ensures
        r is Ok <==> token_fields_of(body@) is Some,
        r matches Ok(t) ==> (token_fields_of(body@) matches Some(q) && t.0@ == q.0 && t.1@
            == q.1 && t.2.deep_view() == q.2 && t.3 == q.3 && t.4 == q.4),
{
    let v: serde_json::Value = serde_json::from_str(body).map_err(|e| e.to_string())?;
    let access_token = v["access_token"].as_str().ok_or("no access_token string")?.to_owned();
    let refresh_token = v["refresh_token"].as_str().ok_or("no refresh_token string")?.to_owned();
    let scope = v["scope"]
        .as_array()
        .ok_or("no scope list")?
        .iter()
        .map(|s| s.as_str().map(str::to_owned))
        .collect::<Option<Vec<String>>>()
        .ok_or("a scope entry is not a string")?;
    let expires_in = v["expires_in"].as_u64().ok_or("no expires_in number")?;
    let expire_in = v["expire_in"].as_u64().ok_or("no expire_in number")?;
    Ok((access_token, refresh_token, scope, expires_in, expire_in))
}

/// The status-response fields that a body text denotes: the `status` string
/// and the `time_server` stamp of a setpoint-write success body. A function
/// of the body text alone.
pub uninterp spec fn status_response_of(body: Seq<char>) -> Option<(Seq<char>, u64)>;

/// Relies on serde_json (from_str, the Value index operator — null for a
/// missing key, never a panic — Value::as_str, Value::as_u64) to decode a
/// setpoint-write success body; whether it decodes, and to what, depends on
/// the body text alone. On failure the text of the decode error comes back
/// for diagnostics; nothing is promised of that text.
#[verifier::external_body]
pub(crate) fn parse_status_response(body: &str) -> (r: Result<(String, u64), String>)
    ensures
        r is Ok <==> status_response_of(body@) is Some,
        r matches Ok(p) ==> (status_response_of(body@) matches Some(q) && p.0@ == q.0 && p.1
            == q.1),
{
    let v: serde_json::Value = serde_json::from_str(body).map_err(|e| e.to_string())?;
    let status = v["status"].as_str().ok_or("no status string")?.to_owned();
    let time_server = v["time_server"].as_u64().ok_or("no time_server number")?;
    Ok((status, time_server))
}

} // verus!
