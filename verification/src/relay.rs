//! The per-request relay pipeline.
//!
//! A request moves through a linear pipeline: the gatekeeper check, a token
//! fetch, a message send, and a response. The functions here make every
//! decision of that pipeline; each returns a [`RelayAction`] telling the
//! transport layer outside the library what to do next (perform a GET,
//! perform a POST, or answer the caller). The transport layer hands each
//! outcome back as a plain `Result` of body text or error description.

use vstd::prelude::*;
use vstd::string::*;

use crate::config::{WecomAppConfig, WecomAppConfigView};
use crate::json::{envelope_json, spec_envelope_json};
use crate::message::{build_wecom_app_msg_req, spec_build_wecom_app_msg_req, WecomProxyAppMsgReq,
    WecomProxyAppMsgReqView};

verus! {

/// What the transport layer must do next on behalf of one request.
pub enum RelayAction {
    /// Issue a GET to `url`, the token endpoint, and hand back the body.
    FetchToken { url: String },
    /// Issue a POST of `body` to `url`, the send endpoint, and hand back the
    /// backend's raw response text.
    SendMessage { url: String, body: String },
    /// Answer the caller with this HTTP status and body; the request is done.
    Respond { status: u16, body: String },
}

/// Mathematical image of an action.
pub enum SpecRelayAction {
    FetchToken { url: Seq<char> },
    SendMessage { url: Seq<char>, body: Seq<char> },
    Respond { status: u16, body: Seq<char> },
}

impl View for RelayAction {
    type V = SpecRelayAction;

    open spec fn view(&self) -> SpecRelayAction {
        match self {
            RelayAction::FetchToken { url } => SpecRelayAction::FetchToken { url: url@ },
            RelayAction::SendMessage { url, body } => SpecRelayAction::SendMessage {
                url: url@,
                body: body@,
            },
            RelayAction::Respond { status, body } => SpecRelayAction::Respond {
                status: *status,
                body: body@,
            },
        }
    }
}

/// A transport outcome (response body or error description) as sequences.
pub open spec fn spec_outcome(r: Result<String, String>) -> Result<Seq<char>, Seq<char>> {
    match r {
        Ok(body) => Ok(body@),
        Err(cause) => Err(cause@),
    }
}

/// The token endpoint URL for a backend identity.
pub open spec fn spec_token_url(cid: Seq<char>, secret: Seq<char>) -> Seq<char> {
    "https://qyapi.weixin.qq.com/cgi-bin/gettoken?corpid="@ + cid + "&corpsecret="@ + secret
}

/// Builds the token endpoint URL for the configured backend identity.
pub fn token_url(config: &WecomAppConfig) -> (r: String)
    ensures
        r@ == spec_token_url(config@.wecom_cid, config@.wecom_secret),
{
    let mut url = String::from_str("https://qyapi.weixin.qq.com/cgi-bin/gettoken?corpid=");
    url.append(config.wecom_cid.as_str());
    url.append("&corpsecret=");
    url.append(config.wecom_secret.as_str());
    url
}

/// The send endpoint URL for an access token.
pub open spec fn spec_send_url(token: Seq<char>) -> Seq<char> {
    "https://qyapi.weixin.qq.com/cgi-bin/message/send?access_token="@ + token
}

/// Builds the send endpoint URL for an access token.
pub fn send_url(token: &str) -> (r: String)
    ensures
        r@ == spec_send_url(token@),
{
    let mut url = String::from_str("https://qyapi.weixin.qq.com/cgi-bin/message/send?access_token=");
    url.append(token);
    url
}

/// The string under the top-level `access_token` field of a JSON text, where
/// the text parses and has one.
pub uninterp spec fn spec_access_token_field(body: Seq<char>) -> Option<Seq<char>>;

/// An option of a string as an option of its characters.
pub open spec fn spec_option_chars(t: Option<String>) -> Option<Seq<char>> {
    match t {
        Some(s) => Some(s@),
        None => None,
    }
}

/// Relies on `serde_json::from_str`, `serde_json::Value::get` and
/// `serde_json::Value::as_str`: parses the text as JSON and reads the
/// top-level `access_token` field; all three depend on the text alone, and
/// the result is `None` when the text is not valid JSON, the field is
/// absent, or its value is not a string.
#[verifier::external_body]
fn json_access_token_field(body: &str) -> (t: Option<String>)
    ensures
        spec_option_chars(t) == spec_access_token_field(body@),
{
    match serde_json::from_str::<serde_json::Value>(body) {
        Ok(value) => value.get("access_token").and_then(|field| field.as_str()).map(
            str::to_string,
        ),
        Err(_) => None,
    }
}

/// The access token taken from a token-endpoint response body: the
/// `access_token` field, or the empty string when there is none. The empty
/// token is deliberately passed on to the send step rather than rejected
/// here; the backend itself rejects it.
pub open spec fn access_token_of(body: Seq<char>) -> Seq<char> {
    match spec_access_token_field(body) {
        Some(token) => token,
        None => Seq::<char>::empty(),
    }
}

/// Extracts the access token from a token-endpoint response body.
pub fn access_token_from_response(body: &str) -> (t: String)
    ensures
        t@ == access_token_of(body@),
{
    match json_access_token_field(body) {
        Some(token) => token,
        None => String::new(),
    }
}

/// Whether a caller's secret authorizes it: exact, case-sensitive equality
/// with the configured secret.
pub open spec fn spec_authorize(provided: Seq<char>, configured: Seq<char>) -> bool {
    provided == configured
}

/// The gatekeeper check.
pub fn authorize(provided: &String, configured: &String) -> (r: bool)
    ensures
        r == spec_authorize(provided@, configured@),
{
    *provided == *configured
}

/// The first step for an inbound request: an unauthorized request is
/// answered 401 at once; an authorized one asks for the token fetch.
pub open spec fn spec_start_relay(
    req: WecomProxyAppMsgReqView,
    config: WecomAppConfigView,
) -> SpecRelayAction {
    if spec_authorize(req.auth_key, config.auth_key) {
        SpecRelayAction::FetchToken { url: spec_token_url(config.wecom_cid, config.wecom_secret) }
    } else {
        SpecRelayAction::Respond { status: 401, body: "Wrong auth_key"@ }
    }
}

/// Decides the first action for an inbound request.
pub fn start_relay(req: &WecomProxyAppMsgReq, config: &WecomAppConfig) -> (a: RelayAction)
    ensures
        a@ == spec_start_relay(req@, config@),
{
    if authorize(&req.auth_key, &config.auth_key) {
        RelayAction::FetchToken { url: token_url(config) }
    } else {
        RelayAction::Respond { status: 401, body: "Wrong auth_key".to_owned() }
    }
}

/// The step after the token fetch: a transport failure answers 500 with the
/// cause and the send endpoint is never reached; a response body — whatever
/// it holds — leads to exactly one send, of the envelope's JSON wire form,
/// with the extracted token in the URL.
pub open spec fn spec_on_token_response(
    msg: Seq<char>,
    config: WecomAppConfigView,
    result: Result<Seq<char>, Seq<char>>,
) -> SpecRelayAction {
    match result {
        Ok(body) => SpecRelayAction::SendMessage {
            url: spec_send_url(access_token_of(body)),
            body: spec_envelope_json(spec_build_wecom_app_msg_req(msg, config)),
        },
        Err(cause) => SpecRelayAction::Respond { status: 500, body: cause },
    }
}

/// Decides the action after the token fetch came back.
pub fn on_token_response(
    msg: &str,
    config: &WecomAppConfig,
    result: Result<String, String>,
) -> (a: RelayAction)
    ensures
        a@ == spec_on_token_response(msg@, config@, spec_outcome(result)),
{
    match result {
        Ok(body) => {
            let token = access_token_from_response(body.as_str());
            let envelope = build_wecom_app_msg_req(msg, config);
            RelayAction::SendMessage {
                url: send_url(token.as_str()),
                body: envelope_json(&envelope),
            }
        },
        Err(cause) => RelayAction::Respond { status: 500, body: cause },
    }
}

/// The last step: a transport failure answers 500 with the cause; otherwise
/// the backend's raw response text is passed through verbatim with 200.
pub open spec fn spec_on_send_response(result: Result<Seq<char>, Seq<char>>) -> SpecRelayAction {
    match result {
        Ok(body) => SpecRelayAction::Respond { status: 200, body: body },
        Err(cause) => SpecRelayAction::Respond { status: 500, body: cause },
    }
}

/// Decides the final answer after the send came back.
pub fn on_send_response(result: Result<String, String>) -> (a: RelayAction)
    ensures
        a@ == spec_on_send_response(spec_outcome(result)),
{
    match result {
        Ok(body) => RelayAction::Respond { status: 200, body },
        Err(cause) => RelayAction::Respond { status: 500, body: cause },
    }
}

} // verus!
