//! Laws of the relay pipeline, proved once for all inputs.

use vstd::prelude::*;

use crate::config::WecomAppConfigView;
use crate::json::spec_envelope_json;
use crate::message::{spec_build_wecom_app_msg_req, WecomProxyAppMsgReqView};
use crate::relay::{access_token_of, spec_on_send_response, spec_on_token_response,
    spec_send_url, spec_start_relay, spec_token_url, SpecRelayAction};

verus! {

/// A request whose secret does not match the configured secret is answered
/// 401 with `Wrong auth_key`, and the pipeline asks for no upstream call:
/// neither a token fetch nor a message send.
pub proof fn lemma_unauthorized_no_upstream(
    req: WecomProxyAppMsgReqView,
    config: WecomAppConfigView,
)
    requires
        req.auth_key != config.auth_key,
    ensures
        spec_start_relay(req, config) == (SpecRelayAction::Respond {
            status: 401,
            body: "Wrong auth_key"@,
        }),
        !(spec_start_relay(req, config) is FetchToken),
        !(spec_start_relay(req, config) is SendMessage),
{
}

/// A request whose secret matches is relayed in order: the first action is
/// exactly one token fetch, and whatever body that fetch returns, the next
/// action is exactly one message send — of the envelope's JSON wire form,
/// with the token extracted from that body in the send URL. A successful
/// send ends the pipeline with the backend's response passed through.
pub proof fn lemma_authorized_flow(
    req: WecomProxyAppMsgReqView,
    config: WecomAppConfigView,
    token_body: Seq<char>,
    send_body: Seq<char>,
)
    requires
        req.auth_key == config.auth_key,
    ensures
        spec_start_relay(req, config) == (SpecRelayAction::FetchToken {
            url: spec_token_url(config.wecom_cid, config.wecom_secret),
        }),
        spec_on_token_response(req.msg, config, Ok(token_body))
            == (SpecRelayAction::SendMessage {
            url: spec_send_url(access_token_of(token_body)),
            body: spec_envelope_json(spec_build_wecom_app_msg_req(req.msg, config)),
        }),
        spec_on_send_response(Ok(send_body)) == (SpecRelayAction::Respond {
            status: 200,
            body: send_body,
        }),
{
}

/// When the token fetch fails, the pipeline answers 500 with the cause and
/// the send endpoint is never reached.
pub proof fn lemma_token_failure_no_send(
    msg: Seq<char>,
    config: WecomAppConfigView,
    cause: Seq<char>,
)
    ensures
        spec_on_token_response(msg, config, Err(cause)) == (SpecRelayAction::Respond {
            status: 500,
            body: cause,
        }),
        !(spec_on_token_response(msg, config, Err(cause)) is SendMessage),
{
}

/// Whatever the message and the configuration, the envelope's kind is the
/// literal `"text"`, its duplicate-suppression window is the literal 600,
/// and its payload carries the message verbatim.
pub proof fn lemma_envelope_constants(msg: Seq<char>, config: WecomAppConfigView)
    ensures
        spec_build_wecom_app_msg_req(msg, config).msgtype == "text"@,
        spec_build_wecom_app_msg_req(msg, config).duplicate_check_interval == 600,
        spec_build_wecom_app_msg_req(msg, config).text.content == msg,
        spec_build_wecom_app_msg_req(msg, config).touser == config.wecom_touid,
        spec_build_wecom_app_msg_req(msg, config).agentid == config.wecom_aid,
{
}

/// A failed send answers 500 with the cause; a successful send passes the
/// backend's raw response through verbatim, never altered.
pub proof fn lemma_send_passthrough(body: Seq<char>, cause: Seq<char>)
    ensures
        spec_on_send_response(Ok(body)) == (SpecRelayAction::Respond {
            status: 200,
            body: body,
        }),
        spec_on_send_response(Err(cause)) == (SpecRelayAction::Respond {
            status: 500,
            body: cause,
        }),
{
}

} // verus!
