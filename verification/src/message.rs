//! The request and envelope records a relayed message passes through.

use vstd::prelude::*;

use crate::config::{WecomAppConfig, WecomAppConfigView};

verus! {

/// What a caller hands the proxy: the shared secret it presents and the
/// message text to relay.
#[derive(Debug)]
pub struct WecomProxyAppMsgReq {
    pub auth_key: String,
    pub msg: String,
}

/// Mathematical image of an inbound request.
pub struct WecomProxyAppMsgReqView {
    pub auth_key: Seq<char>,
    pub msg: Seq<char>,
}

impl View for WecomProxyAppMsgReq {
    type V = WecomProxyAppMsgReqView;

    open spec fn view(&self) -> WecomProxyAppMsgReqView {
        WecomProxyAppMsgReqView { auth_key: self.auth_key@, msg: self.msg@ }
    }
}

/// The text payload inside an outbound envelope.
pub struct WecomAppMsgContent {
    pub content: String,
}

/// Mathematical image of the payload.
pub struct WecomAppMsgContentView {
    pub content: Seq<char>,
}

impl View for WecomAppMsgContent {
    type V = WecomAppMsgContentView;

    open spec fn view(&self) -> WecomAppMsgContentView {
        WecomAppMsgContentView { content: self.content@ }
    }
}

/// The envelope posted to the backend's send endpoint: recipient, agent id,
/// the constant message kind `"text"`, the constant duplicate-suppression
/// window of 600 seconds, and the text payload.
pub struct WecomAppMsgReq {
    pub touser: String,
    pub agentid: String,
    pub msgtype: String,
    pub duplicate_check_interval: u64,
    pub text: WecomAppMsgContent,
}

/// Mathematical image of an outbound envelope.
pub struct WecomAppMsgReqView {
    pub touser: Seq<char>,
    pub agentid: Seq<char>,
    pub msgtype: Seq<char>,
    pub duplicate_check_interval: u64,
    pub text: WecomAppMsgContentView,
}

impl View for WecomAppMsgReq {
    type V = WecomAppMsgReqView;

    open spec fn view(&self) -> WecomAppMsgReqView {
        WecomAppMsgReqView {
            touser: self.touser@,
            agentid: self.agentid@,
            msgtype: self.msgtype@,
            duplicate_check_interval: self.duplicate_check_interval,
            text: self.text@,
        }
    }
}

/// The envelope built for a given message under a given configuration:
/// recipient and agent id come from the configuration, the kind is always
/// `"text"`, the duplicate-suppression window is always 600 seconds, and the
/// payload carries the message verbatim.
pub open spec fn spec_build_wecom_app_msg_req(
    msg: Seq<char>,
    config: WecomAppConfigView,
) -> WecomAppMsgReqView {
    WecomAppMsgReqView {
        touser: config.wecom_touid,
        agentid: config.wecom_aid,
        msgtype: "text"@,
        duplicate_check_interval: 600,
        text: WecomAppMsgContentView { content: msg },
    }
}

/// Builds the outbound envelope for `msg` under `config`.
pub fn build_wecom_app_msg_req(msg: &str, config: &WecomAppConfig) -> (r: WecomAppMsgReq)
    ensures
        r@ == spec_build_wecom_app_msg_req(msg@, config@),
{
    WecomAppMsgReq {
        touser: config.wecom_touid.clone(),
        agentid: config.wecom_aid.clone(),
        msgtype: "text".to_owned(),
        duplicate_check_interval: 600,
        text: WecomAppMsgContent { content: msg.to_owned() },
    }
}

} // verus!
