use wecom_proxy::config::WecomAppConfig;
use wecom_proxy::message::WecomProxyAppMsgReq;
use wecom_proxy::relay::{
    access_token_from_response, authorize, on_send_response, on_token_response, send_url,
    start_relay, token_url, RelayAction,
};

fn config() -> WecomAppConfig {
    WecomAppConfig::from_values(
        Some("S1".to_string()),
        Some("C".to_string()),
        Some("K".to_string()),
        Some("A".to_string()),
        None,
    )
    .unwrap()
}

#[test]
fn authorize_is_exact_equality() {
    assert!(authorize(&"S1".to_string(), &"S1".to_string()));
    assert!(!authorize(&"s1".to_string(), &"S1".to_string()));
    assert!(!authorize(&"".to_string(), &"S1".to_string()));
    assert!(!authorize(&"S1 ".to_string(), &"S1".to_string()));
}

#[test]
fn unauthorized_request_rejected_without_upstream_call() {
    let req = WecomProxyAppMsgReq { auth_key: "wrong".to_string(), msg: "hello".to_string() };
    match start_relay(&req, &config()) {
        RelayAction::Respond { status, body } => {
            assert_eq!(status, 401);
            assert_eq!(body, "Wrong auth_key");
        },
        _ => panic!("an unauthorized request must not reach any endpoint"),
    }
}

#[test]
fn authorized_request_fetches_token_first() {
    let req = WecomProxyAppMsgReq { auth_key: "S1".to_string(), msg: "hello".to_string() };
    match start_relay(&req, &config()) {
        RelayAction::FetchToken { url } => {
            assert_eq!(url, "https://qyapi.weixin.qq.com/cgi-bin/gettoken?corpid=C&corpsecret=K");
        },
        _ => panic!("an authorized request must fetch a token first"),
    }
}

#[test]
fn token_transport_failure_answers_500_without_send() {
    let result = Err("connection refused".to_string());
    match on_token_response("hello", &config(), result) {
        RelayAction::Respond { status, body } => {
            assert_eq!(status, 500);
            assert_eq!(body, "connection refused");
        },
        _ => panic!("a failed token fetch must not reach the send endpoint"),
    }
}

#[test]
fn token_response_without_field_sends_empty_token() {
    let result = Ok("{\"errcode\":0}".to_string());
    match on_token_response("hello", &config(), result) {
        RelayAction::SendMessage { url, .. } => {
            assert_eq!(url, "https://qyapi.weixin.qq.com/cgi-bin/message/send?access_token=");
        },
        _ => panic!("a token response body, whatever it holds, must lead to the send"),
    }
}

#[test]
fn access_token_read_from_response() {
    assert_eq!(
        access_token_from_response("{\"access_token\":\"T\",\"expires_in\":7200}"),
        "T"
    );
}

#[test]
fn unparsable_token_response_gives_empty_token() {
    assert_eq!(access_token_from_response("not json"), "");
    assert_eq!(access_token_from_response(""), "");
}

#[test]
fn non_string_token_field_gives_empty_token() {
    assert_eq!(access_token_from_response("{\"access_token\":42}"), "");
    assert_eq!(access_token_from_response("[\"access_token\"]"), "");
}

#[test]
fn urls_built_verbatim() {
    assert_eq!(
        token_url(&config()),
        "https://qyapi.weixin.qq.com/cgi-bin/gettoken?corpid=C&corpsecret=K"
    );
    assert_eq!(
        send_url("T"),
        "https://qyapi.weixin.qq.com/cgi-bin/message/send?access_token=T"
    );
}

#[test]
fn send_failure_answers_500() {
    match on_send_response(Err("timed out".to_string())) {
        RelayAction::Respond { status, body } => {
            assert_eq!(status, 500);
            assert_eq!(body, "timed out");
        },
        _ => panic!("a failed send must answer the caller"),
    }
}

#[test]
fn backend_response_passed_through_verbatim() {
    let raw = "{\"errcode\":0,\"errmsg\":\"ok\"}";
    match on_send_response(Ok(raw.to_string())) {
        RelayAction::Respond { status, body } => {
            assert_eq!(status, 200);
            assert_eq!(body, raw);
        },
        _ => panic!("a successful send must answer the caller"),
    }
}

#[test]
fn round_trip() {
    let config = config();
    assert_eq!(config.wecom_touid, "@all");
    let req = WecomProxyAppMsgReq { auth_key: "S1".to_string(), msg: "hello".to_string() };

    let token_fetch = start_relay(&req, &config);
    let RelayAction::FetchToken { url } = token_fetch else {
        panic!("expected the token fetch");
    };
    assert_eq!(url, "https://qyapi.weixin.qq.com/cgi-bin/gettoken?corpid=C&corpsecret=K");

    let send = on_token_response(&req.msg, &config, Ok("{\"access_token\":\"T\"}".to_string()));
    let RelayAction::SendMessage { url, body } = send else {
        panic!("expected the message send");
    };
    assert_eq!(url, "https://qyapi.weixin.qq.com/cgi-bin/message/send?access_token=T");
    assert_eq!(
        body,
        "{\"touser\":\"@all\",\"agentid\":\"A\",\"msgtype\":\"text\",\
         \"duplicate_check_interval\":600,\"text\":{\"content\":\"hello\"}}"
    );

    let reply = on_send_response(Ok("backend said ok".to_string()));
    let RelayAction::Respond { status, body } = reply else {
        panic!("expected the final answer");
    };
    assert_eq!(status, 200);
    assert_eq!(body, "backend said ok");
}
