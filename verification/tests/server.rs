use clipsync::config::Config;
use clipsync::messages::{
    AuthResponsePayload, ClipboardBroadcastPayload, ClipboardUpdate, CONTENT_TYPE_IMAGE_PNG,
    CONTENT_TYPE_TEXT, MSG_TYPE_CLIPBOARD_UPDATE,
};
use clipsync::server::{
    auth_request_text, check_auth_reply, classify_inbound, encode_update, AuthError, Inbound,
};

fn config_with(token: Option<&str>, username: Option<&str>, password: Option<&str>) -> Config {
    let mut cfg = Config::default();
    cfg.token = token.map(|s| s.to_string());
    cfg.username = username.map(|s| s.to_string());
    cfg.password = password.map(|s| s.to_string());
    cfg
}

#[test]
fn update_is_written_in_the_wrapped_form() {
    let update = ClipboardUpdate::new(CONTENT_TYPE_TEXT, "hello".to_string(), "AAA");
    assert_eq!(update.msg_type, MSG_TYPE_CLIPBOARD_UPDATE);
    assert_eq!(update.payload.sender_device_id, "AAA");
    assert_eq!(
        encode_update(&update),
        r#"{"type":"clipboard_update","payload":{"content_type":"text/plain","data":"hello","sender_device_id":"AAA"}}"#
    );
}

#[test]
fn update_escapes_its_data() {
    let update = ClipboardUpdate::new(CONTENT_TYPE_TEXT, "a\"b\nc".to_string(), "id");
    assert_eq!(
        encode_update(&update),
        r#"{"type":"clipboard_update","payload":{"content_type":"text/plain","data":"a\"b\nc","sender_device_id":"id"}}"#
    );
}

#[test]
fn update_is_read_back_by_another_device() {
    let update = ClipboardUpdate::new(CONTENT_TYPE_TEXT, "round \"trip\" \u{1f600}".to_string(), "AAA");
    let wire = encode_update(&update);
    assert_eq!(
        classify_inbound(&wire, "BBB"),
        Inbound::Apply(ClipboardBroadcastPayload {
            content_type: CONTENT_TYPE_TEXT.to_string(),
            data: "round \"trip\" \u{1f600}".to_string(),
        })
    );
}

#[test]
fn own_update_is_ignored() {
    let update = ClipboardUpdate::new(CONTENT_TYPE_TEXT, "hello".to_string(), "AAA");
    let wire = encode_update(&update);
    assert_eq!(classify_inbound(&wire, "AAA"), Inbound::OwnEcho);
    assert_eq!(
        classify_inbound(r#"{"content_type":"text/plain","data":"x","sender_device_id":"AAA"}"#, "AAA"),
        Inbound::OwnEcho
    );
}

#[test]
fn both_broadcast_forms_are_accepted() {
    let expected = Inbound::Apply(ClipboardBroadcastPayload {
        content_type: CONTENT_TYPE_IMAGE_PNG.to_string(),
        data: "QUJD".to_string(),
    });
    assert_eq!(
        classify_inbound(r#"{"type":"anything","payload":{"content_type":"image/png","data":"QUJD"}}"#, "me"),
        expected
    );
    assert_eq!(classify_inbound(r#"{"content_type":"image/png","data":"QUJD"}"#, "me"), expected);
}

#[test]
fn wrapped_form_is_tried_first() {
    let text = r#"{"type":"t","payload":{"content_type":"text/plain","data":"inner"},"content_type":"text/plain","data":"outer"}"#;
    assert_eq!(
        classify_inbound(text, "me"),
        Inbound::Apply(ClipboardBroadcastPayload {
            content_type: "text/plain".to_string(),
            data: "inner".to_string(),
        })
    );
}

#[test]
fn incomplete_wrapper_falls_back_to_flat() {
    let text = r#"{"type":"t","payload":{"content_type":"text/plain"},"content_type":"text/plain","data":"outer"}"#;
    assert_eq!(
        classify_inbound(text, "me"),
        Inbound::Apply(ClipboardBroadcastPayload {
            content_type: "text/plain".to_string(),
            data: "outer".to_string(),
        })
    );
}

#[test]
fn other_frames_are_unrecognized() {
    assert_eq!(classify_inbound("not json", "me"), Inbound::Unrecognized);
    assert_eq!(classify_inbound(r#"{"type":"ping"}"#, "me"), Inbound::Unrecognized);
    assert_eq!(classify_inbound(r#"{"content_type":"text/plain","data":5}"#, "me"), Inbound::Unrecognized);
    assert_eq!(classify_inbound(r#"["text/plain","x"]"#, "me"), Inbound::Unrecognized);
    assert_eq!(
        classify_inbound(r#"{"payload":{"content_type":"text/plain","data":"x"}}"#, "me"),
        Inbound::Unrecognized
    );
}

#[test]
fn token_is_preferred_for_authentication() {
    let cfg = config_with(Some("t0k\"en"), Some("u"), Some("p"));
    assert_eq!(auth_request_text(&cfg), Ok(r#"{"token":"t0k\"en"}"#.to_string()));
}

#[test]
fn username_and_password_authenticate_without_token() {
    let cfg = config_with(None, Some("u"), Some("wrong"));
    assert_eq!(auth_request_text(&cfg), Ok(r#"{"username":"u","password":"wrong"}"#.to_string()));
}

#[test]
fn missing_credentials_are_named() {
    assert_eq!(auth_request_text(&config_with(None, None, Some("p"))), Err(AuthError::MissingUsername));
    assert_eq!(auth_request_text(&config_with(None, None, None)), Err(AuthError::MissingUsername));
    assert_eq!(auth_request_text(&config_with(None, Some("u"), None)), Err(AuthError::MissingPassword));
}

#[test]
fn wrapped_reply_is_accepted() {
    assert_eq!(
        check_auth_reply(r#"{"type":"auth","payload":{"success":true,"message":"welcome","token":"jwt"}}"#),
        Ok(AuthResponsePayload {
            success: true,
            message: "welcome".to_string(),
            token: Some("jwt".to_string()),
        })
    );
    assert_eq!(
        check_auth_reply(r#"{"type":"auth","payload":{"success":true,"message":"welcome","token":null}}"#),
        Ok(AuthResponsePayload { success: true, message: "welcome".to_string(), token: None })
    );
    assert_eq!(
        check_auth_reply(r#"{"type":"auth","payload":{"success":true,"message":"welcome"}}"#),
        Ok(AuthResponsePayload { success: true, message: "welcome".to_string(), token: None })
    );
}

#[test]
fn flat_reply_is_accepted() {
    assert_eq!(
        check_auth_reply(r#"{"success":true,"message":"ok"}"#),
        Ok(AuthResponsePayload { success: true, message: "ok".to_string(), token: None })
    );
    assert_eq!(
        check_auth_reply(r#"{"success":true}"#),
        Ok(AuthResponsePayload { success: true, message: String::new(), token: None })
    );
}

#[test]
fn rejection_carries_the_servers_message() {
    let rejected = check_auth_reply(r#"{"success":false,"message":"bad creds"}"#);
    assert_eq!(rejected, Err(AuthError::Rejected("bad creds".to_string())));
    assert!(rejected.unwrap_err().message().contains("bad creds"));
    assert_eq!(
        check_auth_reply(r#"{"type":"auth","payload":{"success":false,"message":"nope"}}"#),
        Err(AuthError::Rejected("nope".to_string()))
    );
    assert_eq!(
        check_auth_reply(r#"{"success":"yes","message":"odd"}"#),
        Err(AuthError::Rejected("odd".to_string()))
    );
}

#[test]
fn faulty_replies_are_told_apart() {
    assert_eq!(check_auth_reply("<html>"), Err(AuthError::Malformed));
    assert_eq!(check_auth_reply(r#"{"hello":"world"}"#), Err(AuthError::Unrecognized));
    assert_eq!(check_auth_reply(r#"{"payload":{"success":true,"message":"m"}}"#), Err(AuthError::Incomplete));
    assert_eq!(check_auth_reply(r#"{"type":"a","payload":{"success":true}}"#), Err(AuthError::Incomplete));
    assert_eq!(
        check_auth_reply(r#"{"type":"a","payload":{"success":true,"message":"m","token":5}}"#),
        Err(AuthError::Incomplete)
    );
    assert_eq!(check_auth_reply(r#"{"type":"a","payload":null,"success":true}"#), Err(AuthError::Incomplete));
}

#[test]
fn every_auth_error_has_its_text() {
    assert_eq!(AuthError::MissingUsername.message(), "missing username");
    assert_eq!(AuthError::MissingPassword.message(), "missing password");
    assert_eq!(AuthError::Malformed.message(), "authentication reply is not JSON");
    assert_eq!(AuthError::Incomplete.message(), "authentication reply is incomplete");
    assert_eq!(AuthError::Rejected("x".to_string()).message(), "authentication rejected: x");
    assert_eq!(AuthError::Unrecognized.message(), "authentication reply not recognized");
    assert_eq!(AuthError::NotText.message(), "authentication reply is not text");
    assert_eq!(
        AuthError::Transport("reset".to_string()).message(),
        "reading authentication reply failed: reset"
    );
    assert_eq!(AuthError::NoReply.message(), "server sent no authentication reply");
}
