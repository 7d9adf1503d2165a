use backend::realtime::{
    client_command, command_for, decide_login, parse_login, realtime_step, ClientCommand,
    LoginError, RealtimeAction, RealtimeEvent,
};
use backend::sessions::SessionTable;
use backend::signaling::{
    decide_offer_client, offer_client_id, offer_session, signaling_step, SignalingAction,
    SignalingError, SignalingEvent,
};

#[test]
fn login_gives_the_client_id() {
    assert_eq!(
        parse_login(r#"{"msg_type":"login","client_id":"kiosk-1"}"#),
        Ok("kiosk-1".to_string())
    );
}

#[test]
fn login_errors() {
    assert_eq!(parse_login("login please"), Err(LoginError::InvalidJson));
    assert_eq!(parse_login(r#"{"msg_type":"hello","client_id":"k"}"#), Err(LoginError::NotLogin));
    assert_eq!(parse_login(r#"{"client_id":"k"}"#), Err(LoginError::NotLogin));
    assert_eq!(parse_login(r#"{"msg_type":"login"}"#), Err(LoginError::MissingClientId));
    assert_eq!(
        parse_login(r#"{"msg_type":"login","client_id":""}"#),
        Err(LoginError::MissingClientId)
    );
    assert_eq!(
        parse_login(r#"{"msg_type":"login","client_id":5}"#),
        Err(LoginError::MissingClientId)
    );
    assert_eq!(parse_login(r#"["login"]"#), Err(LoginError::NotLogin));
}

#[test]
fn login_decision_on_given_fields() {
    assert_eq!(
        decide_login(true, Some("login".to_string()), Some("c".to_string())),
        Ok("c".to_string())
    );
    assert_eq!(
        decide_login(false, Some("login".to_string()), Some("c".to_string())),
        Err(LoginError::InvalidJson)
    );
    assert_eq!(decide_login(true, None, Some("c".to_string())), Err(LoginError::NotLogin));
    assert_eq!(
        decide_login(true, Some("login".to_string()), Some(String::new())),
        Err(LoginError::MissingClientId)
    );
}

#[test]
fn realtime_events() {
    assert!(matches!(realtime_step(RealtimeEvent::OutboundMessage), RealtimeAction::Forward));
    assert!(matches!(realtime_step(RealtimeEvent::OutboundClosed), RealtimeAction::Finish));
    assert!(matches!(realtime_step(RealtimeEvent::InboundPing), RealtimeAction::Pong));
    assert!(matches!(realtime_step(RealtimeEvent::InboundClose), RealtimeAction::Finish));
    assert!(matches!(realtime_step(RealtimeEvent::InboundEnd), RealtimeAction::Finish));
    assert!(matches!(realtime_step(RealtimeEvent::InboundOther), RealtimeAction::Continue));
    assert!(matches!(realtime_step(RealtimeEvent::InboundFailed), RealtimeAction::Fail));
    match realtime_step(RealtimeEvent::InboundText(r#"{"msg_type":"next_customer"}"#.to_string())) {
        RealtimeAction::Dispatch(text) => assert_eq!(text, r#"{"msg_type":"next_customer"}"#),
        _ => panic!("a JSON message is dispatched"),
    }
    match realtime_step(RealtimeEvent::InboundText("{oops".to_string())) {
        RealtimeAction::IgnoreInvalid(text) => assert_eq!(text, "{oops"),
        _ => panic!("a message that is not JSON is ignored"),
    }
}

#[test]
fn client_commands() {
    assert_eq!(client_command(r#"{"msg_type":"next_customer"}"#), ClientCommand::NextCustomer);
    assert_eq!(
        client_command(r#"{"msg_type":"dance"}"#),
        ClientCommand::Unknown("dance".to_string())
    );
    assert_eq!(client_command(r#"{"kind":"next_customer"}"#), ClientCommand::Untyped);
    assert_eq!(client_command(r#"{"msg_type":1}"#), ClientCommand::Untyped);
    assert_eq!(command_for(Some("next_customer".to_string())), ClientCommand::NextCustomer);
    assert_eq!(command_for(None), ClientCommand::Untyped);
}

#[test]
fn offer_client() {
    assert_eq!(
        offer_client_id(r#"{"type":"offer","sdp":"v=0","client_id":"k"}"#),
        Ok("k".to_string())
    );
    assert_eq!(offer_client_id(r#"{"client_id":""}"#), Ok(String::new()));
    assert_eq!(offer_client_id(r#"{"type":"offer"}"#), Err(SignalingError::MissingClientId));
    assert_eq!(offer_client_id("<sdp>"), Err(SignalingError::InvalidJson));
    assert_eq!(decide_offer_client(false, Some("k".to_string())), Err(SignalingError::InvalidJson));
    assert_eq!(decide_offer_client(true, None), Err(SignalingError::MissingClientId));
}

#[test]
fn offer_finds_the_logged_in_session() {
    let mut table = SessionTable::new();
    table.insert("k".to_string(), 4, "session of k");
    assert_eq!(offer_session(&table, r#"{"client_id":"k"}"#), Ok(&"session of k"));
    assert_eq!(offer_session(&table, r#"{"client_id":"j"}"#), Err(SignalingError::NoSession));
    assert_eq!(offer_session(&table, r#"{}"#), Err(SignalingError::MissingClientId));
    assert_eq!(offer_session(&table, "x"), Err(SignalingError::InvalidJson));
}

#[test]
fn signaling_events() {
    assert_eq!(signaling_step(SignalingEvent::Close), SignalingAction::Stop);
    assert_eq!(signaling_step(SignalingEvent::Ping), SignalingAction::Pong);
    assert_eq!(signaling_step(SignalingEvent::Other), SignalingAction::Continue);
    assert_eq!(signaling_step(SignalingEvent::End), SignalingAction::Stop);
    assert_eq!(signaling_step(SignalingEvent::Failed), SignalingAction::Fail);
}
