use falcon::session::{
    confirms_subscription, is_subscribed_type, Frame, Phase, Session, SessionAction,
    SessionEvent, TransportError,
};

fn streaming_session() -> Session {
    let mut s = Session::new();
    assert_eq!(s.handle(SessionEvent::Connected), SessionAction::SendLogin);
    assert_eq!(s.handle(SessionEvent::LoginSent), SessionAction::ReadNext);
    s
}

fn text(t: &str) -> SessionEvent {
    SessionEvent::Received(Frame::Text(t.to_string()))
}

#[test]
fn new_session_connects_then_logs_in() {
    let mut s = Session::new();
    assert_eq!(s.phase(), Phase::Connecting);
    assert_eq!(s.handle(SessionEvent::Connected), SessionAction::SendLogin);
    assert_eq!(s.phase(), Phase::Connecting);
    assert_eq!(s.handle(SessionEvent::LoginSent), SessionAction::ReadNext);
    assert_eq!(s.phase(), Phase::AwaitingAuthConfirmation);
}

#[test]
fn subscribed_frame_confirms() {
    let mut s = streaming_session();
    assert_eq!(
        s.handle(text("{\"type\":\"subscribed\",\"channel\":\"user\"}")),
        SessionAction::ReportConfirmation
    );
    assert_eq!(s.phase(), Phase::Streaming);
    assert_eq!(s.handle(text("{\"type\":\"subscribed\"}")), SessionAction::ReportConfirmation);
    assert_eq!(s.phase(), Phase::Streaming);
}

#[test]
fn ping_is_echoed_once_with_same_payload() {
    let mut s = streaming_session();
    let payload = vec![1u8, 2, 3, 250];
    assert_eq!(
        s.handle(SessionEvent::Received(Frame::Ping(payload.clone()))),
        SessionAction::SendPong(payload)
    );
    assert_eq!(s.handle(SessionEvent::PongSent), SessionAction::ReportHeartbeat);
    assert_eq!(s.phase(), Phase::AwaitingAuthConfirmation);
    assert_eq!(
        s.handle(SessionEvent::Received(Frame::Ping(vec![]))),
        SessionAction::SendPong(vec![])
    );
}

#[test]
fn malformed_text_is_ignored() {
    let mut s = streaming_session();
    assert_eq!(s.handle(text("{not json")), SessionAction::ReadNext);
    assert_eq!(s.handle(text("{\"channel\":\"user\"}")), SessionAction::ReadNext);
    assert_eq!(s.handle(text("[1,2]")), SessionAction::ReadNext);
    assert_eq!(s.handle(text("{\"type\":\"error\"}")), SessionAction::ReadNext);
    assert_eq!(s.handle(text("{\"type\":7}")), SessionAction::ReadNext);
    assert_eq!(s.phase(), Phase::AwaitingAuthConfirmation);
    assert_eq!(s.handle(text("{\"type\":\"subscribed\"}")), SessionAction::ReportConfirmation);
    assert_eq!(s.phase(), Phase::Streaming);
}

#[test]
fn other_frames_are_ignored() {
    let mut s = streaming_session();
    assert_eq!(s.handle(SessionEvent::Received(Frame::Binary(vec![9]))), SessionAction::ReadNext);
    assert_eq!(s.handle(SessionEvent::Received(Frame::Pong(vec![9]))), SessionAction::ReadNext);
    assert_eq!(s.phase(), Phase::AwaitingAuthConfirmation);
}

#[test]
fn close_and_end_finish_cleanly() {
    let mut s = streaming_session();
    assert_eq!(s.handle(SessionEvent::Received(Frame::Close)), SessionAction::Finish);
    assert_eq!(s.phase(), Phase::Closed);
    let mut t = streaming_session();
    assert_eq!(t.handle(SessionEvent::StreamEnded), SessionAction::Finish);
    assert_eq!(t.phase(), Phase::Closed);
    assert_eq!(t.handle(text("{\"type\":\"subscribed\"}")), SessionAction::Finish);
}

#[test]
fn transport_errors_fail_the_attempt() {
    let mut s = Session::new();
    let e = TransportError::Connect("refused".to_string());
    assert_eq!(s.handle(SessionEvent::Failed(e.clone())), SessionAction::Fail(e));
    assert_eq!(s.phase(), Phase::Errored);
    let mut t = streaming_session();
    let e = TransportError::Read("reset".to_string());
    assert_eq!(t.handle(SessionEvent::Failed(e.clone())), SessionAction::Fail(e));
    assert_eq!(t.phase(), Phase::Errored);
    assert_eq!(t.handle(SessionEvent::PongSent), SessionAction::Finish);
    let mut u = streaming_session();
    u.handle(SessionEvent::Received(Frame::Ping(vec![1])));
    let e = TransportError::Send("broken pipe".to_string());
    assert_eq!(u.handle(SessionEvent::Failed(e.clone())), SessionAction::Fail(e));
}

#[test]
fn subscribed_type_check() {
    assert!(is_subscribed_type(&Some("subscribed".to_string())));
    assert!(!is_subscribed_type(&Some("subscribe".to_string())));
    assert!(!is_subscribed_type(&Some("Subscribed".to_string())));
    assert!(!is_subscribed_type(&None));
}

#[test]
fn subscription_confirmation_from_text() {
    assert!(confirms_subscription("{\"type\":\"subscribed\"}"));
    assert!(confirms_subscription(" { \"id\": 3, \"type\" : \"subscribed\" } "));
    assert!(!confirms_subscription("{\"type\":\"subscribed\""));
    assert!(!confirms_subscription("\"subscribed\""));
    assert!(!confirms_subscription("{\"kind\":\"subscribed\"}"));
    assert!(!confirms_subscription(""));
}
