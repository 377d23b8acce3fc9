use pp_klausur_manager::layer_session::{
    Phase, Purpose, Session, SessionAction, SessionEvent,
};

fn as_send(action: SessionAction) -> String {
    match action {
        SessionAction::Send(line) => line,
        other => panic!("expected a write, got {:?}", other),
    }
}

#[test]
fn layer_change_reads_the_greeting_before_it_writes() {
    let mut session = Session::change_layer("disabled");
    assert_eq!(session.purpose, Purpose::ChangeLayer);
    assert_eq!(session.phase, Phase::Connecting);
    assert!(!session.is_closed());
    assert!(matches!(session.step(SessionEvent::Connected), SessionAction::Receive));
    assert_eq!(session.phase, Phase::AwaitingGreeting);
    let greeting = b"{\"LayerChange\":{\"new\":\"enabled\"}}\n".to_vec();
    let line = as_send(session.step(SessionEvent::Received(greeting)));
    assert_eq!(line, "{\"ChangeLayer\":{\"new\":\"disabled\"}}\n");
    assert_eq!(session.phase, Phase::Sending);
    assert!(matches!(session.step(SessionEvent::Sent), SessionAction::Close));
    assert!(session.is_closed());
    assert_eq!(session.layer, None);
}

#[test]
fn layer_change_writes_even_when_the_read_failed() {
    let mut session = Session::change_layer("enabled");
    session.step(SessionEvent::Connected);
    let line = as_send(session.step(SessionEvent::ReceiveFailed));
    assert_eq!(line, "{\"ChangeLayer\":{\"new\":\"enabled\"}}\n");
    assert!(matches!(session.step(SessionEvent::SendFailed), SessionAction::Close));
    assert!(session.is_closed());
}

#[test]
fn session_ends_when_the_connection_fails() {
    let mut change = Session::change_layer("enabled");
    assert!(matches!(change.step(SessionEvent::ConnectFailed), SessionAction::Close));
    assert!(change.is_closed());
    let mut query = Session::query_layer();
    assert!(matches!(query.step(SessionEvent::ConnectFailed), SessionAction::Close));
    assert!(query.is_closed());
    assert_eq!(query.layer, None);
}

#[test]
fn query_keeps_the_layer_and_makes_the_daemon_hang_up() {
    let mut session = Session::query_layer();
    assert_eq!(session.purpose, Purpose::QueryLayer);
    assert!(matches!(session.step(SessionEvent::Connected), SessionAction::Receive));
    let answer = b"{\"LayerChange\":{\"new\":\"enabled\"}}\n".to_vec();
    let line = as_send(session.step(SessionEvent::Received(answer)));
    assert_eq!(line, "{}");
    assert_eq!(session.layer, Some("enabled".to_string()));
    assert!(!session.is_closed());
    assert!(matches!(session.step(SessionEvent::SendFailed), SessionAction::Close));
    assert!(session.is_closed());
    assert_eq!(session.layer, Some("enabled".to_string()));
}

#[test]
fn query_with_a_malformed_answer_still_hangs_up() {
    let mut session = Session::query_layer();
    session.step(SessionEvent::Connected);
    let line = as_send(session.step(SessionEvent::Received(b"garbage\n".to_vec())));
    assert_eq!(line, "{}");
    assert_eq!(session.layer, None);
    session.step(SessionEvent::Sent);
    assert!(session.is_closed());
}

#[test]
fn query_whose_read_failed_ends_without_writing() {
    let mut session = Session::query_layer();
    session.step(SessionEvent::Connected);
    assert!(matches!(session.step(SessionEvent::ReceiveFailed), SessionAction::Close));
    assert!(session.is_closed());
    assert_eq!(session.layer, None);
}

#[test]
fn unexpected_events_end_the_session() {
    let mut early = Session::change_layer("enabled");
    assert!(matches!(early.step(SessionEvent::Sent), SessionAction::Close));
    assert!(early.is_closed());
    let mut twice = Session::query_layer();
    twice.step(SessionEvent::Connected);
    assert!(matches!(twice.step(SessionEvent::Connected), SessionAction::Close));
    assert!(twice.is_closed());
    let mut late = Session::query_layer();
    late.step(SessionEvent::Connected);
    late.step(SessionEvent::Received(b"{\"LayerChange\":{\"new\":\"x\"}}\n".to_vec()));
    assert!(matches!(
        late.step(SessionEvent::Received(b"{\"LayerChange\":{\"new\":\"y\"}}\n".to_vec())),
        SessionAction::Close
    ));
    assert!(late.is_closed());
    assert_eq!(late.layer, Some("x".to_string()));
    assert!(matches!(late.step(SessionEvent::Connected), SessionAction::Close));
    assert!(late.is_closed());
}

#[test]
fn no_session_takes_more_than_three_events() {
    let scripts: Vec<Vec<fn() -> SessionEvent>> = vec![
        vec![|| SessionEvent::Connected, || SessionEvent::ReceiveFailed, || SessionEvent::Sent],
        vec![|| SessionEvent::Connected, || SessionEvent::Received(vec![1, 2, 3]), || {
            SessionEvent::SendFailed
        }],
        vec![|| SessionEvent::ConnectFailed],
        vec![|| SessionEvent::Received(vec![]), || SessionEvent::Connected],
    ];
    for script in &scripts {
        for make in [Session::query_layer as fn() -> Session, || Session::change_layer("x")] {
            let mut session = make();
            let mut taken = 0;
            for event in script {
                if session.is_closed() {
                    break;
                }
                session.step(event());
                taken += 1;
            }
            assert!(session.is_closed());
            assert!(taken <= 3);
        }
    }
}
