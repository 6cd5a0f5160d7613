use ccg_bot::eventsub::{
    classify_frame, Action, EventError, Frame, Notice, RunEnd, SocketEvent, SubKind,
    WebsocketClient,
};
use ccg_bot::time::Dur;
use ccg_bot::tokens::{AppToken, Token};

const WELCOME: &str = "{\"metadata\":{\"message_type\":\"session_welcome\"},\
    \"payload\":{\"session\":{\"id\":\"AgoQ4JtKY91JT2a8FuNEDgaWeRIGY2VsbC1i\",\
    \"reconnect_url\":null}}}";

const WELCOME_WITH_URL: &str = "{\"metadata\":{\"message_type\":\"session_welcome\"},\
    \"payload\":{\"session\":{\"id\":\"NewSession\",\
    \"reconnect_url\":\"wss://example.invalid/next\"}}}";

const KEEPALIVE: &str = "{\"metadata\":{\"message_type\":\"session_keepalive\"}}";

const REVOCATION: &str = "{\"metadata\":{\"message_type\":\"revocation\"},\
    \"payload\":{\"subscription\":{\"type\":\"channel.ban\"}}}";

const BAN_NOTIFICATION: &str = "{\"metadata\":{\"message_type\":\"notification\"},\
    \"payload\":{\
        \"subscription\":{\
            \"id\":\"3934e444-0cc9-44d8-9e03-8b35277dde03\",\
            \"status\":\"enabled\",\
            \"type\":\"channel.ban\",\
            \"version\":\"1\",\
            \"condition\":{\"broadcaster_user_id\":\"12345678\"},\
            \"transport\":{\"method\":\"websocket\",\
                \"session_id\":\"AgoQ4JtKY91JT2a8FuNEDgaWeRIGY2VsbC1i\"},\
            \"created_at\":\"2024-09-30T05:32:33.999694466Z\",\
            \"cost\":0},\
        \"event\":{\
            \"user_id\":\"696969690\",\
            \"user_login\":\"testbanuser\",\
            \"user_name\":\"TestBanUser\",\
            \"broadcaster_user_id\":\"12345678\",\
            \"broadcaster_user_login\":\"testbroadcaster\",\
            \"broadcaster_user_name\":\"TestBroadcaster\",\
            \"moderator_user_id\":\"87654321\",\
            \"moderator_user_login\":\"testmoderator\",\
            \"moderator_user_name\":\"TestModerator\",\
            \"reason\":\"\",\
            \"banned_at\":\"2024-09-30T05:35:13.221774018Z\",\
            \"ends_at\":null,\
            \"is_permanent\":true}}}";

const UNBAN_NOTIFICATION: &str = "{\"metadata\":{\"message_type\":\"notification\"},\
    \"payload\":{\"subscription\":{\"type\":\"channel.unban\"},\
    \"event\":{\"user_id\":\"696969690\",\"user_login\":\"testbanuser\",\
    \"broadcaster_user_id\":\"12345678\",\"moderator_user_id\":\"87654321\"}}}";

fn test_client(channels: Vec<&str>, bot_name: &str) -> WebsocketClient {
    let user_token = Token {
        access_token: String::from("access"),
        refresh_token: String::from("refresh"),
        created_at: 1700000000,
        expires_at: 1700003600,
        struct_created: std::time::Instant::now(),
        expires_in: Dur::from_secs(3600),
        clientid: String::from("clientid"),
        uid: String::from("12345"),
        name: String::from(bot_name),
        client_secret: String::from("secret"),
    };
    let app_token = AppToken::new(
        String::from("app-access"),
        None,
        3600,
        String::from("clientid"),
        String::from("secret"),
        vec![],
    );
    WebsocketClient::new(
        user_token,
        app_token,
        String::from("12345"),
        String::from("wss://eventsub.wss.twitch.tv/ws"),
        channels.into_iter().map(String::from).collect(),
        String::from(bot_name),
    )
}

fn count_subscribes(actions: &[Action], channel: &str, kind: SubKind) -> usize {
    actions
        .iter()
        .filter(|a| match a {
            Action::Subscribe(c, k) => c == channel && *k == kind,
            _ => false,
        })
        .count()
}

#[test]
fn deserialize_eventroot() {
    match classify_frame(BAN_NOTIFICATION) {
        Some(Frame::Notification(Notice::Ban(e))) => {
            assert_eq!(e.user_id, "696969690");
            assert_eq!(e.user_login, "testbanuser");
            assert_eq!(e.broadcaster_user_id, "12345678");
            assert_eq!(e.moderator_user_id, "87654321");
            assert_eq!(e.reason, "");
            assert!(e.is_permanent);
        },
        other => panic!("unexpected classification: {:?}", other),
    }
}

#[test]
fn classify_handshake_frames() {
    match classify_frame(WELCOME) {
        Some(Frame::Welcome(s)) => {
            assert_eq!(s.id, "AgoQ4JtKY91JT2a8FuNEDgaWeRIGY2VsbC1i");
            assert!(s.reconnect_url.is_none());
        },
        other => panic!("unexpected classification: {:?}", other),
    }
    assert!(matches!(classify_frame(KEEPALIVE), Some(Frame::Keepalive)));
    assert!(matches!(classify_frame(REVOCATION), Some(Frame::Revocation)));
    assert!(matches!(
        classify_frame(UNBAN_NOTIFICATION),
        Some(Frame::Notification(Notice::Unban(_)))
    ));
    assert!(classify_frame("not json at all").is_none());
    assert!(classify_frame("{\"payload\":{}}").is_none());
}

#[test]
fn scripted_run_subscribes_dispatches_and_closes() {
    // Welcome, one ban notification, then a clean close: the client
    // subscribes exactly once per configured channel (ban and unban),
    // dispatches exactly one ban, and ends without error.
    let mut client = test_client(vec!["botname"], "botname");
    let events = vec![
        SocketEvent::Text(String::from(WELCOME)),
        SocketEvent::Text(String::from(BAN_NOTIFICATION)),
        SocketEvent::Close(None),
    ];
    let (outcome, actions) = client.run_script(&events, false);
    assert_eq!(outcome.unwrap(), RunEnd::Clean);
    assert_eq!(client.session_id.as_deref(), Some("AgoQ4JtKY91JT2a8FuNEDgaWeRIGY2VsbC1i"));
    assert_eq!(count_subscribes(&actions, "botname", SubKind::Ban), 1);
    assert_eq!(count_subscribes(&actions, "botname", SubKind::Unban), 1);
    let bans = actions
        .iter()
        .filter(|a| matches!(a, Action::DispatchBan(_)))
        .count();
    assert_eq!(bans, 1);
    assert_eq!(actions.iter().filter(|a| matches!(a, Action::Reconnect)).count(), 0);
}

#[test]
fn channels_not_matching_bot_are_skipped() {
    let mut client = test_client(vec!["SomeoneElse", "BotName"], "botname");
    let events = vec![SocketEvent::Text(String::from(WELCOME))];
    let (outcome, actions) = client.run_script(&events, false);
    assert_eq!(outcome.unwrap(), RunEnd::Exhausted);
    // The bot's own channel matches case-insensitively; the other is
    // skipped entirely.
    assert_eq!(count_subscribes(&actions, "BotName", SubKind::Ban), 1);
    assert_eq!(count_subscribes(&actions, "BotName", SubKind::Unban), 1);
    assert_eq!(count_subscribes(&actions, "SomeoneElse", SubKind::Ban), 0);
    assert_eq!(count_subscribes(&actions, "SomeoneElse", SubKind::Unban), 0);
}

#[test]
fn reset_reconnects_transparently() {
    // A reset without a close handshake once, then a successful session:
    // the client reconnects exactly once and surfaces no error.
    let mut client = test_client(vec!["botname"], "botname");
    let events = vec![
        SocketEvent::Reset,
        SocketEvent::Text(String::from(WELCOME)),
        SocketEvent::Close(None),
    ];
    let (outcome, actions) = client.run_script(&events, false);
    assert_eq!(outcome.unwrap(), RunEnd::Clean);
    let reconnects = actions.iter().filter(|a| matches!(a, Action::Reconnect)).count();
    assert_eq!(reconnects, 1);
}

#[test]
fn revocation_is_fatal_at_any_point() {
    // Immediately.
    let mut c1 = test_client(vec!["botname"], "botname");
    let (o1, _) = c1.run_script(&vec![SocketEvent::Text(String::from(REVOCATION))], false);
    assert!(matches!(o1, Err(EventError::Revoked)));
    // After a handshake and traffic.
    let mut c2 = test_client(vec!["botname"], "botname");
    let events = vec![
        SocketEvent::Text(String::from(WELCOME)),
        SocketEvent::Text(String::from(KEEPALIVE)),
        SocketEvent::Text(String::from(REVOCATION)),
        SocketEvent::Close(None),
    ];
    let (o2, actions) = c2.run_script(&events, false);
    assert!(matches!(o2, Err(EventError::Revoked)));
    // The run stopped at the revocation: the clean close was never seen.
    assert!(actions.iter().all(|a| !matches!(a, Action::Reconnect)));
}

#[test]
fn ping_is_echoed() {
    let mut client = test_client(vec!["botname"], "botname");
    let step = client
        .process_message(&SocketEvent::Ping(vec![1, 2, 3]), false)
        .unwrap();
    assert!(!step.done);
    assert_eq!(step.actions.len(), 1);
    match &step.actions[0] {
        Action::SendPong(p) => assert_eq!(p, &vec![1, 2, 3]),
        other => panic!("unexpected action: {:?}", other),
    }
}

#[test]
fn close_with_reason_is_an_error() {
    let mut client = test_client(vec!["botname"], "botname");
    let r = client.process_message(
        &SocketEvent::Close(Some(ccg_bot::eventsub::CloseInfo {
            code: 4007,
            reason: String::from("invalid reconnect"),
        })),
        false,
    );
    match r {
        Err(EventError::SocketClosed(c)) => {
            assert_eq!(c.code, 4007);
            assert_eq!(c.reason, "invalid reconnect");
        },
        other => panic!("unexpected result: {:?}", other),
    }
}

#[test]
fn notification_before_welcome_is_a_protocol_violation() {
    let mut client = test_client(vec!["botname"], "botname");
    let r = client.process_message(&SocketEvent::Text(String::from(BAN_NOTIFICATION)), false);
    assert!(matches!(r, Err(EventError::NotificationBeforeWelcome)));
}

#[test]
fn malformed_frame_is_fatal() {
    let mut client = test_client(vec!["botname"], "botname");
    let r = client.process_message(&SocketEvent::Text(String::from("{}")), false);
    assert!(matches!(r, Err(EventError::MalformedFrame)));
}

#[test]
fn socket_failure_is_fatal() {
    let mut client = test_client(vec!["botname"], "botname");
    let r = client.process_message(&SocketEvent::Failed(String::from("io error")), false);
    match r {
        Err(EventError::SocketFailed(m)) => assert_eq!(m, "io error"),
        other => panic!("unexpected result: {:?}", other),
    }
}

#[test]
fn reconnect_url_is_adopted() {
    let mut client = test_client(vec!["botname"], "botname");
    let r = client.process_message(&SocketEvent::Text(String::from(WELCOME_WITH_URL)), false);
    assert!(r.is_ok());
    assert_eq!(client.session_id.as_deref(), Some("NewSession"));
    assert_eq!(client.connect_url, "wss://example.invalid/next");
}

#[test]
fn elapsed_token_is_refreshed_before_subscribing() {
    let mut client = test_client(vec!["botname"], "botname");
    let step = client
        .process_message(&SocketEvent::Text(String::from(WELCOME)), true)
        .unwrap();
    assert!(matches!(step.actions[0], Action::RefreshToken));
    assert_eq!(count_subscribes(&step.actions, "botname", SubKind::Ban), 1);
}

#[test]
fn keepalive_and_unknown_frames_are_ignored() {
    let mut client = test_client(vec!["botname"], "botname");
    let s1 = client.process_message(&SocketEvent::Text(String::from(KEEPALIVE)), false).unwrap();
    assert!(!s1.done && s1.actions.is_empty());
    let unknown = "{\"metadata\":{\"message_type\":\"session_party\"}}";
    let s2 = client.process_message(&SocketEvent::Text(String::from(unknown)), false).unwrap();
    assert!(!s2.done && s2.actions.is_empty());
    let s3 = client.process_message(&SocketEvent::Binary(vec![0, 1]), false).unwrap();
    assert!(!s3.done && s3.actions.is_empty());
    let s4 = client.process_message(&SocketEvent::Pong(vec![]), false).unwrap();
    assert!(!s4.done && s4.actions.is_empty());
}
