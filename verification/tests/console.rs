use axum::http::Request;
use tokio_otp::console::config::{ActorStatsView, BindAddress, ConsoleBuilder, IpAddress};
use tokio_otp::console::security::{
    allowed_hosts, bearer_token, cookie_value, host_allowed, insert_authority, origin_allowed,
    request_authority, token_from_query, token_matches, warns_of_wildcard, Answer, Decision,
    HostSet, OriginHeader, RequestHead, SecurityState,
};
use tokio_otp::console::session::{new_session, Session};
use tokio_otp::console::socket::{
    frame_message, FrameKind, SocketAction, SocketEvent, SocketSession,
};

const LOOPBACK: IpAddress = IpAddress::V4([127, 0, 0, 1]);

fn get(path: &str) -> RequestHead {
    RequestHead {
        method: "GET".to_owned(),
        path: path.to_owned(),
        query: None,
        uri_authority: None,
        host: Some("127.0.0.1:9100".to_owned()),
        origin: OriginHeader::Absent,
        authorization: None,
        cookie: None,
    }
}

fn local_hosts() -> HostSet {
    allowed_hosts(&Vec::new(), "127.0.0.1:9100", LOOPBACK, 9100)
}

fn protected() -> SecurityState {
    let session = Session::from_bytes(9100, &[0xab, 0x01]);
    SecurityState::new(local_hosts(), Some(("test-token".to_owned(), session)))
}

fn answer(decision: Decision) -> Answer {
    match decision {
        Decision::Respond(answer) => answer,
        Decision::Forward => panic!("request was let through"),
    }
}

fn header<'a>(answer: &'a Answer, name: &str) -> Option<&'a str> {
    answer
        .headers
        .iter()
        .find(|(key, _)| *key == name)
        .map(|(_, value)| value.as_str())
}

#[test]
fn request_authority_falls_back_to_http2_uri_authority() {
    let request = Request::builder()
        .uri("http://console.example:9100/")
        .body(())
        .expect("failed to build request");
    let mut head = get(request.uri().path());
    head.host = None;
    head.uri_authority = request
        .uri()
        .authority()
        .map(|authority| authority.as_str().to_owned());
    assert_eq!(request_authority(&head), Some("console.example:9100"));
}

#[test]
fn host_header_comes_before_the_uri() {
    let mut head = get("/");
    head.uri_authority = Some("other:1".to_owned());
    assert_eq!(request_authority(&head), Some("127.0.0.1:9100"));
    head.host = None;
    head.uri_authority = None;
    assert_eq!(request_authority(&head), None);
    assert!(!host_allowed(&head, &local_hosts()));
}

#[test]
fn unlisted_hosts_are_forbidden() {
    let state = SecurityState::new(local_hosts(), None);
    let mut head = get("/");
    head.host = Some("attacker.example".to_owned());
    let refused = answer(state.security(&head));
    assert_eq!(refused.status, 403);
    assert_eq!(refused.body, "host not allowed");

    head.host = Some("LOCALHOST:9100".to_owned());
    assert!(matches!(state.security(&head), Decision::Forward));
}

#[test]
fn foreign_origins_open_no_socket() {
    let state = SecurityState::new(local_hosts(), None);
    let mut head = get("/ws");
    head.origin = OriginHeader::Text("https://attacker.example".to_owned());
    assert_eq!(answer(state.security(&head)).status, 403);
    head.origin = OriginHeader::Unreadable;
    assert_eq!(answer(state.security(&head)).status, 403);
    head.origin = OriginHeader::Text("http://127.0.0.1:9100".to_owned());
    assert!(matches!(state.security(&head), Decision::Forward));
    head.origin = OriginHeader::Text("HTTPS://127.0.0.1:9100".to_owned());
    assert!(matches!(state.security(&head), Decision::Forward));
    head.origin = OriginHeader::Absent;
    assert!(matches!(state.security(&head), Decision::Forward));
    assert!(origin_allowed(&head));

    let mut page = get("/");
    page.origin = OriginHeader::Text("https://attacker.example".to_owned());
    assert!(matches!(state.security(&page), Decision::Forward));
}

#[test]
fn token_opens_the_page_and_hands_out_a_session() {
    let state = protected();

    let unauthorized = answer(state.security(&get("/")));
    assert_eq!(unauthorized.status, 401);
    assert_eq!(header(&unauthorized, "www-authenticate"), Some("Bearer"));
    assert_eq!(unauthorized.body, "valid bearer token required");

    let mut wrong = get("/");
    wrong.query = Some("token=wrong".to_owned());
    let wrong = answer(state.security(&wrong));
    assert_eq!(wrong.status, 401);
    assert_eq!(header(&wrong, "set-cookie"), None);

    let mut bootstrap = get("/");
    bootstrap.query = Some("token=test-token".to_owned());
    let bootstrap = answer(state.security(&bootstrap));
    assert_eq!(bootstrap.status, 303);
    assert_eq!(header(&bootstrap, "location"), Some("/"));
    assert_eq!(header(&bootstrap, "referrer-policy"), Some("no-referrer"));
    assert_eq!(header(&bootstrap, "cache-control"), Some("no-store"));
    let cookie = header(&bootstrap, "set-cookie").expect("session cookie");
    assert_eq!(
        cookie,
        "tokio_otp_console_session_9100=ab01; HttpOnly; SameSite=Lax; Path=/"
    );
    let (cookie, _) = cookie.split_once(';').expect("attributes");

    let mut with_cookie = get("/");
    with_cookie.cookie = Some(format!("a=b; {cookie}"));
    assert!(matches!(state.security(&with_cookie), Decision::Forward));

    let mut with_bearer = get("/");
    with_bearer.authorization = Some("bearer test-token".to_owned());
    assert!(matches!(state.security(&with_bearer), Decision::Forward));

    let mut socket_query = get("/ws");
    socket_query.query = Some("token=test-token".to_owned());
    assert_eq!(answer(state.security(&socket_query)).status, 401);

    let mut socket_cookie = get("/ws");
    socket_cookie.cookie = Some(cookie.to_owned());
    assert!(matches!(state.security(&socket_cookie), Decision::Forward));

    let mut posted = get("/");
    posted.method = "POST".to_owned();
    posted.query = Some("token=test-token".to_owned());
    assert_eq!(answer(state.security(&posted)).status, 401);
}

#[test]
fn allowlists_accept_default_port_forms() {
    let hosts = allowed_hosts(
        &vec!["Console.Example:80".to_owned()],
        "127.0.0.1:9100",
        LOOPBACK,
        9100,
    );
    assert!(hosts.contains("console.example"));
    assert!(hosts.contains("console.example:80"));
    assert!(hosts.contains("127.0.0.1:9100"));
    assert!(hosts.contains("localhost:9100"));
    assert!(!hosts.contains("console.example:9100"));

    let mut secure = HostSet::new();
    insert_authority(&mut secure, "console.example:443");
    assert!(secure.contains("console.example"));
    assert!(secure.contains("console.example:443"));
    assert!(!secure.contains("console.example:80"));

    let remote = allowed_hosts(&Vec::new(), "0.0.0.0:80", IpAddress::V4([0, 0, 0, 0]), 80);
    assert!(remote.contains("0.0.0.0"));
    assert!(!remote.contains("localhost"));
}

#[test]
fn wildcard_binds_are_warned_about() {
    let any = IpAddress::V4([0, 0, 0, 0]);
    assert!(warns_of_wildcard(any, &Vec::new()));
    assert!(!warns_of_wildcard(any, &vec!["a".to_owned()]));
    assert!(!warns_of_wildcard(LOOPBACK, &Vec::new()));
    assert!(warns_of_wildcard(IpAddress::V6([0; 8]), &Vec::new()));
    assert!(IpAddress::V6([0, 0, 0, 0, 0, 0, 0, 1]).is_loopback());
    assert!(!IpAddress::V6([0, 0, 0, 0, 0, 0, 1, 1]).is_loopback());
    assert!(IpAddress::V4([127, 9, 9, 9]).is_loopback());
}

#[test]
fn credentials_are_read_from_their_places() {
    let mut head = get("/");
    head.query = Some("a=1&token&token=x=y&token=z".to_owned());
    assert_eq!(token_from_query(&head), Some("x=y".to_owned()));
    head.query = Some("tokens=1".to_owned());
    assert_eq!(token_from_query(&head), None);
    head.query = Some(String::new());
    assert_eq!(token_from_query(&head), None);

    head.authorization = Some("BEARER a b".to_owned());
    assert_eq!(bearer_token(&head), Some("a b".to_owned()));
    head.authorization = Some("Basic a".to_owned());
    assert_eq!(bearer_token(&head), None);
    head.authorization = Some("Bearer".to_owned());
    assert_eq!(bearer_token(&head), None);

    head.cookie = Some("x=1;\t name=va=lue ;name=second".to_owned());
    assert_eq!(cookie_value(&head, "name"), Some("va=lue".to_owned()));
    assert_eq!(cookie_value(&head, "other"), None);
}

#[test]
fn tokens_match_only_themselves() {
    assert!(token_matches(Some("test-token"), "test-token"));
    assert!(!token_matches(Some("test-toke"), "test-token"));
    assert!(!token_matches(Some("test-token\0"), "test-token"));
    assert!(!token_matches(Some("Test-token"), "test-token"));
    assert!(!token_matches(None, "test-token"));
    assert!(token_matches(Some(""), ""));
    assert!(token_matches(Some("\u{e9}"), "\u{e9}"));
}

#[test]
fn sessions_are_random_and_hexadecimal() {
    let first = new_session(8080).ok().expect("random bytes").session;
    let second = new_session(8080).ok().expect("random bytes").session;
    assert_eq!(first.cookie_name(), "tokio_otp_console_session_8080");
    assert_eq!(first.value().len(), 64);
    assert!(first
        .value()
        .chars()
        .all(|c| c.is_ascii_digit() || ('a'..='f').contains(&c)));
    assert_ne!(first.value(), second.value());
    assert_eq!(Session::from_bytes(1, &[0, 15, 255]).value(), "000fff");
}

type Builder = ConsoleBuilder<u8, u8, ()>;

#[test]
#[should_panic(expected = "access_token required for non-loopback binds")]
fn non_loopback_bind_requires_token() {
    let mut builder = Builder::new(());
    builder.snapshots(1);
    builder.events(2);
    builder.bind(BindAddress {
        ip: IpAddress::V4([0, 0, 0, 0]),
        port: 9100,
        flow_info: 0,
        scope_id: 0,
    });
    if let Some(problem) = builder.problem() {
        panic!("{problem}");
    }
    let _console = builder.build();
}

#[test]
fn configurations_are_checked_in_order() {
    let mut builder = Builder::new(());
    builder.access_token("");
    assert_eq!(
        builder.problem(),
        Some("ConsoleBuilder: access_token must be non-empty URL-safe ASCII")
    );
    builder.access_token("a b");
    assert!(builder.problem().is_some());
    builder.access_token("aZ09-._~");
    assert_eq!(builder.problem(), Some("ConsoleBuilder: snapshots required"));
    builder.snapshots(1);
    assert_eq!(builder.problem(), Some("ConsoleBuilder: events required"));
    builder.events(2);
    builder.allowed_host("console.example");
    assert_eq!(builder.problem(), None);
    let console = builder.build();
    assert_eq!((console.snapshots, console.events), (1, 2));
    assert_eq!(console.bind.port, 9100);
    assert_eq!(console.access_token.as_deref(), Some("aZ09-._~"));
    assert_eq!(console.allowed_hosts, vec!["console.example".to_owned()]);
}

fn stats(mailbox_depth: usize) -> Vec<ActorStatsView> {
    vec![ActorStatsView {
        actor_id: "worker".into(),
        messages_received: 11,
        messages_accepted: 10,
        messages_conflated: 3,
        message_bytes_accepted: None,
        sends_rejected: 1,
        mailbox_depth,
        mailbox_capacity: 32,
    }]
}

#[test]
fn connections_get_snapshot_then_stats_then_changes() {
    let (mut socket, first) = SocketSession::connect();
    assert_eq!(first, SocketAction::Send(FrameKind::Snapshot));
    assert_eq!(socket.step(SocketEvent::Sent), SocketAction::SampleStats);
    assert_eq!(
        socket.step(SocketEvent::StatsSampled(stats(3))),
        SocketAction::Send(FrameKind::ActorStats)
    );
    assert_eq!(socket.step(SocketEvent::Sent), SocketAction::Wait);
    assert_eq!(
        socket.step(SocketEvent::StatsSampled(stats(3))),
        SocketAction::Wait
    );
    assert_eq!(
        socket.step(SocketEvent::StatsSampled(stats(4))),
        SocketAction::Send(FrameKind::ActorStats)
    );
    assert_eq!(socket.last_stats()[0].mailbox_depth, 4);
    assert_eq!(
        socket.step(SocketEvent::SnapshotChanged),
        SocketAction::Send(FrameKind::Snapshot)
    );
    assert_eq!(
        socket.step(SocketEvent::EventReceived),
        SocketAction::Send(FrameKind::Event)
    );
    assert_eq!(
        socket.step(SocketEvent::EventsLagged(5)),
        SocketAction::ReportLag(5)
    );
    assert_eq!(socket.step(SocketEvent::ClientMessage), SocketAction::Wait);
    assert_eq!(socket.step(SocketEvent::EventsClosed), SocketAction::Close);
    assert_eq!(socket.step(SocketEvent::SnapshotChanged), SocketAction::Close);
}

#[test]
fn empty_stats_are_sent_on_connect_and_failures_close() {
    let (mut socket, _) = SocketSession::connect();
    socket.step(SocketEvent::Sent);
    assert_eq!(
        socket.step(SocketEvent::StatsSampled(Vec::new())),
        SocketAction::Send(FrameKind::ActorStats)
    );
    assert_eq!(
        socket.step(SocketEvent::StatsSampled(Vec::new())),
        SocketAction::Wait
    );
    for last in [
        SocketEvent::SendFailed,
        SocketEvent::SnapshotsClosed,
        SocketEvent::ClientGone,
    ] {
        let (mut socket, _) = SocketSession::connect();
        assert_eq!(socket.step(last), SocketAction::Close);
    }
    assert_eq!(FrameKind::Snapshot.as_str(), "snapshot");
    assert_eq!(FrameKind::Event.as_str(), "event");
    assert_eq!(FrameKind::ActorStats.as_str(), "actor_stats");
}

#[test]
fn frames_are_objects_with_type_and_data() {
    assert_eq!(
        frame_message(FrameKind::Event, "[1,\"a\"]"),
        "{\"data\":[1,\"a\"],\"type\":\"event\"}"
    );
    let mut expected = serde_json::Map::new();
    expected.insert("type".to_owned(), serde_json::Value::from("snapshot"));
    expected.insert("data".to_owned(), serde_json::Value::from(vec![7, 8]));
    let data = serde_json::to_string(&vec![7, 8]).expect("numbers serialize");
    assert_eq!(
        frame_message(FrameKind::Snapshot, &data),
        serde_json::Value::Object(expected).to_string()
    );
}
