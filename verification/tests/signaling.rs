use rd_agent::config::{
    config_base, config_names, hostname_or, server_url_or_default, AgentConfig, ConfigBase,
};
use rd_agent::protocol::{IceServer, SdpDesc, SignalingMessage, Urls};
use rd_agent::provision::{
    is_success, ProvisionError, ProvisionReply, ProvisionRequest, ProvisionStep, Provisioning,
};
use rd_agent::signaling::{
    next_backoff, ws_url_from, AfterSession, Reconnect, SendResult, SessionOutcome,
    SignalingAction, SignalingEvent, SignalingSession,
};
use rd_agent::time::Duration;

#[test]
fn ws_url_http_to_ws() {
    assert_eq!(ws_url_from("http://127.0.0.1:8080"), "ws://127.0.0.1:8080");
    assert_eq!(ws_url_from("https://x.example:443"), "wss://x.example:443");
}

#[test]
fn other_addresses_stand_as_they_are() {
    assert_eq!(ws_url_from("ws://h:1"), "ws://h:1");
    assert_eq!(ws_url_from("HTTP://h"), "HTTP://h");
    assert_eq!(ws_url_from("http:/"), "http:/");
    assert_eq!(ws_url_from(""), "");
    assert_eq!(ws_url_from("http://http://h"), "ws://http://h");
}

#[test]
fn backoff_doubles_and_caps_at_30s() {
    assert_eq!(next_backoff(Duration::from_secs(1)), Duration::from_secs(2));
    assert_eq!(next_backoff(Duration::from_secs(2)), Duration::from_secs(4));
    assert_eq!(next_backoff(Duration::from_secs(16)), Duration::from_secs(30)); // 32 capped
    assert_eq!(next_backoff(Duration::from_secs(30)), Duration::from_secs(30));
}

#[test]
fn backoff_of_the_longest_duration_is_capped() {
    assert_eq!(next_backoff(Duration { nanos: u128::MAX }), Duration::from_secs(30));
    assert_eq!(next_backoff(Duration::from_millis(14_999)), Duration::from_millis(29_998));
}

#[test]
fn waits_double_and_a_stable_connection_starts_them_over() {
    let mut r = Reconnect::new();
    let short = Duration::from_secs(5);
    let mut waits = Vec::new();
    for _ in 0..7 {
        waits.push(r.after_session(SessionOutcome::Retry, short));
    }
    let secs = |n: u64| AfterSession::ReconnectIn(Duration::from_secs(n));
    assert_eq!(waits, vec![secs(1), secs(2), secs(4), secs(8), secs(16), secs(30), secs(30)]);
    assert_eq!(r.after_session(SessionOutcome::Retry, Duration::from_secs(60)), secs(1));
    assert_eq!(r.after_session(SessionOutcome::Retry, short), secs(2));
    assert_eq!(
        r.after_session(SessionOutcome::Fatal("no".to_string()), short),
        AfterSession::Stop("no".to_string())
    );
}

fn config() -> AgentConfig {
    AgentConfig {
        server_url: "http://127.0.0.1:9".to_string(),
        device_id: "d".to_string(),
        device_token: "t".to_string(),
    }
}

fn online() -> SignalingSession {
    let mut s = SignalingSession::new(&config());
    assert_eq!(
        s.on_event(SignalingEvent::Connected(true)),
        SignalingAction::Send(SignalingMessage::AgentOnline { token: "t".to_string() })
    );
    assert_eq!(s.on_event(SignalingEvent::Sent(SendResult::Sent)), SignalingAction::Wait);
    s
}

fn serving(id: &str) -> SignalingSession {
    let mut s = online();
    let incoming = SignalingMessage::Incoming {
        session_id: id.to_string(),
        relay_policy: "relay-fallback".to_string(),
        ice_servers: Vec::new(),
    };
    assert_eq!(
        s.on_event(SignalingEvent::Received(incoming)),
        SignalingAction::OpenPeer {
            session_id: id.to_string(),
            relay_policy: "relay-fallback".to_string(),
            ice_servers: Vec::new(),
        }
    );
    assert_eq!(
        s.on_event(SignalingEvent::PeerOpened { session_id: id.to_string(), opened: true }),
        SignalingAction::Wait
    );
    s
}

fn candidate(n: u64) -> serde_json::Value {
    serde_json::Value::from(n)
}

fn offer(id: &str, kind: &str) -> SignalingEvent {
    SignalingEvent::Received(SignalingMessage::Sdp {
        session_id: id.to_string(),
        sdp: SdpDesc { kind: kind.to_string(), sdp: "v=0".to_string() },
    })
}

fn ice(id: &str, n: u64) -> SignalingEvent {
    SignalingEvent::Received(SignalingMessage::Ice {
        session_id: id.to_string(),
        candidate: candidate(n),
    })
}

#[test]
fn a_refused_connection_is_retried() {
    let mut s = SignalingSession::new(&config());
    assert_eq!(
        s.on_event(SignalingEvent::Connected(false)),
        SignalingAction::End(SessionOutcome::Retry)
    );
}

#[test]
fn an_announcement_that_cannot_be_made_is_retried() {
    let mut s = SignalingSession::new(&config());
    let _ = s.on_event(SignalingEvent::Connected(true));
    assert_eq!(
        s.on_event(SignalingEvent::Sent(SendResult::Unwritable)),
        SignalingAction::End(SessionOutcome::Retry)
    );
    let mut s = online();
    assert_eq!(s.on_event(SignalingEvent::Sent(SendResult::Unwritable)), SignalingAction::Wait);
    assert_eq!(
        s.on_event(SignalingEvent::Sent(SendResult::Failed)),
        SignalingAction::End(SessionOutcome::Retry)
    );
}

#[test]
fn an_offer_of_the_served_session_is_answered() {
    let mut s = serving("s1");
    assert_eq!(
        s.on_event(offer("s1", "offer")),
        SignalingAction::AcceptOffer { session_id: "s1".to_string(), sdp: "v=0".to_string() }
    );
    assert_eq!(
        s.on_event(SignalingEvent::OfferTaken {
            session_id: "s1".to_string(),
            answer: Some("a=1".to_string()),
        }),
        SignalingAction::Send(SignalingMessage::Sdp {
            session_id: "s1".to_string(),
            sdp: SdpDesc { kind: "answer".to_string(), sdp: "a=1".to_string() },
        })
    );
    assert_eq!(
        s.on_event(SignalingEvent::OfferTaken { session_id: "s1".to_string(), answer: None }),
        SignalingAction::Wait
    );
    assert_eq!(s.on_event(offer("s1", "answer")), SignalingAction::Wait);
    assert_eq!(s.on_event(offer("s2", "offer")), SignalingAction::Wait);
}

#[test]
fn candidates_go_both_ways_for_the_served_session() {
    let mut s = online();
    assert_eq!(s.on_event(SignalingEvent::LocalCandidate(candidate(1))), SignalingAction::Wait);
    assert_eq!(s.on_event(ice("s1", 2)), SignalingAction::Wait);
    let mut s = serving("s1");
    assert_eq!(
        s.on_event(SignalingEvent::LocalCandidate(candidate(1))),
        SignalingAction::Send(SignalingMessage::Ice {
            session_id: "s1".to_string(),
            candidate: candidate(1),
        })
    );
    assert_eq!(
        s.on_event(ice("s1", 2)),
        SignalingAction::AddRemoteIce { candidate: candidate(2) }
    );
    assert_eq!(s.on_event(ice("s0", 2)), SignalingAction::Wait);
}

#[test]
fn a_new_session_takes_the_place_of_the_old_one() {
    let mut s = serving("s1");
    assert_eq!(
        s.on_event(SignalingEvent::PeerOpened { session_id: "s2".to_string(), opened: false }),
        SignalingAction::Wait
    );
    assert!(matches!(s.on_event(ice("s1", 1)), SignalingAction::AddRemoteIce { .. }));
    assert_eq!(
        s.on_event(SignalingEvent::PeerOpened { session_id: "s2".to_string(), opened: true }),
        SignalingAction::Wait
    );
    assert_eq!(s.on_event(ice("s1", 1)), SignalingAction::Wait);
    assert!(matches!(s.on_event(ice("s2", 1)), SignalingAction::AddRemoteIce { .. }));
}

#[test]
fn a_session_that_was_left_is_released() {
    let mut s = serving("s1");
    let left = |id: &str| {
        SignalingEvent::Received(SignalingMessage::PeerLeft { session_id: id.to_string() })
    };
    assert_eq!(s.on_event(left("s2")), SignalingAction::Wait);
    assert_eq!(s.on_event(left("s1")), SignalingAction::ClosePeer);
    assert_eq!(s.on_event(left("s1")), SignalingAction::Wait);
    assert_eq!(s.on_event(SignalingEvent::LocalCandidate(candidate(1))), SignalingAction::Wait);
}

#[test]
fn only_a_rejected_token_is_fatal() {
    let error = |code: &str| {
        SignalingEvent::Received(SignalingMessage::Error {
            code: code.to_string(),
            message: "nope".to_string(),
        })
    };
    let mut s = online();
    assert_eq!(s.on_event(error("busy")), SignalingAction::Wait);
    assert_eq!(
        s.on_event(error("bad-token")),
        SignalingAction::End(SessionOutcome::Fatal("device token rejected: nope".to_string()))
    );
    assert_eq!(
        s.on_event(SignalingEvent::Closed),
        SignalingAction::End(SessionOutcome::Retry)
    );
    assert_eq!(s.on_event(SignalingEvent::Unreadable), SignalingAction::Wait);
    let ignored = SignalingMessage::SessionReady {
        session_id: "s".to_string(),
        relay_policy: "p".to_string(),
        ice_servers: vec![IceServer { urls: Urls::Other, username: None, credential: None }],
    };
    assert_eq!(s.on_event(SignalingEvent::Received(ignored)), SignalingAction::Wait);
}

#[test]
fn pairing_logs_in_first() {
    let (mut p, first) = Provisioning::begin("http://h", "a@b.com", "pw123456", "MyPC");
    assert_eq!(
        first,
        ProvisionRequest::Login {
            url: "http://h/login".to_string(),
            email: "a@b.com".to_string(),
            password: "pw123456".to_string(),
        }
    );
    assert_eq!(
        p.on_reply(ProvisionReply::LoggedIn { token: "jwt-xyz".to_string() }),
        ProvisionStep::Send(ProvisionRequest::Pair {
            url: "http://h/devices/pair".to_string(),
            bearer: "jwt-xyz".to_string(),
            name: "MyPC".to_string(),
        })
    );
    assert_eq!(
        p.on_reply(ProvisionReply::Paired {
            device_id: "dev-9".to_string(),
            token: "devtok-9".to_string(),
        }),
        ProvisionStep::Done(AgentConfig {
            server_url: "http://h".to_string(),
            device_id: "dev-9".to_string(),
            device_token: "devtok-9".to_string(),
        })
    );
}

#[test]
fn pairing_fails_as_its_requests_do() {
    let begin = || Provisioning::begin("http://h", "a@b.com", "wrong", "MyPC").0;
    assert_eq!(
        begin().on_reply(ProvisionReply::Refused { status: 401 }),
        ProvisionStep::Failed(ProvisionError::LoginFailed { status: 401 })
    );
    assert_eq!(
        begin().on_reply(ProvisionReply::Unreachable),
        ProvisionStep::Failed(ProvisionError::Unreachable)
    );
    assert_eq!(
        begin().on_reply(ProvisionReply::Unreadable),
        ProvisionStep::Failed(ProvisionError::Unreadable)
    );
    let mut p = begin();
    let _ = p.on_reply(ProvisionReply::LoggedIn { token: "jwt".to_string() });
    assert_eq!(
        p.on_reply(ProvisionReply::Refused { status: 500 }),
        ProvisionStep::Failed(ProvisionError::PairFailed { status: 500 })
    );
    assert!(is_success(200) && is_success(299));
    assert!(!is_success(199) && !is_success(300) && !is_success(401));
}

#[test]
fn names_and_servers_fall_back() {
    let text = |s: &str| Some(s.to_string());
    assert_eq!(hostname_or(text("PC"), text("host"), "rd-agent"), "PC");
    assert_eq!(hostname_or(None, text("host"), "rd-agent"), "host");
    assert_eq!(hostname_or(None, None, "rd-agent"), "rd-agent");
    assert_eq!(server_url_or_default(text("http://h")), "http://h");
    assert_eq!(server_url_or_default(None), "http://127.0.0.1:8080");
}

#[test]
fn the_pairing_is_kept_where_it_is_asked_to_be() {
    let asked = Some("/tmp/c.json".to_string());
    assert_eq!(config_base(asked, Some(1)), ConfigBase::File("/tmp/c.json".to_string()));
    assert_eq!(config_base(None, Some(1)), ConfigBase::Dir(1));
    assert_eq!(config_base::<i32>(None, None), ConfigBase::CurrentDir);
    assert_eq!(config_names(), ("rd-agent", "config.json"));
}
