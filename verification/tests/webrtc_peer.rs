use rd_agent::protocol::{IceServer, Urls};
use rd_agent::webrtc_peer::{
    add_remote_ice, candidate_message, channel_kind, echo_reply, ice_transport_policy,
    local_candidate, to_rtc_ice, video_sender_count, ChannelKind, IceBuffer, IceCredentialType, IceTransportPolicy, OfferAction,
    OfferEvent, OfferExchange, OfferPhase, SessionError, SessionSetup, SetupAction, SetupEvent,
};
use webrtc::ice_transport::ice_candidate::{RTCIceCandidate, RTCIceCandidateInit};
use webrtc::ice_transport::ice_candidate_type::RTCIceCandidateType;
use webrtc::ice_transport::ice_protocol::RTCIceProtocol;
use webrtc::peer_connection::sdp::sdp_type::RTCSdpType;

fn one(url: &str) -> Urls {
    Urls::One(url.to_string())
}

#[test]
fn turn_server_gets_password_credential_type() {
    let servers = vec![IceServer {
        urls: one("turn:192.168.5.122:3478"),
        username: Some("rduser".into()),
        credential: Some("rdpass".into()),
    }];
    let rtc = to_rtc_ice(servers);
    assert_eq!(rtc.len(), 1);
    assert_eq!(rtc[0].username, "rduser");
    assert_eq!(rtc[0].credential, "rdpass");
    assert_eq!(rtc[0].credential_type, IceCredentialType::Password);
}

#[test]
fn stun_and_turn_urls_parse_into_multiple_servers() {
    let servers = vec![
        IceServer { urls: one("stun:h:3478"), username: None, credential: None },
        IceServer {
            urls: one("turn:h:3478"),
            username: Some("u".into()),
            credential: Some("p".into()),
        },
    ];
    let rtc = to_rtc_ice(servers);
    assert_eq!(rtc.len(), 2);
    assert_eq!(rtc[0].urls, vec!["stun:h:3478"]);
    assert_eq!(rtc[1].urls, vec!["turn:h:3478"]);
}

#[test]
fn lists_of_addresses_skip_what_is_no_text() {
    let text = |s: &str| Some(s.to_string());
    let servers = vec![
        IceServer {
            urls: Urls::Many(vec![text("stun:a"), None, text("stun:b")]),
            username: None,
            credential: None,
        },
        IceServer { urls: Urls::Other, username: None, credential: text("only") },
    ];
    let rtc = to_rtc_ice(servers);
    assert_eq!(rtc[0].urls, vec!["stun:a", "stun:b"]);
    assert_eq!(rtc[0].username, "");
    assert_eq!(rtc[0].credential, "");
    assert_eq!(rtc[0].credential_type, IceCredentialType::Password);
    assert!(rtc[1].urls.is_empty());
    assert_eq!(rtc[1].credential, "only");
    assert!(to_rtc_ice(Vec::new()).is_empty());
}

#[test]
fn force_relay_maps_to_relay_only() {
    assert_eq!(ice_transport_policy("force-relay"), IceTransportPolicy::Relay);
}

#[test]
fn other_policies_allow_all_candidate_types() {
    assert_eq!(ice_transport_policy("relay-fallback"), IceTransportPolicy::All);
    assert_eq!(ice_transport_policy("direct-only"), IceTransportPolicy::All);
    assert_eq!(ice_transport_policy(""), IceTransportPolicy::All);
}

#[test]
fn buffers_until_remote_set_then_drains_in_order() {
    let mut b: IceBuffer<i32> = IceBuffer::new();
    assert_eq!(b.accept(1), None); // buffered
    assert_eq!(b.accept(2), None); // buffered
    assert_eq!(b.on_remote_set(), vec![1, 2]); // flushed in order
    assert_eq!(b.accept(3), Some(3)); // now passes through
    assert_eq!(b.on_remote_set(), Vec::<i32>::new()); // idempotent, nothing pending
}

#[test]
fn channels_are_told_apart_by_their_label() {
    assert_eq!(channel_kind("input"), ChannelKind::Input);
    assert_eq!(channel_kind("control"), ChannelKind::Control);
    assert_eq!(channel_kind("Input"), ChannelKind::Unknown);
    assert_eq!(channel_kind(""), ChannelKind::Unknown);
}

#[test]
fn senders_with_a_track_are_counted() {
    assert_eq!(video_sender_count(&vec![]), 0);
    assert_eq!(video_sender_count(&vec![true]), 1);
    assert_eq!(video_sender_count(&vec![false, true, false, true]), 2);
}

#[test]
fn a_session_is_set_up_with_the_software_encoder() {
    let mut s = SessionSetup::new(false);
    assert_eq!(s.on_event(SetupEvent::PeerMade { made: true }), SetupAction::AskDisplaySize);
    assert_eq!(
        s.on_event(SetupEvent::DisplaySize(Some((2560, 1664)))),
        SetupAction::MakeSoftwareEncoder { width: 1108, height: 720 }
    );
    assert_eq!(s.on_event(SetupEvent::EncoderMade { made: true }), SetupAction::AddVideoTrack);
    assert_eq!(
        s.on_event(SetupEvent::TrackAdded { added: true }),
        SetupAction::StartVideo { width: 1108, height: 720 }
    );
    assert_eq!(s.on_event(SetupEvent::VideoStarted), SetupAction::Finish { video: true });
}

#[test]
fn a_missing_hardware_encoder_falls_back_and_a_missing_encoder_leaves_input() {
    let mut s = SessionSetup::new(true);
    let _ = s.on_event(SetupEvent::PeerMade { made: true });
    assert_eq!(
        s.on_event(SetupEvent::DisplaySize(None)),
        SetupAction::MakeHardwareEncoder { width: 1280, height: 720 }
    );
    assert_eq!(
        s.on_event(SetupEvent::EncoderMade { made: false }),
        SetupAction::MakeSoftwareEncoder { width: 1280, height: 720 }
    );
    assert_eq!(
        s.on_event(SetupEvent::EncoderMade { made: false }),
        SetupAction::Finish { video: false }
    );
}

#[test]
fn a_session_fails_without_a_peer_connection_or_its_track() {
    let mut s = SessionSetup::new(false);
    assert_eq!(s.on_event(SetupEvent::PeerMade { made: false }), SetupAction::Fail);
    let mut s = SessionSetup::new(true);
    let _ = s.on_event(SetupEvent::PeerMade { made: true });
    let _ = s.on_event(SetupEvent::DisplaySize(None));
    assert_eq!(s.on_event(SetupEvent::EncoderMade { made: true }), SetupAction::AddVideoTrack);
    assert_eq!(s.on_event(SetupEvent::TrackAdded { added: false }), SetupAction::Fail);
}

const OFFER: &str = "v=0\r\no=- 42 2 IN IP4 127.0.0.1\r\ns=-\r\nt=0 0\r\n";

#[test]
fn an_offer_is_answered_once_all_candidates_are_in() {
    let mut buffer: IceBuffer<i32> = IceBuffer::new();
    assert_eq!(buffer.accept(1), None);
    assert_eq!(buffer.accept(2), None);
    let (mut o, first) = OfferExchange::accept_offer::<i32>(OFFER).unwrap();
    let offer = match first {
        OfferAction::SetRemote(d) => d,
        other => panic!("unexpected {other:?}"),
    };
    assert_eq!(offer.sdp, OFFER);
    assert_eq!(offer.sdp_type, RTCSdpType::Offer);
    assert_eq!(buffer.accept(3), None);
    match o.on_event(&mut buffer, OfferEvent::RemoteSet { ok: true }) {
        OfferAction::AddCandidates(list) => assert_eq!(list, vec![1, 2, 3]),
        other => panic!("unexpected {other:?}"),
    }
    assert_eq!(buffer.accept(4), Some(4));
    let mut next = |event: OfferEvent| o.on_event(&mut buffer, event);
    assert!(matches!(next(OfferEvent::Flushed), OfferAction::MakeAnswer));
    assert!(matches!(next(OfferEvent::Answered { ok: true }), OfferAction::SetLocal));
    assert!(matches!(next(OfferEvent::LocalSet { ok: true }), OfferAction::WaitForCandidates));
    assert!(matches!(next(OfferEvent::Gathered), OfferAction::ReadLocal));
    match next(OfferEvent::LocalRead(Some("v=0".to_string()))) {
        OfferAction::Done(sdp) => assert_eq!(sdp, "v=0"),
        other => panic!("unexpected {other:?}"),
    }
}

#[test]
fn a_text_that_is_no_offer_is_refused() {
    for text in ["", "hello", "v=0\r\n"] {
        let refused = OfferExchange::accept_offer::<i32>(text);
        assert!(matches!(refused, Err(SessionError::Offer(_))));
    }
}

#[test]
fn an_offer_that_cannot_be_answered_fails() {
    let mut buffer: IceBuffer<i32> = IceBuffer::new();
    let _ = buffer.accept(1);
    let fails = |phase: OfferPhase, buffer: &mut IceBuffer<i32>, event: OfferEvent| {
        let mut o = OfferExchange { phase };
        matches!(o.on_event(buffer, event), OfferAction::Fail) && o.phase == OfferPhase::Over
    };
    assert!(fails(
        OfferPhase::SettingRemote,
        &mut buffer,
        OfferEvent::RemoteSet { ok: false }
    ));
    // the early candidate still waits
    assert_eq!(buffer.on_remote_set(), vec![1]);
    assert!(fails(OfferPhase::Reading, &mut buffer, OfferEvent::LocalRead(None)));
    assert!(fails(OfferPhase::Answering, &mut buffer, OfferEvent::Answered { ok: false }));
    assert!(fails(OfferPhase::SettingLocal, &mut buffer, OfferEvent::LocalSet { ok: false }));
}

fn candidate() -> RTCIceCandidateInit {
    RTCIceCandidateInit {
        candidate: "candidate:1 1 udp 2130706431 127.0.0.1 9 typ host".to_string(),
        sdp_mid: Some("0".to_string()),
        sdp_mline_index: Some(0),
        username_fragment: None,
    }
}

#[test]
fn remote_candidates_are_read_and_wait_for_the_description() {
    let mut buffer: IceBuffer<RTCIceCandidateInit> = IceBuffer::new();
    let json = r#"{"candidate":"candidate:1 1 udp 2130706431 127.0.0.1 9 typ host",
        "sdpMid":"0","sdpMLineIndex":0}"#;
    let v: serde_json::Value = serde_json::from_str(json).unwrap();
    assert_eq!(add_remote_ice(&mut buffer, v.clone()).unwrap(), None);
    assert_eq!(buffer.on_remote_set(), vec![candidate()]);
    assert_eq!(add_remote_ice(&mut buffer, v).unwrap(), Some(candidate()));
    let bad = serde_json::Value::Bool(true);
    assert!(matches!(add_remote_ice(&mut buffer, bad), Err(SessionError::RemoteCandidate(_))));
    assert!(buffer.on_remote_set().is_empty());
}

#[test]
fn local_candidates_are_read_back_as_they_were_written() {
    let mut buffer: IceBuffer<RTCIceCandidateInit> = IceBuffer::new();
    let _ = buffer.on_remote_set();
    let v = candidate_message(candidate());
    assert_eq!(v.get("sdpMid").and_then(|m| m.as_str()), Some("0"));
    assert_eq!(add_remote_ice(&mut buffer, v).unwrap(), Some(candidate()));
}

#[test]
fn an_echo_channel_answers_what_it_is_sent() {
    assert_eq!(channel_kind("echo"), ChannelKind::Echo);
    assert_eq!(echo_reply("hello"), "echo:hello");
    assert_eq!(echo_reply(""), "echo:");
    assert_eq!(channel_kind("echo2"), ChannelKind::Unknown);
}

fn gathered() -> RTCIceCandidate {
    RTCIceCandidate {
        foundation: "1".to_string(),
        priority: 2130706431,
        address: "127.0.0.1".to_string(),
        protocol: RTCIceProtocol::Udp,
        port: 9,
        typ: RTCIceCandidateType::Host,
        component: 1,
        ..Default::default()
    }
}

#[test]
fn gathered_candidates_are_handed_over() {
    let mut buffer: IceBuffer<RTCIceCandidateInit> = IceBuffer::new();
    let _ = buffer.on_remote_set();
    let v = local_candidate(&gathered()).unwrap().unwrap();
    let read = add_remote_ice(&mut buffer, v).unwrap().unwrap();
    assert_eq!(read.candidate, candidate().candidate);
    assert_eq!(read.sdp_mline_index, Some(0));
    let unknown = RTCIceCandidate { typ: RTCIceCandidateType::Unspecified, ..gathered() };
    let refused = local_candidate(&unknown).unwrap();
    assert!(matches!(refused, Err(SessionError::LocalCandidate(_))));
    let unranked = RTCIceCandidate { priority: 0, component: 257, ..gathered() };
    assert!(local_candidate(&unranked).is_none());
    assert!(local_candidate(&RTCIceCandidate { component: 257, ..gathered() }).is_some());
    assert!(local_candidate(&RTCIceCandidate { priority: 0, ..gathered() }).is_some());
}
