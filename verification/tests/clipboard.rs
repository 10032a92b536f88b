use rd_agent::clipboard::{clipboard_to_send, fits, SharedClipboard, CLIP_MAX_BYTES};
use rd_agent::control::{
    ClipMode, ControlAction, ControlChannel, ControlMessage, ResolutionPreset, MAX_BITRATE_BPS,
    MIN_BITRATE_BPS,
};

#[test]
fn clipboard_to_send_skips_unchanged_empty_and_oversized() {
    assert_eq!(clipboard_to_send("a", "a", 100), None); // unchanged
    assert_eq!(clipboard_to_send("", "a", 100), None); // empty
    assert_eq!(clipboard_to_send("b", "a", 100), Some("b".to_string())); // changed
    let big = "x".repeat(101);
    assert_eq!(clipboard_to_send(&big, "a", 100), None); // over cap
}

#[test]
fn the_cap_counts_bytes_not_characters() {
    let wide = "\u{4e2d}".repeat(40); // 3 bytes each
    assert!(fits(&wide, 120));
    assert!(!fits(&wide, 119));
    assert_eq!(clipboard_to_send(&wide, "", 119), None);
    assert_eq!(clipboard_to_send(&wide, "", 120), Some(wide.clone()));
}

#[test]
fn a_pushed_text_is_not_echoed() {
    let mut shared = SharedClipboard::new();
    shared.on_written("from the web".to_string(), true);
    assert_eq!(shared.on_polled(Some("from the web".to_string())), None);
    assert_eq!(
        shared.on_polled(Some("typed here".to_string())),
        Some(ControlMessage::ClipSet { text: "typed here".to_string() })
    );
    // sent once, not again
    assert_eq!(shared.on_polled(Some("typed here".to_string())), None);
    assert_eq!(shared.on_polled(None), None);
    assert_eq!(shared.on_polled(Some(String::new())), None);
}

#[test]
fn a_text_that_was_not_written_is_not_remembered() {
    let mut shared = SharedClipboard::new();
    shared.on_written("lost".to_string(), false);
    assert_eq!(
        shared.on_polled(Some("lost".to_string())),
        Some(ControlMessage::ClipSet { text: "lost".to_string() })
    );
}

#[test]
fn a_request_is_answered_even_when_nothing_changed() {
    let mut shared = SharedClipboard::new();
    shared.on_written("same".to_string(), true);
    assert_eq!(
        shared.on_requested(Some("same".to_string())),
        Some(ControlMessage::ClipSet { text: "same".to_string() })
    );
    assert_eq!(
        shared.on_requested(Some(String::new())),
        Some(ControlMessage::ClipSet { text: String::new() })
    );
    assert_eq!(shared.on_requested(None), None);
    let big = "x".repeat(CLIP_MAX_BYTES + 1);
    assert_eq!(shared.on_requested(Some(big.clone())), None);
    assert_eq!(shared.on_polled(Some(big)), None);
    let full = "x".repeat(CLIP_MAX_BYTES);
    assert_eq!(
        shared.on_requested(Some(full.clone())),
        Some(ControlMessage::ClipSet { text: full })
    );
}

#[test]
fn quality_is_held_within_its_bounds() {
    let mut channel = ControlChannel::new();
    let mut ask = |bps: u32| channel.on_message(ControlMessage::Quality { bitrate_bps: bps });
    assert_eq!(ask(3_000_000), ControlAction::SetBitrate(3_000_000));
    assert_eq!(ask(0), ControlAction::SetBitrate(MIN_BITRATE_BPS));
    assert_eq!(ask(249_999), ControlAction::SetBitrate(250_000));
    assert_eq!(ask(u32::MAX), ControlAction::SetBitrate(MAX_BITRATE_BPS));
    assert_eq!(ask(20_000_001), ControlAction::SetBitrate(20_000_000));
}

#[test]
fn resolution_presets_are_passed_on() {
    let mut channel = ControlChannel::new();
    assert_eq!(
        channel.on_message(ControlMessage::Resolution { preset: ResolutionPreset::Native }),
        ControlAction::SwitchResolution(ResolutionPreset::Native)
    );
}

#[test]
fn clip_set_is_written_unless_oversized() {
    let mut channel = ControlChannel::new();
    assert_eq!(
        channel.on_message(ControlMessage::ClipSet { text: "hi".to_string() }),
        ControlAction::WriteClipboard("hi".to_string())
    );
    let big = "x".repeat(CLIP_MAX_BYTES + 1);
    assert_eq!(
        channel.on_message(ControlMessage::ClipSet { text: big }),
        ControlAction::Nothing
    );
    assert_eq!(channel.on_message(ControlMessage::ClipRequest), ControlAction::ReadClipboard);
}

#[test]
fn the_clipboard_is_watched_only_in_both_mode() {
    let mut channel = ControlChannel::new();
    assert!(!channel.polls());
    let mut set = |c: &mut ControlChannel, mode: ClipMode| {
        c.on_message(ControlMessage::ClipMode { mode })
    };
    assert_eq!(set(&mut channel, ClipMode::Oneway), ControlAction::Nothing);
    assert!(!channel.polls());
    assert_eq!(set(&mut channel, ClipMode::Both), ControlAction::StartPoller);
    assert!(channel.polls());
    // already running: no second poller
    assert_eq!(set(&mut channel, ClipMode::Both), ControlAction::Nothing);
    assert!(channel.polls());
    assert_eq!(set(&mut channel, ClipMode::Off), ControlAction::Nothing);
    assert!(!channel.polls());
    assert_eq!(set(&mut channel, ClipMode::Both), ControlAction::StartPoller);
    channel.on_close();
    assert!(!channel.polls());
}
