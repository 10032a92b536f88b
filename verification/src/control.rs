//! The messages of the control channel, and what the agent does with them.

use crate::clipboard::{fits, CLIP_MAX_BYTES};
use vstd::prelude::*;

verus! {

/// How the clipboard is shared.
#[derive(Clone, Copy, Debug, PartialEq, Eq, Structural)]
pub enum ClipMode {
    Off,
    /// Only from the controlling side to the agent.
    Oneway,
    Both,
}

/// A capture size that the controlling side can ask for.
#[derive(Clone, Copy, Debug, PartialEq, Eq, Structural)]
pub enum ResolutionPreset {
    /// Fit into 1280x720.
    Sd,
    /// The display's logical size.
    Hd,
    /// The display's physical pixels, twice the logical size.
    Native,
}

/// A message of the control channel: clipboard, quality and resolution.
#[derive(Debug, PartialEq, Eq)]
pub enum ControlMessage {
    ClipSet { text: String },
    ClipRequest,
    ClipMode { mode: ClipMode },
    Quality { bitrate_bps: u32 },
    Resolution { preset: ResolutionPreset },
}

/// The lowest bit rate that the controlling side can ask for.
pub const MIN_BITRATE_BPS: u32 = 250_000;

/// The highest bit rate that the controlling side can ask for.
pub const MAX_BITRATE_BPS: u32 = 20_000_000;

/// What the agent does with a control message.
#[derive(Debug, PartialEq, Eq)]
pub enum ControlAction {
    Nothing,
    /// Encode with this bit rate from now on.
    SetBitrate(u32),
    /// Capture at this preset's size from now on.
    SwitchResolution(ResolutionPreset),
    /// Put a text on the clipboard.
    WriteClipboard(String),
    /// Read the clipboard, once, to send it.
    ReadClipboard,
    /// Start to watch the clipboard.
    StartPoller,
}

/// `bps`, held between the lowest and the highest bit rate.
pub open spec fn bounded_bitrate(bps: u32) -> u32 {
    if bps < MIN_BITRATE_BPS {
        MIN_BITRATE_BPS
    } else if bps > MAX_BITRATE_BPS {
        MAX_BITRATE_BPS
    } else {
        bps
    }
}

/// `action` is what a channel does with `message` when it is watching the
/// clipboard, or not, as `polling` says.
pub open spec fn is_reaction(polling: bool, message: ControlMessage, action: ControlAction) -> bool {
    match message {
        ControlMessage::Quality { bitrate_bps } => action == ControlAction::SetBitrate(
            bounded_bitrate(bitrate_bps),
        ),
        ControlMessage::Resolution { preset } => action == ControlAction::SwitchResolution(preset),
        ControlMessage::ClipSet { text } => if crate::clipboard::byte_len(text@)
            <= CLIP_MAX_BYTES {
            action == ControlAction::WriteClipboard(text)
        } else {
            action is Nothing
        },
        ControlMessage::ClipRequest => action is ReadClipboard,
        ControlMessage::ClipMode { mode } => if mode is Both && !polling {
            action is StartPoller
        } else {
            action is Nothing
        },
    }
}

/// Whether a channel watches the clipboard after `message`.
pub open spec fn polls_after(polling: bool, message: ControlMessage) -> bool {
    match message {
        ControlMessage::ClipMode { mode } => mode is Both,
        _ => polling,
    }
}

/// A control channel. Its poller watches the clipboard only while the other
/// side has asked for both directions.
pub struct ControlChannel {
    polling: bool,
}

impl ControlChannel {
    /// Whether the poller is to go on.
    pub closed spec fn view(&self) -> bool {
        self.polling
    }

    /// A channel starts without a poller.
    pub fn new() -> (c: ControlChannel)
        ensures
            !c@,
    {
        ControlChannel { polling: false }
    }

    /// Whether the poller is to go on. It asks before each look at the
    /// clipboard.
    pub fn polls(&self) -> (on: bool)
        ensures
            on == self@,
    {
        self.polling
    }

    /// Take in a message and decide what to do with it.
    pub fn on_message(&mut self, message: ControlMessage) -> (action: ControlAction)
        ensures
            is_reaction(old(self)@, message, action),
            final(self)@ == polls_after(old(self)@, message),
    {
        match message {
            ControlMessage::Quality { bitrate_bps } => {
                let bounded: u32 = if bitrate_bps < MIN_BITRATE_BPS {
                    MIN_BITRATE_BPS
                } else if bitrate_bps > MAX_BITRATE_BPS {
                    MAX_BITRATE_BPS
                } else {
                    bitrate_bps
                };
                ControlAction::SetBitrate(bounded)
            },
            ControlMessage::Resolution { preset } => ControlAction::SwitchResolution(preset),
            ControlMessage::ClipSet { text } => {
                if fits(text.as_str(), CLIP_MAX_BYTES) {
                    ControlAction::WriteClipboard(text)
                } else {
                    ControlAction::Nothing
                }
            },
            ControlMessage::ClipRequest => ControlAction::ReadClipboard,
            ControlMessage::ClipMode { mode } => match mode {
                ClipMode::Both => {
                    let running: bool = self.polling;
                    self.polling = true;
                    // one poller is enough
                    if running {
                        ControlAction::Nothing
                    } else {
                        ControlAction::StartPoller
                    }
                },
                _ => {
                    self.polling = false;
                    ControlAction::Nothing
                },
            },
        }
    }

    /// The channel was closed: the poller must not outlive it.
    pub fn on_close(&mut self)
        ensures
            !final(self)@,
    {
        self.polling = false;
    }
}

/// Whether a new channel watches the clipboard after `messages`.
pub open spec fn polls_after_all(messages: Seq<ControlMessage>) -> bool
    decreases messages.len(),
{
    if messages.len() == 0 {
        false
    } else {
        polls_after(polls_after_all(messages.drop_last()), messages.last())
    }
}

/// The clipboard is private unless asked for: a channel watches it only while
/// the last mode that the other side set is `Both`.
pub proof fn law_no_unsolicited_reads(messages: Seq<ControlMessage>)
    ensures
        polls_after_all(messages) <==> exists|i: int|
            0 <= i < messages.len() && #[trigger] messages[i] == (ControlMessage::ClipMode {
                mode: ClipMode::Both,
            }) && forall|j: int|
                i < j < messages.len() ==> (#[trigger] messages[j] matches
                    ControlMessage::ClipMode { mode } ==> mode is Both),
    decreases messages.len(),
{
    if messages.len() > 0 {
        let before = messages.drop_last();
        let last = messages.len() - 1;
        law_no_unsolicited_reads(before);
        if polls_after_all(messages) {
            if messages[last] is ClipMode {
                assert(messages[last] == (ControlMessage::ClipMode { mode: ClipMode::Both }));
            } else {
                let i = choose|i: int|
                    0 <= i < before.len() && #[trigger] before[i] == (ControlMessage::ClipMode {
                        mode: ClipMode::Both,
                    }) && forall|j: int|
                        i < j < before.len() ==> (#[trigger] before[j] matches
                            ControlMessage::ClipMode { mode } ==> mode is Both);
                assert(messages[i] == before[i]);
                assert forall|j: int| i < j < messages.len() implies (#[trigger] messages[j] matches
                    ControlMessage::ClipMode { mode } ==> mode is Both) by {
                    if j < last {
                        assert(messages[j] == before[j]);
                    }
                }
            }
        } else if exists|i: int|
            0 <= i < messages.len() && #[trigger] messages[i] == (ControlMessage::ClipMode {
                mode: ClipMode::Both,
            }) && forall|j: int|
                i < j < messages.len() ==> (#[trigger] messages[j] matches
                    ControlMessage::ClipMode { mode } ==> mode is Both) {
            let i = choose|i: int|
                0 <= i < messages.len() && #[trigger] messages[i] == (ControlMessage::ClipMode {
                    mode: ClipMode::Both,
                }) && forall|j: int|
                    i < j < messages.len() ==> (#[trigger] messages[j] matches
                        ControlMessage::ClipMode { mode } ==> mode is Both);
            assert(i < last);
            assert(before[i] == messages[i]);
            assert forall|j: int| i < j < before.len() implies (#[trigger] before[j] matches
                ControlMessage::ClipMode { mode } ==> mode is Both) by {
                assert(before[j] == messages[j]);
            }
        }
    }
}

/// The agent reads its clipboard on a message only when it is asked for the
/// text, and starts to watch it only when asked for both directions.
pub proof fn law_reads_are_asked_for(polling: bool, message: ControlMessage, action: ControlAction)
    requires
        is_reaction(polling, message, action),
    ensures
        action is ReadClipboard <==> message is ClipRequest,
        action is StartPoller ==> message == (ControlMessage::ClipMode { mode: ClipMode::Both }),
        action matches ControlAction::WriteClipboard(text) ==> crate::clipboard::byte_len(text@)
            <= CLIP_MAX_BYTES,
        action matches ControlAction::SetBitrate(bps) ==> MIN_BITRATE_BPS <= bps
            <= MAX_BITRATE_BPS,
{
}

/// A bit rate that is asked for is taken as it is between 250 kbit/s and 20
/// Mbit/s, and the nearer of the two otherwise.
pub proof fn law_quality_is_taken_within_bounds(polling: bool, bps: u32, action: ControlAction)
    requires
        is_reaction(polling, ControlMessage::Quality { bitrate_bps: bps }, action),
    ensures
        250_000 <= bps <= 20_000_000 ==> action == ControlAction::SetBitrate(bps),
        bps < 250_000 ==> action == ControlAction::SetBitrate(250_000),
        bps > 20_000_000 ==> action == ControlAction::SetBitrate(20_000_000),
{
}

/// Every preset is switched to, every text within the size cap is put on the
/// clipboard as it came, and every request is answered, whether the clipboard is
/// watched or not.
pub proof fn law_messages_are_carried_out(
    polling: bool,
    preset: ResolutionPreset,
    text: String,
    switched: ControlAction,
    written: ControlAction,
    read: ControlAction,
)
    requires
        is_reaction(polling, ControlMessage::Resolution { preset }, switched),
        is_reaction(polling, ControlMessage::ClipSet { text }, written),
        is_reaction(polling, ControlMessage::ClipRequest, read),
    ensures
        switched == ControlAction::SwitchResolution(preset),
        vstd::utf8::encode_utf8(text@).len() <= 262_144 ==> written
            == ControlAction::WriteClipboard(text),
        vstd::utf8::encode_utf8(text@).len() > 262_144 ==> written is Nothing,
        read is ReadClipboard,
{
}

/// Asking for both directions starts to watch the clipboard, unless it is
/// watched already; every other mode ends it. No other message starts or ends
/// it.
pub proof fn law_modes_are_followed(
    polling: bool,
    mode: ClipMode,
    other: ControlMessage,
    action: ControlAction,
)
    requires
        is_reaction(polling, ControlMessage::ClipMode { mode }, action),
        !(other is ClipMode),
    ensures
        polls_after(polling, ControlMessage::ClipMode { mode }) == (mode == ClipMode::Both),
        action is StartPoller <==> mode == ClipMode::Both && !polling,
        action is StartPoller || action is Nothing,
        polls_after(polling, other) == polling,
{
}

} // verus!
