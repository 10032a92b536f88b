//! Which clipboard texts cross the wire.

use crate::control::ControlMessage;
use crate::text::same_text;
use vstd::prelude::*;

verus! {

/// The most bytes of text that are taken from or handed to the other side.
pub const CLIP_MAX_BYTES: usize = 262_144;

/// How long the poller sleeps between two looks at the clipboard, in
/// milliseconds.
pub const POLL_MILLIS: u64 = 800;

/// The number of bytes that `text` takes in UTF-8.
pub open spec fn byte_len(text: Seq<char>) -> nat {
    vstd::utf8::encode_utf8(text).len()
}

/// `text` is worth sending to a side that last knew `last`: it has changed, is
/// not empty and does not exceed `cap` bytes.
pub open spec fn is_news(text: Seq<char>, last: Seq<char>, cap: nat) -> bool {
    text.len() > 0 && text != last && byte_len(text) <= cap
}

/// Whether `text` fits into `cap` bytes.
pub fn fits(text: &str, cap_bytes: usize) -> (b: bool)
    ensures
        b == (byte_len(text@) <= cap_bytes),
{
    text.as_bytes().len() <= cap_bytes
}

/// Decide the text to broadcast, given the current clipboard and the value last
/// known. There is none when it is unchanged, empty or over the size cap: texts
/// are skipped, never cut.
pub fn clipboard_to_send(current: &str, last_known: &str, cap_bytes: usize) -> (sent: Option<
    String,
>)
    ensures
        match sent {
            Some(text) => text@ == current@ && is_news(current@, last_known@, cap_bytes as nat),
            None => !is_news(current@, last_known@, cap_bytes as nat),
        },
{
    if current.is_empty() || same_text(current, last_known) || !fits(current, cap_bytes) {
        return None;
    }
    Some(current.to_owned())
}

/// What happens to the clipboard of a session.
pub enum ClipEvent {
    /// A text of the other side was put on it, or could not be.
    Written { text: Seq<char>, written: bool },
    /// It was read because the other side asked for it, or could not be.
    Requested(Option<Seq<char>>),
    /// It was read by the poller, or could not be.
    Polled(Option<Seq<char>>),
}

/// The text that both sides agree on after `event`, when it was `last` before,
/// and the text that is sent. A text that was asked for is sent as it is,
/// changed or not; one that was polled is sent where it is news.
pub open spec fn clip_step(last: Seq<char>, event: ClipEvent) -> (Seq<char>, Option<Seq<char>>) {
    match event {
        ClipEvent::Written { text, written } => if written {
            (text, None)
        } else {
            (last, None)
        },
        ClipEvent::Requested(Some(text)) => if byte_len(text) <= CLIP_MAX_BYTES {
            (text, Some(text))
        } else {
            (last, None)
        },
        ClipEvent::Polled(Some(text)) => if is_news(text, last, CLIP_MAX_BYTES as nat) {
            (text, Some(text))
        } else {
            (last, None)
        },
        _ => (last, None),
    }
}

/// The characters of a text, where there is one.
pub open spec fn chars_of(text: Option<String>) -> Option<Seq<char>> {
    match text {
        Some(t) => Some(t@),
        None => None,
    }
}

/// `message` puts `text` on the clipboard of the other side; there is no message
/// where there is no text.
pub open spec fn carries(message: Option<ControlMessage>, text: Option<Seq<char>>) -> bool {
    match text {
        Some(t) => message matches Some(ControlMessage::ClipSet { text: sent }) && sent@ == t,
        None => message is None,
    }
}

/// The clipboard text that both sides last agreed on: what the agent last set
/// or sent. It keeps the agent from sending a text back to where it came from.
pub struct SharedClipboard {
    last: String,
}

impl SharedClipboard {
    pub closed spec fn view(&self) -> Seq<char> {
        self.last@
    }

    /// At the start of a session nothing is shared.
    pub fn new() -> (c: SharedClipboard)
        ensures
            c@ == Seq::<char>::empty(),
    {
        SharedClipboard { last: String::new() }
    }

    /// A text of the other side was put on the clipboard, or could not be.
    pub fn on_written(&mut self, text: String, written: bool)
        ensures
            final(self)@ == clip_step(old(self)@, ClipEvent::Written { text: text@, written }).0,
    {
        if written {
            self.last = text;
        }
    }

    /// The clipboard was read because the other side asked for it. It is sent
    /// as it is, changed or not, unless it exceeds the size cap or could not be
    /// read.
    pub fn on_requested(&mut self, read: Option<String>) -> (reply: Option<ControlMessage>)
        ensures
            final(self)@ == clip_step(old(self)@, ClipEvent::Requested(chars_of(read))).0,
            carries(reply, clip_step(old(self)@, ClipEvent::Requested(chars_of(read))).1),
    {
        match read {
            Some(text) => {
                if fits(text.as_str(), CLIP_MAX_BYTES) {
                    self.last = text.clone();
                    Some(ControlMessage::ClipSet { text })
                } else {
                    None
                }
            },
            None => None,
        }
    }

    /// The poller read the clipboard. It is sent where it is news.
    pub fn on_polled(&mut self, read: Option<String>) -> (push: Option<ControlMessage>)
        ensures
            final(self)@ == clip_step(old(self)@, ClipEvent::Polled(chars_of(read))).0,
            carries(push, clip_step(old(self)@, ClipEvent::Polled(chars_of(read))).1),
    {
        match read {
            Some(current) => {
                let news: Option<String> = clipboard_to_send(
                    current.as_str(),
                    self.last.as_str(),
                    CLIP_MAX_BYTES,
                );
                match news {
                    Some(text) => {
                        self.last = text.clone();
                        Some(ControlMessage::ClipSet { text })
                    },
                    None => None,
                }
            },
            None => None,
        }
    }
}

/// A text that came from the other side is not echoed: as long as it is on the
/// clipboard, polling sends nothing.
pub proof fn law_no_echo(last: Seq<char>, text: Seq<char>)
    ensures
        ({
            let shared = clip_step(last, ClipEvent::Written { text, written: true }).0;
            clip_step(shared, ClipEvent::Polled(Some(text))) == (text, None::<Seq<char>>)
        }),
{
}

/// Polling sends no text twice in a row, and none that was just sent on request.
pub proof fn law_a_sent_text_is_no_news(last: Seq<char>, event: ClipEvent)
    ensures
        clip_step(last, event).1 matches Some(text) ==> clip_step(
            clip_step(last, event).0,
            ClipEvent::Polled(Some(text)),
        ) == (text, None::<Seq<char>>),
{
}

/// What is sent is what was read, whole and within the size cap: no text is cut,
/// and none over the cap ever leaves the agent.
pub proof fn law_texts_are_sent_whole(last: Seq<char>, event: ClipEvent)
    ensures
        clip_step(last, event).1 matches Some(text) ==> byte_len(text) <= CLIP_MAX_BYTES && (event
            == ClipEvent::Requested(Some(text)) || event == ClipEvent::Polled(Some(text))),
{
}

/// Polling sends every text that is new, not empty and within the size cap, and
/// remembers it. It sends nothing else.
pub proof fn law_polling_sends_every_new_text(last: Seq<char>, text: Seq<char>)
    ensures
        ({
            let bytes = vstd::utf8::encode_utf8(text).len();
            if text.len() > 0 && text != last && bytes <= 262_144 {
                clip_step(last, ClipEvent::Polled(Some(text))) == (text, Some(text))
            } else {
                clip_step(last, ClipEvent::Polled(Some(text))) == (last, None::<Seq<char>>)
            }
        }),
{
}

/// A text that is asked for is sent and remembered unless it exceeds the size
/// cap, whether it is new or not.
pub proof fn law_requested_texts_are_sent(last: Seq<char>, text: Seq<char>)
    ensures
        ({
            let bytes = vstd::utf8::encode_utf8(text).len();
            if bytes <= 262_144 {
                clip_step(last, ClipEvent::Requested(Some(text))) == (text, Some(text))
            } else {
                clip_step(last, ClipEvent::Requested(Some(text))) == (last, None::<Seq<char>>)
            }
        }),
{
}

/// A text of the other side is remembered where it was put on the clipboard.
/// What could not be read or written changes nothing, and nothing is sent on
/// its account.
pub proof fn law_only_what_happened_is_remembered(last: Seq<char>, text: Seq<char>)
    ensures
        clip_step(last, ClipEvent::Written { text, written: true }) == (text, None::<Seq<char>>),
        clip_step(last, ClipEvent::Written { text, written: false }) == (last, None::<Seq<char>>),
        clip_step(last, ClipEvent::Requested(None)) == (last, None::<Seq<char>>),
        clip_step(last, ClipEvent::Polled(None)) == (last, None::<Seq<char>>),
{
}

/// A text is worth sending for any cap exactly where it is not empty, was not
/// the last one, and takes no more bytes than the cap.
pub proof fn law_news(text: Seq<char>, last: Seq<char>, cap: nat)
    ensures
        is_news(text, last, cap) <==> text != Seq::<char>::empty() && text != last
            && vstd::utf8::encode_utf8(text).len() <= cap,
{
    assert(text.len() == 0 ==> text =~= Seq::<char>::empty());
}

/// A message that carries a text sets it on the other side, character for
/// character, and without a text there is no message.
pub proof fn law_messages_carry_their_text(message: Option<ControlMessage>, text: Option<String>)
    requires
        carries(message, chars_of(text)),
    ensures
        match text {
            Some(t) => message matches Some(ControlMessage::ClipSet { text: sent }) && sent@ == t@,
            None => message is None,
        },
{
}

/// The clipboard is looked at every 800 milliseconds, and up to 262144 bytes of
/// it are shared.
pub proof fn law_clipboard_settings()
    ensures
        POLL_MILLIS == 800,
        CLIP_MAX_BYTES == 262_144,
{
}

/// The size of a text is the number of bytes that it takes in UTF-8, which is one
/// for each character where all of them are ASCII.
pub proof fn law_sizes_are_counted_in_bytes(text: Seq<char>)
    ensures
        byte_len(text) == vstd::utf8::encode_utf8(text).len(),
        vstd::utf8::is_ascii_chars(text) ==> byte_len(text) == text.len(),
{
    if vstd::utf8::is_ascii_chars(text) {
        vstd::utf8::is_ascii_chars_encode_utf8(text);
    }
}

} // verus!
