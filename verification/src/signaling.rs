//! The signaling connection: where it goes, what the agent does with each
//! message, and when it reconnects.

use crate::config::AgentConfig;
use crate::protocol::{IceServer, SdpDesc, SignalingMessage};
use crate::text::{joined, same_text, strip_prefix};
use crate::time::Duration;
use vstd::prelude::*;

verus! {

/// The WebSocket address of the server at `server_url`: `http` becomes `ws`,
/// `https` becomes `wss`, and any other address stands as it is.
pub open spec fn ws_url(server_url: Seq<char>) -> Seq<char> {
    if "https://"@.is_prefix_of(server_url) {
        "wss://"@ + server_url.skip("https://"@.len() as int)
    } else if "http://"@.is_prefix_of(server_url) {
        "ws://"@ + server_url.skip("http://"@.len() as int)
    } else {
        server_url
    }
}

/// The WebSocket address of the server at `server_url`.
pub fn ws_url_from(server_url: &str) -> (url: String)
    ensures
        url@ == ws_url(server_url@),
{
    if let Some(rest) = strip_prefix(server_url, "https://") {
        assert("https://"@.is_prefix_of(server_url@));
        assert(server_url@.skip("https://"@.len() as int) =~= rest@);
        joined("wss://", rest)
    } else if let Some(rest) = strip_prefix(server_url, "http://") {
        assert("http://"@.is_prefix_of(server_url@));
        assert(server_url@.skip("http://"@.len() as int) =~= rest@);
        joined("ws://", rest)
    } else {
        server_url.to_owned()
    }
}

/// The first wait before a reconnect, in seconds.
pub const BASE_BACKOFF_SECS: u64 = 1;

/// The longest wait before a reconnect, in seconds.
pub const MAX_BACKOFF_SECS: u64 = 30;

/// A connection that was up this long, in seconds, starts the waits anew.
pub const STABLE_RESET_SECS: u64 = 60;

/// Twice `nanos`, but no more than the longest wait.
pub open spec fn doubled(nanos: nat) -> nat {
    if 2 * nanos < MAX_BACKOFF_SECS * 1_000_000_000 {
        2 * nanos
    } else {
        (MAX_BACKOFF_SECS * 1_000_000_000) as nat
    }
}

/// Exponential backoff: double, capped at the longest wait.
pub fn next_backoff(current: Duration) -> (next: Duration)
    ensures
        next.nanos == doubled(current.nanos as nat),
{
    let most: Duration = Duration::from_secs(MAX_BACKOFF_SECS);
    if current.nanos < most.nanos / 2 {
        Duration { nanos: current.nanos * 2 }
    } else {
        most
    }
}

/// How one signaling connection ended.
#[derive(Debug, PartialEq, Eq)]
pub enum SessionOutcome {
    /// A transient close or error: reconnect after a wait.
    Retry,
    /// A permanent failure, such as a rejected device token: stop.
    Fatal(String),
}

/// What the agent does after a connection ended.
#[derive(Debug, PartialEq, Eq)]
pub enum AfterSession {
    /// Sleep this long, then connect again.
    ReconnectIn(Duration),
    /// Stop for good.
    Stop(String),
}

/// The waits between connections.
pub struct Reconnect {
    backoff: Duration,
}

impl Reconnect {
    /// The wait before the next reconnect, in nanoseconds.
    pub closed spec fn view(&self) -> nat {
        self.backoff.nanos as nat
    }

    pub fn new() -> (r: Reconnect)
        ensures
            r@ == BASE_BACKOFF_SECS * 1_000_000_000,
    {
        Reconnect { backoff: Duration::from_secs(BASE_BACKOFF_SECS) }
    }

    /// Decide what follows a connection that ended in `outcome` after it was up
    /// for `up`.
    pub fn after_session(&mut self, outcome: SessionOutcome, up: Duration) -> (next: AfterSession)
        ensures
            match outcome {
                SessionOutcome::Fatal(reason) => {
                    &&& next == AfterSession::Stop(reason)
                    &&& final(self)@ == old(self)@
                },
                SessionOutcome::Retry => {
                    &&& next == (AfterSession::ReconnectIn(
                        Duration { nanos: wait_after(old(self)@, up.nanos as nat) as u128 },
                    ))
                    &&& final(self)@ == doubled(wait_after(old(self)@, up.nanos as nat))
                },
            },
    {
        match outcome {
            SessionOutcome::Fatal(reason) => AfterSession::Stop(reason),
            SessionOutcome::Retry => {
                // a connection that stayed up a while resets the backoff
                let stable: Duration = Duration::from_secs(STABLE_RESET_SECS);
                if up.nanos >= stable.nanos {
                    self.backoff = Duration::from_secs(BASE_BACKOFF_SECS);
                }
                let wait: Duration = self.backoff;
                self.backoff = next_backoff(wait);
                AfterSession::ReconnectIn(wait)
            },
        }
    }
}

/// The wait after a connection that was up for `up`, when the wait was due to
/// be `due`, all in nanoseconds.
pub open spec fn wait_after(due: nat, up: nat) -> nat {
    if up >= STABLE_RESET_SECS * 1_000_000_000 {
        (BASE_BACKOFF_SECS * 1_000_000_000) as nat
    } else {
        due
    }
}

/// The wait that is due after connections that were up for the spans of `ups`,
/// one after the other, and all ended transiently.
pub open spec fn due_after(ups: Seq<nat>) -> nat
    decreases ups.len(),
{
    if ups.len() == 0 {
        (BASE_BACKOFF_SECS * 1_000_000_000) as nat
    } else {
        doubled(wait_after(due_after(ups.drop_last()), ups.last()))
    }
}

/// However the connections go, a wait is at least one second and at most
/// thirty.
pub proof fn law_backoff_is_bounded(ups: Seq<nat>, up: nat)
    ensures
        BASE_BACKOFF_SECS * 1_000_000_000 <= wait_after(due_after(ups), up) <= MAX_BACKOFF_SECS
            * 1_000_000_000,
    decreases ups.len(),
{
    if ups.len() > 0 {
        law_backoff_is_bounded(ups.drop_last(), ups.last());
    }
}

/// While no connection stays up for a minute, the wait doubles from one second
/// until it reaches thirty.
pub proof fn law_backoff_doubles(ups: Seq<nat>)
    requires
        forall|i: int| 0 <= i < ups.len() ==> ups[i] < STABLE_RESET_SECS * 1_000_000_000,
    ensures
        due_after(ups) == if ups.len() < 5 {
            vstd::arithmetic::power2::pow2(ups.len()) * 1_000_000_000
        } else {
            30_000_000_000
        },
    decreases ups.len(),
{
    vstd::arithmetic::power2::lemma2_to64();
    if ups.len() > 0 {
        law_backoff_doubles(ups.drop_last());
    }
}

/// After a connection that stayed up for a minute the waits start over.
pub proof fn law_stable_connection_resets_backoff(ups: Seq<nat>, up: nat)
    requires
        up >= STABLE_RESET_SECS * 1_000_000_000,
    ensures
        wait_after(due_after(ups), up) == BASE_BACKOFF_SECS * 1_000_000_000,
        due_after(ups.push(up)) == 2 * BASE_BACKOFF_SECS * 1_000_000_000,
{
    assert(ups.push(up).drop_last() =~= ups);
}

/// What became of a message that was to be sent.
#[derive(Debug, Clone, Copy, PartialEq, Eq, Structural)]
pub enum SendResult {
    Sent,
    /// The connection did not take it.
    Failed,
    /// It could not be written as JSON.
    Unwritable,
}

/// What happens to a signaling connection.
#[derive(Debug, PartialEq, Eq)]
pub enum SignalingEvent {
    /// The attempt to connect ended, well or not.
    Connected(bool),
    /// The message of the last `SignalingAction::Send` was handed out.
    Sent(SendResult),
    /// The peer connection gathered a candidate of its own.
    LocalCandidate(serde_json::Value),
    /// The server sent a message.
    Received(SignalingMessage),
    /// The server sent something that is no message.
    Unreadable,
    /// The connection was closed, failed or came to its end.
    Closed,
    /// The peer connection of the last `SignalingAction::OpenPeer` was set up,
    /// or could not be.
    PeerOpened { session_id: String, opened: bool },
    /// The offer of the last `SignalingAction::AcceptOffer` was answered, or
    /// could not be.
    OfferTaken { session_id: String, answer: Option<String> },
}

/// What the agent does next on a signaling connection.
#[derive(Debug, PartialEq, Eq)]
pub enum SignalingAction {
    /// Wait for the next event.
    Wait,
    /// Send a message to the server.
    Send(SignalingMessage),
    /// Set up a peer connection.
    OpenPeer { session_id: String, relay_policy: String, ice_servers: Vec<IceServer> },
    /// Hand an offer to the peer connection and wait for its answer.
    AcceptOffer { session_id: String, sdp: String },
    /// Hand a candidate of the other side to the peer connection.
    AddRemoteIce { candidate: serde_json::Value },
    /// Close the peer connection and let go of it.
    ClosePeer,
    /// Leave the connection.
    End(SessionOutcome),
}

/// What is known of a signaling connection: whether the agent has announced
/// itself, and the session that it serves.
pub struct SessionState {
    pub online: bool,
    pub current: Option<Seq<char>>,
}

/// The state after `event`.
pub open spec fn state_after(state: SessionState, event: SignalingEvent) -> SessionState {
    match event {
        SignalingEvent::Sent(result) => SessionState {
            online: state.online || result is Sent,
            ..state
        },
        SignalingEvent::PeerOpened { session_id, opened } => if opened {
            SessionState { current: Some(session_id@), ..state }
        } else {
            state
        },
        SignalingEvent::Received(SignalingMessage::PeerLeft { session_id }) => if state.current
            == Some(session_id@) {
            SessionState { current: None, ..state }
        } else {
            state
        },
        _ => state,
    }
}

/// `action` is the answer to `event` in `state`, for a device with `token`.
pub open spec fn is_answer(
    token: Seq<char>,
    state: SessionState,
    event: SignalingEvent,
    action: SignalingAction,
) -> bool {
    match event {
        SignalingEvent::Connected(up) => if up {
            action matches SignalingAction::Send(SignalingMessage::AgentOnline { token: t })
                && t@ == token
        } else {
            action == SignalingAction::End(SessionOutcome::Retry)
        },
        SignalingEvent::Sent(result) => if result is Sent || (state.online && result is Unwritable) {
            action is Wait
        } else {
            action == SignalingAction::End(SessionOutcome::Retry)
        },
        SignalingEvent::LocalCandidate(c) => match state.current {
            Some(id) => action matches SignalingAction::Send(
                SignalingMessage::Ice { session_id, candidate },
            ) && session_id@ == id && candidate == c,
            None => action is Wait,
        },
        SignalingEvent::Received(message) => is_answer_to_message(state, message, action),
        SignalingEvent::Unreadable => action is Wait,
        SignalingEvent::Closed => action == SignalingAction::End(SessionOutcome::Retry),
        SignalingEvent::PeerOpened { .. } => action is Wait,
        SignalingEvent::OfferTaken { session_id, answer } => match answer {
            Some(a) => action matches SignalingAction::Send(
                SignalingMessage::Sdp { session_id: id, sdp },
            ) && id == session_id && sdp.kind@ == "answer"@ && sdp.sdp == a,
            None => action is Wait,
        },
    }
}

/// `action` is the answer to a message of the server in `state`.
pub open spec fn is_answer_to_message(
    state: SessionState,
    message: SignalingMessage,
    action: SignalingAction,
) -> bool {
    match message {
        SignalingMessage::Incoming { session_id, relay_policy, ice_servers } => action == (
        SignalingAction::OpenPeer { session_id, relay_policy, ice_servers }),
        SignalingMessage::Sdp { session_id, sdp } => if sdp.kind@ == "offer"@ && state.current
            == Some(session_id@) {
            action == (SignalingAction::AcceptOffer { session_id, sdp: sdp.sdp })
        } else {
            action is Wait
        },
        SignalingMessage::Ice { session_id, candidate } => if state.current == Some(session_id@) {
            action == (SignalingAction::AddRemoteIce { candidate })
        } else {
            action is Wait
        },
        SignalingMessage::PeerLeft { session_id } => if state.current == Some(session_id@) {
            action is ClosePeer
        } else {
            action is Wait
        },
        SignalingMessage::Error { code, message } => if code@ == "bad-token"@ {
            action matches SignalingAction::End(SessionOutcome::Fatal(reason)) && reason@
                == "device token rejected: "@ + message@
        } else {
            action is Wait
        },
        _ => action is Wait,
    }
}

/// One signaling connection of a paired device.
pub struct SignalingSession {
    token: String,
    online: bool,
    current: Option<String>,
}

impl SignalingSession {
    /// The token that the device announces itself with.
    pub closed spec fn token(&self) -> Seq<char> {
        self.token@
    }

    pub closed spec fn view(&self) -> SessionState {
        SessionState {
            online: self.online,
            current: match self.current {
                Some(id) => Some(id@),
                None => None,
            },
        }
    }

    /// The connection of a device before its first event.
    pub fn new(config: &AgentConfig) -> (s: SignalingSession)
        ensures
            s.token() == config.device_token@,
            s@ == (SessionState { online: false, current: None }),
    {
        SignalingSession { token: config.device_token.clone(), online: false, current: None }
    }

    /// Whether `id` is the session that the connection serves.
    fn serves(&self, id: &String) -> (b: bool)
        ensures
            b == (self@.current == Some(id@)),
    {
        match &self.current {
            Some(current) => same_text(current.as_str(), id.as_str()),
            None => false,
        }
    }

    /// Take in `event` and decide what to do next.
    pub fn on_event(&mut self, event: SignalingEvent) -> (action: SignalingAction)
        ensures
            final(self).token() == old(self).token(),
            final(self)@ == state_after(old(self)@, event),
            is_answer(old(self).token(), old(self)@, event, action),
    {
        match event {
            SignalingEvent::Connected(up) => if up {
                SignalingAction::Send(SignalingMessage::AgentOnline { token: self.token.clone() })
            } else {
                SignalingAction::End(SessionOutcome::Retry)
            },
            SignalingEvent::Sent(result) => self.on_sent(result),
            SignalingEvent::LocalCandidate(candidate) => match &self.current {
                Some(id) => SignalingAction::Send(
                    SignalingMessage::Ice { session_id: id.clone(), candidate },
                ),
                None => SignalingAction::Wait,
            },
            SignalingEvent::Received(message) => self.on_message(message),
            SignalingEvent::Unreadable => SignalingAction::Wait,
            SignalingEvent::Closed => SignalingAction::End(SessionOutcome::Retry),
            SignalingEvent::PeerOpened { session_id, opened } => {
                // a new session takes the place of the one before it
                if opened {
                    self.current = Some(session_id);
                }
                SignalingAction::Wait
            },
            SignalingEvent::OfferTaken { session_id, answer } => match answer {
                Some(sdp) => SignalingAction::Send(
                    SignalingMessage::Sdp {
                        session_id,
                        sdp: SdpDesc { kind: "answer".to_owned(), sdp },
                    },
                ),
                None => SignalingAction::Wait,
            },
        }
    }

    fn on_sent(&mut self, result: SendResult) -> (action: SignalingAction)
        ensures
            final(self).token() == old(self).token(),
            final(self)@ == state_after(old(self)@, SignalingEvent::Sent(result)),
            is_answer(old(self).token(), old(self)@, SignalingEvent::Sent(result), action),
    {
        match result {
            SendResult::Sent => {
                self.online = true;
                SignalingAction::Wait
            },
            SendResult::Failed => SignalingAction::End(SessionOutcome::Retry),
            SendResult::Unwritable => if self.online {
                SignalingAction::Wait
            } else {
                SignalingAction::End(SessionOutcome::Retry)
            },
        }
    }

    fn on_message(&mut self, message: SignalingMessage) -> (action: SignalingAction)
        ensures
            final(self).token() == old(self).token(),
            final(self)@ == state_after(old(self)@, SignalingEvent::Received(message)),
            is_answer_to_message(old(self)@, message, action),
    {
        match message {
            SignalingMessage::Incoming { session_id, relay_policy, ice_servers } => {
                SignalingAction::OpenPeer { session_id, relay_policy, ice_servers }
            },
            SignalingMessage::Sdp { session_id, sdp } => {
                if same_text(sdp.kind.as_str(), "offer") && self.serves(&session_id) {
                    SignalingAction::AcceptOffer { session_id, sdp: sdp.sdp }
                } else {
                    SignalingAction::Wait
                }
            },
            SignalingMessage::Ice { session_id, candidate } => {
                if self.serves(&session_id) {
                    SignalingAction::AddRemoteIce { candidate }
                } else {
                    SignalingAction::Wait
                }
            },
            SignalingMessage::PeerLeft { session_id } => {
                if self.serves(&session_id) {
                    self.current = None;
                    SignalingAction::ClosePeer
                } else {
                    SignalingAction::Wait
                }
            },
            SignalingMessage::Error { code, message } => {
                if same_text(code.as_str(), "bad-token") {
                    let reason: String = joined("device token rejected: ", message.as_str());
                    SignalingAction::End(SessionOutcome::Fatal(reason))
                } else {
                    SignalingAction::Wait
                }
            },
            _ => SignalingAction::Wait,
        }
    }
}

/// The session that a message of the server is about, where the agent only
/// heeds it for the session that it serves.
pub open spec fn addressed_session(message: SignalingMessage) -> Option<Seq<char>> {
    match message {
        SignalingMessage::Sdp { session_id, .. } => Some(session_id@),
        SignalingMessage::Ice { session_id, .. } => Some(session_id@),
        SignalingMessage::PeerLeft { session_id } => Some(session_id@),
        _ => None,
    }
}

/// What is addressed to another session than the served one changes nothing
/// and calls for nothing.
pub proof fn law_other_sessions_are_ignored(
    token: Seq<char>,
    state: SessionState,
    message: SignalingMessage,
    action: SignalingAction,
)
    requires
        addressed_session(message) is Some,
        state.current != addressed_session(message),
        is_answer(token, state, SignalingEvent::Received(message), action),
    ensures
        action is Wait,
        state_after(state, SignalingEvent::Received(message)) == state,
{
}

/// The agent gives up for good exactly when the server rejects its token; every
/// other end of a connection is followed by a reconnect.
pub proof fn law_only_a_rejected_token_is_fatal(
    token: Seq<char>,
    state: SessionState,
    event: SignalingEvent,
    action: SignalingAction,
)
    requires
        is_answer(token, state, event, action),
    ensures
        (action matches SignalingAction::End(outcome) && outcome is Fatal) <==> (event matches
            SignalingEvent::Received(SignalingMessage::Error { code, .. }) && code@ == "bad-token"@),
{
}

/// A candidate leaves the agent only under the id of the session that it
/// serves, and only while it serves one.
pub proof fn law_candidates_belong_to_the_served_session(
    token: Seq<char>,
    state: SessionState,
    event: SignalingEvent,
    action: SignalingAction,
)
    requires
        is_answer(token, state, event, action),
    ensures
        action matches SignalingAction::Send(SignalingMessage::Ice { session_id, .. }) ==> event
            is LocalCandidate && state.current == Some(session_id@),
{
}

/// The served session changes only when a peer connection was set up for a new
/// one, or when the other side left it.
pub proof fn law_session_changes(state: SessionState, event: SignalingEvent)
    ensures
        state_after(state, event).current != state.current ==> match event {
            SignalingEvent::PeerOpened { session_id, opened } => opened && state_after(
                state,
                event,
            ).current == Some(session_id@),
            SignalingEvent::Received(SignalingMessage::PeerLeft { session_id }) => state.current
                == Some(session_id@) && state_after(state, event).current is None,
            _ => false,
        },
{
}

/// The address of the signaling connection is that of the server with `ws` in
/// place of `http`, and with `wss` in place of `https`. An address of another
/// kind stays as it is.
pub proof fn law_ws_addresses(rest: Seq<char>, other: Seq<char>)
    requires
        !"http://"@.is_prefix_of(other),
        !"https://"@.is_prefix_of(other),
    ensures
        ws_url("http://"@ + rest) == "ws://"@ + rest,
        ws_url("https://"@ + rest) == "wss://"@ + rest,
        ws_url(other) == other,
{
    reveal_strlit("http://");
    reveal_strlit("https://");
    let plain = "http://"@ + rest;
    let secure = "https://"@ + rest;
    assert("https://"@.is_prefix_of(secure));
    assert(secure.skip(8) =~= rest);
    assert("http://"@.is_prefix_of(plain));
    assert(plain.skip(7) =~= rest);
    assert(plain[4] == ':');
    if "https://"@.is_prefix_of(plain) {
        assert(plain[4] == "https://"@[4]);
    }
}

/// The next wait is twice the last one, or thirty seconds where that is less.
pub proof fn law_the_next_wait_is_twice_the_last(nanos: nat)
    ensures
        nanos <= 15_000_000_000 ==> doubled(nanos) == 2 * nanos,
        nanos >= 15_000_000_000 ==> doubled(nanos) == 30_000_000_000,
{
}

/// A connection that stayed up for less than a minute is followed by the wait
/// that is due, and one that stayed up for a minute by a second.
pub proof fn law_waits_after_connections(due: nat, up: nat)
    ensures
        up < 60_000_000_000 ==> wait_after(due, up) == due,
        up >= 60_000_000_000 ==> wait_after(due, up) == 1_000_000_000,
{
}

/// A connection that is up is used to announce the device, with its token; one
/// that could not be made is tried again.
pub proof fn law_the_device_announces_itself(
    token: Seq<char>,
    state: SessionState,
    up: bool,
    action: SignalingAction,
)
    requires
        is_answer(token, state, SignalingEvent::Connected(up), action),
    ensures
        up ==> (action matches SignalingAction::Send(SignalingMessage::AgentOnline { token: sent })
            && sent@ == token),
        !up ==> action == SignalingAction::End(SessionOutcome::Retry),
        state_after(state, SignalingEvent::Connected(up)) == state,
{
}

/// Every session that comes in gets a peer connection, with the policy and the
/// servers that it came with, and takes the place of the one before it once the
/// peer connection is there.
pub proof fn law_sessions_are_opened(
    token: Seq<char>,
    state: SessionState,
    session_id: String,
    relay_policy: String,
    ice_servers: Vec<IceServer>,
    action: SignalingAction,
    opened: bool,
    next: SignalingAction,
)
    requires
        is_answer(
            token,
            state,
            SignalingEvent::Received(
                SignalingMessage::Incoming { session_id, relay_policy, ice_servers },
            ),
            action,
        ),
        is_answer(token, state, SignalingEvent::PeerOpened { session_id, opened }, next),
    ensures
        action == (SignalingAction::OpenPeer { session_id, relay_policy, ice_servers }),
        next is Wait,
        state_after(state, SignalingEvent::PeerOpened { session_id, opened }) == (SessionState {
            online: state.online,
            current: if opened {
                Some(session_id@)
            } else {
                state.current
            },
        }),
{
}

/// An offer for the served session goes to its peer connection as it came, and
/// the answer goes back under the same session. What is no offer goes nowhere.
pub proof fn law_offers_are_answered(
    token: Seq<char>,
    state: SessionState,
    session_id: String,
    sdp: SdpDesc,
    action: SignalingAction,
    answer: Option<String>,
    reply: SignalingAction,
)
    requires
        state.current == Some(session_id@),
        is_answer(
            token,
            state,
            SignalingEvent::Received(SignalingMessage::Sdp { session_id, sdp }),
            action,
        ),
        is_answer(token, state, SignalingEvent::OfferTaken { session_id, answer }, reply),
    ensures
        sdp.kind@ == "offer"@ ==> action == (SignalingAction::AcceptOffer {
            session_id,
            sdp: sdp.sdp,
        }),
        sdp.kind@ != "offer"@ ==> action is Wait,
        match answer {
            Some(text) => reply matches SignalingAction::Send(
                SignalingMessage::Sdp { session_id: id, sdp: sent },
            ) && id == session_id && sent.kind@ == "answer"@ && sent.sdp == text,
            None => reply is Wait,
        },
        state_after(
            state,
            SignalingEvent::Received(SignalingMessage::Sdp { session_id, sdp }),
        ) == state,
        state_after(state, SignalingEvent::OfferTaken { session_id, answer }) == state,
{
}

/// Every candidate of the other side for the served session goes to its peer
/// connection, and every candidate of this side goes out under that session.
pub proof fn law_candidates_go_both_ways(
    token: Seq<char>,
    state: SessionState,
    session_id: String,
    candidate: serde_json::Value,
    action: SignalingAction,
    sent: SignalingAction,
)
    requires
        state.current == Some(session_id@),
        is_answer(
            token,
            state,
            SignalingEvent::Received(SignalingMessage::Ice { session_id, candidate }),
            action,
        ),
        is_answer(token, state, SignalingEvent::LocalCandidate(candidate), sent),
    ensures
        action == (SignalingAction::AddRemoteIce { candidate }),
        sent matches SignalingAction::Send(
            SignalingMessage::Ice { session_id: id, candidate: c },
        ) && id@ == session_id@ && c == candidate,
        state_after(
            state,
            SignalingEvent::Received(SignalingMessage::Ice { session_id, candidate }),
        ) == state,
        state_after(state, SignalingEvent::LocalCandidate(candidate)) == state,
{
}

/// When the other side leaves the served session, its peer connection is closed
/// and no session is served any more.
pub proof fn law_a_left_session_is_closed(
    token: Seq<char>,
    state: SessionState,
    session_id: String,
    action: SignalingAction,
)
    requires
        state.current == Some(session_id@),
        is_answer(
            token,
            state,
            SignalingEvent::Received(SignalingMessage::PeerLeft { session_id }),
            action,
        ),
    ensures
        action is ClosePeer,
        state_after(state, SignalingEvent::Received(SignalingMessage::PeerLeft { session_id }))
            == (SessionState { online: state.online, current: None }),
{
}

/// An error of the server ends the connection exactly where the token is
/// rejected, for the reason that the server gives; other errors do not.
pub proof fn law_server_errors(
    token: Seq<char>,
    state: SessionState,
    code: String,
    message: String,
    action: SignalingAction,
)
    requires
        is_answer(
            token,
            state,
            SignalingEvent::Received(SignalingMessage::Error { code, message }),
            action,
        ),
    ensures
        code@ == "bad-token"@ ==> (action matches SignalingAction::End(
            SessionOutcome::Fatal(reason),
        ) && reason@ == "device token rejected: "@ + message@),
        code@ != "bad-token"@ ==> action is Wait,
        state_after(state, SignalingEvent::Received(SignalingMessage::Error { code, message }))
            == state,
{
}

/// A message that went out is followed by the next event, and one that the
/// connection did not take by a new connection. One that cannot be written ends
/// the connection only where it is the first.
pub proof fn law_sent_messages(
    token: Seq<char>,
    state: SessionState,
    result: SendResult,
    action: SignalingAction,
)
    requires
        is_answer(token, state, SignalingEvent::Sent(result), action),
    ensures
        action is Wait <==> result is Sent || (result is Unwritable && state.online),
        !(action is Wait) ==> action == SignalingAction::End(SessionOutcome::Retry),
        state_after(state, SignalingEvent::Sent(result)) == (SessionState {
            online: state.online || result is Sent,
            current: state.current,
        }),
{
}

/// What cannot be read is passed over, and a connection that ended is followed
/// by a new one.
pub proof fn law_unreadable_and_closed(
    token: Seq<char>,
    state: SessionState,
    unreadable: SignalingAction,
    closed: SignalingAction,
)
    requires
        is_answer(token, state, SignalingEvent::Unreadable, unreadable),
        is_answer(token, state, SignalingEvent::Closed, closed),
    ensures
        unreadable is Wait,
        closed == SignalingAction::End(SessionOutcome::Retry),
        state_after(state, SignalingEvent::Unreadable) == state,
        state_after(state, SignalingEvent::Closed) == state,
{
}

/// Without a session nothing of this side goes out, and messages that are meant
/// for the server call for nothing.
pub proof fn law_nothing_goes_out_unasked(
    token: Seq<char>,
    state: SessionState,
    candidate: serde_json::Value,
    message: SignalingMessage,
    sent: SignalingAction,
    action: SignalingAction,
)
    requires
        state.current is None,
        is_answer(token, state, SignalingEvent::LocalCandidate(candidate), sent),
        is_answer(token, state, SignalingEvent::Received(message), action),
        !(message is Incoming) && !(message is Error),
    ensures
        sent is Wait,
        action is Wait,
        state_after(state, SignalingEvent::Received(message)) == state,
{
}

/// Messages that are none of a new session, a description, a candidate, a
/// departure or an error call for nothing and change nothing, whether a session
/// is served or not.
pub proof fn law_other_messages_call_for_nothing(
    token: Seq<char>,
    state: SessionState,
    message: SignalingMessage,
    action: SignalingAction,
)
    requires
        is_answer(token, state, SignalingEvent::Received(message), action),
        !(message is Incoming) && !(message is Sdp) && !(message is Ice) && !(message is PeerLeft)
            && !(message is Error),
    ensures
        action is Wait,
        state_after(state, SignalingEvent::Received(message)) == state,
{
}

/// The device is online once a message went out, and stays so.
pub proof fn law_online_once_a_message_went_out(state: SessionState, event: SignalingEvent)
    ensures
        state_after(state, event).online <==> state.online || event == SignalingEvent::Sent(
            SendResult::Sent,
        ),
{
}

} // verus!
