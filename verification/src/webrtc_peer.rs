//! The peer connection: candidates that come too early, the servers and the
//! policy that it is set up with, and the channels that the other side opens.

use crate::protocol::{IceServer, Urls};
use crate::text::{joined, same_text};
use crate::video::target_capture_size;
use vstd::prelude::*;
use webrtc::ice_transport::ice_candidate::{RTCIceCandidate, RTCIceCandidateInit};
use webrtc::peer_connection::sdp::session_description::RTCSessionDescription;

verus! {

/// What happens to a buffer of candidates.
pub enum IceEvent<T> {
    /// A candidate of the other side comes.
    Candidate(T),
    /// The remote description has been set.
    RemoteSet,
}

/// A buffer of candidates, seen from outside.
pub struct IceState<T> {
    /// The remote description has been set.
    pub remote_set: bool,
    /// The candidates that wait for it.
    pub waiting: Seq<T>,
}

impl<T> IceState<T> {
    /// The state of a new buffer.
    pub open spec fn fresh() -> IceState<T> {
        IceState { remote_set: false, waiting: Seq::empty() }
    }

    /// The state after `event`, and the candidates that are given back.
    pub open spec fn step(self, event: IceEvent<T>) -> (IceState<T>, Seq<T>) {
        match event {
            IceEvent::Candidate(c) => if self.remote_set {
                (self, seq![c])
            } else {
                (IceState { waiting: self.waiting.push(c), ..self }, Seq::empty())
            },
            IceEvent::RemoteSet => (
                IceState { remote_set: true, waiting: Seq::empty() },
                self.waiting,
            ),
        }
    }
}

/// Buffers remote ICE candidates that arrive before the remote description is
/// set.
pub struct IceBuffer<T> {
    remote_set: bool,
    pending: Vec<T>,
}

impl<T> IceBuffer<T> {
    pub closed spec fn view(&self) -> IceState<T> {
        IceState { remote_set: self.remote_set, waiting: self.pending@ }
    }

    pub fn new() -> (b: IceBuffer<T>)
        ensures
            b@ == IceState::<T>::fresh(),
    {
        let b = IceBuffer { remote_set: false, pending: Vec::new() };
        assert(b@.waiting =~= Seq::<T>::empty());
        b
    }

    /// Take in a candidate. It is given back when it can be added immediately,
    /// and kept otherwise.
    pub fn accept(&mut self, candidate: T) -> (ready: Option<T>)
        ensures
            final(self)@ == old(self)@.step(IceEvent::Candidate(candidate)).0,
            ready == if old(self)@.remote_set {
                Some(candidate)
            } else {
                None
            },
    {
        if self.remote_set {
            Some(candidate)
        } else {
            self.pending.push(candidate);
            None
        }
    }

    /// The remote description has been set: give back the candidates that
    /// waited for it, in the order in which they came.
    pub fn on_remote_set(&mut self) -> (flushed: Vec<T>)
        ensures
            final(self)@ == old(self)@.step(IceEvent::RemoteSet).0,
            flushed@ == old(self)@.waiting,
    {
        self.remote_set = true;
        let mut flushed: Vec<T> = Vec::new();
        std::mem::swap(&mut self.pending, &mut flushed);
        assert(self@.waiting =~= Seq::<T>::empty());
        flushed
    }
}

/// The state of a new buffer after `events`.
pub open spec fn state_after<T>(events: Seq<IceEvent<T>>) -> IceState<T>
    decreases events.len(),
{
    if events.len() == 0 {
        IceState::fresh()
    } else {
        state_after(events.drop_last()).step(events.last()).0
    }
}

/// The candidates that a new buffer has given back after `events`.
pub open spec fn given_back<T>(events: Seq<IceEvent<T>>) -> Seq<T>
    decreases events.len(),
{
    if events.len() == 0 {
        Seq::empty()
    } else {
        given_back(events.drop_last()) + state_after(events.drop_last()).step(events.last()).1
    }
}

/// The candidates among `events`, in the order in which they came.
pub open spec fn candidates<T>(events: Seq<IceEvent<T>>) -> Seq<T>
    decreases events.len(),
{
    if events.len() == 0 {
        Seq::empty()
    } else {
        match events.last() {
            IceEvent::Candidate(c) => candidates(events.drop_last()).push(c),
            IceEvent::RemoteSet => candidates(events.drop_last()),
        }
    }
}

/// The remote description was set in `events`.
pub open spec fn set_in<T>(events: Seq<IceEvent<T>>) -> bool {
    exists|i: int| 0 <= i < events.len() && #[trigger] events[i] is RemoteSet
}

/// No candidate is lost, doubled or moved from its place: what a buffer has
/// given back, followed by what waits in it, is what came in. Nothing waits once
/// the remote description has been set, and nothing is given back before.
pub proof fn law_no_candidate_is_lost<T>(events: Seq<IceEvent<T>>)
    ensures
        given_back(events) + state_after(events).waiting == candidates(events),
        state_after(events).remote_set == set_in(events),
        set_in(events) ==> state_after(events).waiting.len() == 0,
        !set_in(events) ==> given_back(events).len() == 0,
    decreases events.len(),
{
    if events.len() == 0 {
        assert(given_back(events) + state_after(events).waiting =~= candidates(events));
    } else {
        let before = events.drop_last();
        let last = events.len() - 1;
        law_no_candidate_is_lost(before);
        if set_in(before) {
            let i = choose|i: int| 0 <= i < before.len() && #[trigger] before[i] is RemoteSet;
            assert(events[i] is RemoteSet);
        }
        if set_in(events) && !(events[last] is RemoteSet) {
            let i = choose|i: int| 0 <= i < events.len() && #[trigger] events[i] is RemoteSet;
            assert(before[i] is RemoteSet);
        }
        if events[last] is RemoteSet {
            assert(set_in(events));
        }
        assert(given_back(events) + state_after(events).waiting =~= candidates(events));
    }
}

/// A candidate that this side gathered, of the `webrtc` crate.
#[verifier::external_type_specification]
#[verifier::external_body]
pub struct ExCandidate(RTCIceCandidate);

/// A candidate in the form in which it is handed over, of the `webrtc` crate.
#[verifier::external_type_specification]
#[verifier::external_body]
pub struct ExCandidateInit(RTCIceCandidateInit);

/// A session description of the `webrtc` crate.
#[verifier::external_type_specification]
#[verifier::external_body]
pub struct ExDescription(RTCSessionDescription);

/// An error of the `webrtc` crate.
#[verifier::external_type_specification]
#[verifier::external_body]
pub struct ExWebrtcError(webrtc::Error);

/// An error of the `serde_json` crate.
#[verifier::external_type_specification]
#[verifier::external_body]
pub struct ExJsonError(serde_json::Error);

/// Why an offer or a candidate went no further.
#[derive(Debug)]
pub enum SessionError {
    /// The offer is no session description.
    Offer(webrtc::Error),
    /// What came from the other side is no candidate.
    RemoteCandidate(serde_json::Error),
    /// A candidate of this side has no form in which it can be handed over.
    LocalCandidate(webrtc::Error),
}

/// The candidate that a JSON value holds, if it holds one.
pub uninterp spec fn candidate_of(v: serde_json::Value) -> Option<RTCIceCandidateInit>;

/// `serde_json::from_value` for a candidate: whether a value is read, and what
/// it is read as, rests on the value alone.
#[verifier::external_body]
fn read_candidate(v: serde_json::Value) -> (r: Result<RTCIceCandidateInit, serde_json::Error>)
    ensures
        match r {
            Ok(c) => candidate_of(v) == Some(c),
            Err(_) => candidate_of(v) is None,
        },
{
    serde_json::from_value(v)
}

/// `serde_json::to_value` for a candidate: it consists of texts and a number,
/// which can all be written, and reading the value gives the candidate back.
#[verifier::external_body]
fn write_candidate(c: RTCIceCandidateInit) -> (r: Result<serde_json::Value, serde_json::Error>)
    ensures
        r is Ok,
        r matches Ok(v) ==> candidate_of(v) == Some(c),
{
    serde_json::to_value(c)
}

/// The priority and the component of a candidate that this side gathered.
pub uninterp spec fn rank_of(c: RTCIceCandidate) -> (u32, u16);

/// The form in which a candidate that this side gathered is handed over, if it
/// has one.
pub uninterp spec fn init_of(c: RTCIceCandidate) -> Option<RTCIceCandidateInit>;

/// A candidate has a priority, or its component is one that a priority can be
/// worked out for.
pub open spec fn is_ranked(c: RTCIceCandidate) -> bool {
    rank_of(c).0 != 0 || rank_of(c).1 <= 256
}

/// The fields `priority` and `component` of `RTCIceCandidate`.
#[verifier::external_body]
fn rank(c: &RTCIceCandidate) -> (r: (u32, u16))
    ensures
        r == rank_of(*c),
{
    (c.priority, c.component)
}

/// `RTCIceCandidate::to_json`: whether a candidate has a form to be handed over
/// in, and which, rests on the candidate alone. The priority of a candidate
/// without one is worked out from its component, which must not exceed 256.
#[verifier::external_body]
fn hand_over(c: &RTCIceCandidate) -> (r: Result<RTCIceCandidateInit, webrtc::Error>)
    requires
        is_ranked(*c),
    ensures
        match r {
            Ok(init) => init_of(*c) == Some(init),
            Err(_) => init_of(*c) is None,
        },
{
    c.to_json()
}

/// Take in a candidate of the other side, as it came. It is given back when it
/// can be added immediately, and kept in `buffer` otherwise.
pub fn add_remote_ice(
    buffer: &mut IceBuffer<RTCIceCandidateInit>,
    candidate: serde_json::Value,
) -> (r: Result<Option<RTCIceCandidateInit>, SessionError>)
    ensures
        match (r, candidate_of(candidate)) {
            (Ok(ready), Some(c)) => {
                &&& final(buffer)@ == old(buffer)@.step(IceEvent::Candidate(c)).0
                &&& ready == if old(buffer)@.remote_set {
                    Some(c)
                } else {
                    None
                }
            },
            (Err(e), None) => e is RemoteCandidate && *final(buffer) == *old(buffer),
            _ => false,
        },
{
    match read_candidate(candidate) {
        Ok(c) => Ok(buffer.accept(c)),
        Err(e) => Err(SessionError::RemoteCandidate(e)),
    }
}

/// A candidate as it is sent: the other side reads the same candidate.
pub fn candidate_message(c: RTCIceCandidateInit) -> (v: serde_json::Value)
    ensures
        candidate_of(v) == Some(c),
{
    write_candidate(c).unwrap()
}

/// A candidate that this side gathered, as it is sent: the other side reads the
/// form in which the candidate is handed over. There is no answer for a
/// candidate that has no rank.
pub fn local_candidate(c: &RTCIceCandidate) -> (r: Option<Result<serde_json::Value, SessionError>>)
    ensures
        r is Some == is_ranked(*c),
        r matches Some(sent) ==> match (sent, init_of(*c)) {
            (Ok(v), Some(init)) => candidate_of(v) == Some(init),
            (Err(e), None) => e is LocalCandidate,
            _ => false,
        },
{
    let (priority, component) = rank(c);
    if priority == 0 && component > 256 {
        return None;
    }
    match hand_over(c) {
        Ok(init) => Some(Ok(candidate_message(init))),
        Err(e) => Some(Err(SessionError::LocalCandidate(e))),
    }
}

/// Which candidates a peer connection gathers.
#[derive(Clone, Copy, Debug, PartialEq, Eq, Structural)]
pub enum IceTransportPolicy {
    /// All of them.
    All,
    /// Only those that go through a relay.
    Relay,
}

/// Map the session's relay policy to an ICE transport policy. `force-relay`
/// restricts gathering to relayed candidates, for paths on which direct ones
/// cannot connect. Everything else allows all candidate types.
pub fn ice_transport_policy(relay_policy: &str) -> (policy: IceTransportPolicy)
    ensures
        policy == if relay_policy@ == "force-relay"@ {
            IceTransportPolicy::Relay
        } else {
            IceTransportPolicy::All
        },
{
    if same_text(relay_policy, "force-relay") {
        IceTransportPolicy::Relay
    } else {
        IceTransportPolicy::All
    }
}

/// How the credential of an ICE server is meant.
#[derive(Clone, Copy, Debug, PartialEq, Eq, Structural)]
pub enum IceCredentialType {
    Unspecified,
    Password,
    Oauth,
}

/// An ICE server as a peer connection takes it.
#[derive(Debug, PartialEq, Eq)]
pub struct RtcIceServer {
    pub urls: Vec<String>,
    pub username: String,
    pub credential: String,
    pub credential_type: IceCredentialType,
}

/// The addresses in a list whose entries may have none.
pub open spec fn present(list: Seq<Option<String>>) -> Seq<Seq<char>>
    decreases list.len(),
{
    if list.len() == 0 {
        Seq::empty()
    } else {
        match list.last() {
            Some(url) => present(list.drop_last()).push(url@),
            None => present(list.drop_last()),
        }
    }
}

/// The addresses that a message gives for a server.
pub open spec fn addresses(urls: Urls) -> Seq<Seq<char>> {
    match urls {
        Urls::One(url) => seq![url@],
        Urls::Many(list) => present(list@),
        Urls::Other => Seq::empty(),
    }
}

/// The characters of each of `texts`.
pub open spec fn texts(list: Seq<String>) -> Seq<Seq<char>> {
    list.map_values(|s: String| s@)
}

/// The characters of `text`, or none.
pub open spec fn text_or_empty(text: Option<String>) -> Seq<char> {
    match text {
        Some(t) => t@,
        None => Seq::empty(),
    }
}

/// `rtc` is `server` as a peer connection takes it. The credential is a
/// password: that is what TURN servers use, and a peer connection refuses a
/// TURN server whose credential is not marked as one.
pub open spec fn is_rtc_server(server: IceServer, rtc: RtcIceServer) -> bool {
    &&& texts(rtc.urls@) == addresses(server.urls)
    &&& rtc.username@ == text_or_empty(server.username)
    &&& rtc.credential@ == text_or_empty(server.credential)
    &&& rtc.credential_type is Password
}

/// The addresses of a list, without the entries that have none.
fn present_urls(list: &Vec<Option<String>>) -> (urls: Vec<String>)
    ensures
        texts(urls@) == present(list@),
{
    let mut urls: Vec<String> = Vec::new();
    let mut i: usize = 0;
    assert(texts(urls@) =~= present(list@.take(0)));
    while i < list.len()
        invariant
            i <= list@.len(),
            texts(urls@) == present(list@.take(i as int)),
        decreases list@.len() - i,
    {
        let ghost before = urls@;
        assert(list@.take(i + 1).drop_last() =~= list@.take(i as int));
        assert(list@.take(i + 1).last() == list@[i as int]);
        if let Some(url) = &list[i] {
            urls.push(url.clone());
            assert(texts(urls@) =~= texts(before).push(url@));
        }
        i += 1;
    }
    assert(list@.take(i as int) =~= list@);
    urls
}

fn to_rtc_server(server: &IceServer) -> (rtc: RtcIceServer)
    ensures
        is_rtc_server(*server, rtc),
{
    let urls: Vec<String> = match &server.urls {
        Urls::One(url) => {
            let mut one: Vec<String> = Vec::new();
            one.push(url.clone());
            assert(texts(one@) =~= seq![url@]);
            one
        },
        Urls::Many(list) => present_urls(list),
        Urls::Other => {
            let none: Vec<String> = Vec::new();
            assert(texts(none@) =~= Seq::<Seq<char>>::empty());
            none
        },
    };
    let username: String = match &server.username {
        Some(name) => name.clone(),
        None => String::new(),
    };
    let credential: String = match &server.credential {
        Some(secret) => secret.clone(),
        None => String::new(),
    };
    RtcIceServer { urls, username, credential, credential_type: IceCredentialType::Password }
}

/// The servers of a session as a peer connection takes them, in their order.
pub fn to_rtc_ice(servers: Vec<IceServer>) -> (rtc: Vec<RtcIceServer>)
    ensures
        rtc@.len() == servers@.len(),
        forall|i: int| 0 <= i < servers@.len() ==> is_rtc_server(servers@[i], #[trigger] rtc@[i]),
{
    let mut rtc: Vec<RtcIceServer> = Vec::new();
    let mut i: usize = 0;
    while i < servers.len()
        invariant
            i <= servers@.len(),
            rtc@.len() == i,
            forall|j: int| 0 <= j < i ==> is_rtc_server(servers@[j], #[trigger] rtc@[j]),
        decreases servers@.len() - i,
    {
        rtc.push(to_rtc_server(&servers[i]));
        i += 1;
    }
    rtc
}

/// What a data channel of the other side is for.
#[derive(Clone, Copy, Debug, PartialEq, Eq, Structural)]
pub enum ChannelKind {
    Input,
    Control,
    /// What comes on it is sent back.
    Echo,
    /// It is ignored.
    Unknown,
}

/// What a data channel is for, by its label.
pub fn channel_kind(label: &str) -> (kind: ChannelKind)
    ensures
        kind == if label@ == "input"@ {
            ChannelKind::Input
        } else if label@ == "control"@ {
            ChannelKind::Control
        } else if label@ == "echo"@ {
            ChannelKind::Echo
        } else {
            ChannelKind::Unknown
        },
{
    if same_text(label, "input") {
        ChannelKind::Input
    } else if same_text(label, "control") {
        ChannelKind::Control
    } else if same_text(label, "echo") {
        ChannelKind::Echo
    } else {
        ChannelKind::Unknown
    }
}

/// The answer to `text` on an echo channel.
pub fn echo_reply(text: &str) -> (reply: String)
    ensures
        reply@ == "echo:"@ + text@,
{
    joined("echo:", text)
}

/// How many of the senders of a peer connection have a track, given for each
/// whether it has one.
pub fn video_sender_count(attached: &Vec<bool>) -> (n: usize)
    ensures
        n == attached@.filter(|a: bool| a).len(),
{
    let mut n: usize = 0;
    let mut i: usize = 0;
    let ghost keep = |a: bool| a;
    assert(attached@.take(0) =~= Seq::<bool>::empty());
    reveal(Seq::filter);
    while i < attached.len()
        invariant
            i <= attached@.len(),
            n <= i,
            keep == (|a: bool| a),
            n == attached@.take(i as int).filter(keep).len(),
        decreases attached@.len() - i,
    {
        proof {
            assert(attached@.take(i + 1).drop_last() =~= attached@.take(i as int));
            assert(attached@.take(i + 1).last() == attached@[i as int]);
            reveal(Seq::filter);
        }
        if attached[i] {
            n += 1;
        }
        i += 1;
    }
    assert(attached@.take(i as int) =~= attached@);
    n
}

/// How far the answer to an offer has come.
#[derive(Clone, Copy, Debug, PartialEq, Eq, Structural)]
pub enum OfferPhase {
    SettingRemote,
    Flushing,
    Answering,
    SettingLocal,
    Gathering,
    Reading,
    Over,
}

/// What happens while an offer is answered.
#[derive(Debug, PartialEq, Eq)]
pub enum OfferEvent {
    /// The offer was set as the remote description, or could not be.
    RemoteSet { ok: bool },
    /// The candidates that had waited were added, as far as they could be.
    Flushed,
    /// An answer was made, or could not be.
    Answered { ok: bool },
    /// The answer was set as the local description, or could not be.
    LocalSet { ok: bool },
    /// All local candidates were gathered.
    Gathered,
    /// The local description, candidates and all, if there is one.
    LocalRead(Option<String>),
}

/// What is done next to answer an offer.
#[derive(Debug)]
pub enum OfferAction<T> {
    /// Set this as the remote description.
    SetRemote(RTCSessionDescription),
    /// Add these candidates, in this order. One that cannot be added is left
    /// out.
    AddCandidates(Vec<T>),
    MakeAnswer,
    SetLocal,
    WaitForCandidates,
    ReadLocal,
    /// Send this answer.
    Done(String),
    /// The offer is not answered.
    Fail,
}

/// `sdp` can be read as an offer.
pub uninterp spec fn reads_as_offer(sdp: Seq<char>) -> bool;

/// The text of a session description.
pub uninterp spec fn offer_text(d: RTCSessionDescription) -> Seq<char>;

/// `RTCSessionDescription::offer`: whether a text is read rests on the text
/// alone, and the description that comes of it holds that text.
#[verifier::external_body]
fn offer_of(sdp: String) -> (r: Result<RTCSessionDescription, webrtc::Error>)
    ensures
        r is Ok == reads_as_offer(sdp@),
        r matches Ok(d) ==> offer_text(d) == sdp@,
{
    RTCSessionDescription::offer(sdp)
}

/// The answer to one offer. It is sent only once all local candidates are in
/// it, which keeps signaling simple.
pub struct OfferExchange {
    pub phase: OfferPhase,
}

impl OfferExchange {
    /// Take in an offer as it came. It is set as the remote description first;
    /// where it cannot be read there is no exchange.
    pub fn accept_offer<T>(sdp: &str) -> (r: Result<(OfferExchange, OfferAction<T>), SessionError>)
        ensures
            r is Ok == reads_as_offer(sdp@),
            match r {
                Ok((exchange, action)) => {
                    &&& exchange.phase == OfferPhase::SettingRemote
                    &&& action matches OfferAction::SetRemote(d) && offer_text(d) == sdp@
                },
                Err(e) => e is Offer,
            },
    {
        OfferExchange::begin(offer_of(sdp.to_owned()))
    }

    /// Begin with an offer that was read, or could not be.
    pub fn begin<T>(offer: Result<RTCSessionDescription, webrtc::Error>) -> (r: Result<
        (OfferExchange, OfferAction<T>),
        SessionError,
    >)
        ensures
            match offer {
                Ok(d) => r == Ok::<(OfferExchange, OfferAction<T>), SessionError>(
                    (
                        OfferExchange { phase: OfferPhase::SettingRemote },
                        OfferAction::SetRemote(d),
                    ),
                ),
                Err(e) => r == Err::<(OfferExchange, OfferAction<T>), SessionError>(
                    SessionError::Offer(e),
                ),
            },
    {
        match offer {
            Ok(d) => Ok(
                (OfferExchange { phase: OfferPhase::SettingRemote }, OfferAction::SetRemote(d)),
            ),
            Err(e) => Err(SessionError::Offer(e)),
        }
    }

    /// `event` is one that the exchange waits for.
    pub open spec fn awaits(&self, event: OfferEvent) -> bool {
        match self.phase {
            OfferPhase::SettingRemote => event is RemoteSet,
            OfferPhase::Flushing => event is Flushed,
            OfferPhase::Answering => event is Answered,
            OfferPhase::SettingLocal => event is LocalSet,
            OfferPhase::Gathering => event is Gathered,
            OfferPhase::Reading => event is LocalRead,
            OfferPhase::Over => false,
        }
    }

    /// The phase after `event`.
    pub open spec fn phase_after(event: OfferEvent) -> OfferPhase {
        match event {
            OfferEvent::RemoteSet { ok: true } => OfferPhase::Flushing,
            OfferEvent::Flushed => OfferPhase::Answering,
            OfferEvent::Answered { ok: true } => OfferPhase::SettingLocal,
            OfferEvent::LocalSet { ok: true } => OfferPhase::Gathering,
            OfferEvent::Gathered => OfferPhase::Reading,
            _ => OfferPhase::Over,
        }
    }

    /// `action` follows `event` when `waiting` candidates have come early.
    pub open spec fn follows<T>(waiting: Seq<T>, event: OfferEvent, action: OfferAction<T>) -> bool {
        match event {
            OfferEvent::RemoteSet { ok: true } => action matches OfferAction::AddCandidates(list)
                && list@ == waiting,
            OfferEvent::Flushed => action is MakeAnswer,
            OfferEvent::Answered { ok: true } => action is SetLocal,
            OfferEvent::LocalSet { ok: true } => action is WaitForCandidates,
            OfferEvent::Gathered => action is ReadLocal,
            OfferEvent::LocalRead(Some(sdp)) => action == OfferAction::<T>::Done(sdp),
            _ => action is Fail,
        }
    }

    /// Take in `event` and decide what is done next. Candidates that have come
    /// early wait in `buffer`, and leave it as soon as the remote description
    /// is set.
    pub fn on_event<T>(&mut self, buffer: &mut IceBuffer<T>, event: OfferEvent) -> (action:
        OfferAction<T>)
        requires
            old(self).awaits(event),
        ensures
            final(self).phase == OfferExchange::phase_after(event),
            OfferExchange::follows(old(buffer)@.waiting, event, action),
            final(buffer)@ == if event == (OfferEvent::RemoteSet { ok: true }) {
                old(buffer)@.step(IceEvent::RemoteSet).0
            } else {
                old(buffer)@
            },
    {
        match event {
            OfferEvent::RemoteSet { ok: true } => {
                self.phase = OfferPhase::Flushing;
                OfferAction::AddCandidates(buffer.on_remote_set())
            },
            OfferEvent::Flushed => {
                self.phase = OfferPhase::Answering;
                OfferAction::MakeAnswer
            },
            OfferEvent::Answered { ok: true } => {
                self.phase = OfferPhase::SettingLocal;
                OfferAction::SetLocal
            },
            OfferEvent::LocalSet { ok: true } => {
                self.phase = OfferPhase::Gathering;
                OfferAction::WaitForCandidates
            },
            OfferEvent::Gathered => {
                self.phase = OfferPhase::Reading;
                OfferAction::ReadLocal
            },
            OfferEvent::LocalRead(Some(sdp)) => {
                self.phase = OfferPhase::Over;
                OfferAction::Done(sdp)
            },
            _ => {
                self.phase = OfferPhase::Over;
                OfferAction::Fail
            },
        }
    }
}

/// An offer is answered only with a local description that was read after all
/// candidates were gathered, candidates that came early are added before there
/// is an answer, and the remote description is set only once.
pub proof fn law_answers_are_complete<T>(
    exchange: OfferExchange,
    waiting: Seq<T>,
    event: OfferEvent,
    action: OfferAction<T>,
)
    requires
        exchange.awaits(event),
        OfferExchange::follows(waiting, event, action),
    ensures
        action is Done ==> exchange.phase is Reading,
        action is ReadLocal ==> exchange.phase is Gathering,
        action is MakeAnswer ==> exchange.phase is Flushing,
        action matches OfferAction::AddCandidates(list) ==> exchange.phase is SettingRemote
            && list@ == waiting,
        !(action is SetRemote),
        action is Done || action is Fail <==> OfferExchange::phase_after(event) is Over,
{
}

/// The frames per second of a session's video.
pub const VIDEO_FPS: u32 = 30;

/// The box that a session's video is fit into at first.
pub const VIDEO_MAX_WIDTH: u32 = 1280;

pub const VIDEO_MAX_HEIGHT: u32 = 720;

/// The bit rate of a session's video at first.
pub const VIDEO_BITRATE_BPS: u32 = 3_000_000;

/// The longest time between two keyframes, in seconds.
pub const KEYFRAME_INTERVAL_SECS: u64 = 2;

/// What happens while a session is set up.
#[derive(Clone, Copy, Debug, PartialEq, Eq)]
pub enum SetupEvent {
    /// The peer connection was made, or could not be.
    PeerMade { made: bool },
    /// The size of the display, where it could be found out.
    DisplaySize(Option<(u32, u32)>),
    /// The encoder was made, or could not be.
    EncoderMade { made: bool },
    /// The video track was added to the peer connection, or could not be.
    TrackAdded { added: bool },
    /// The video pipeline was started.
    VideoStarted,
}

/// What is done next to set a session up.
#[derive(Clone, Copy, Debug, PartialEq, Eq, Structural)]
pub enum SetupAction {
    AskDisplaySize,
    /// Make a hardware encoder for frames of this size.
    MakeHardwareEncoder { width: u32, height: u32 },
    /// Make a software encoder for frames of this size.
    MakeSoftwareEncoder { width: u32, height: u32 },
    AddVideoTrack,
    /// Start to capture and encode at this size.
    StartVideo { width: u32, height: u32 },
    /// The session is up, with video or for input only.
    Finish { video: bool },
    /// There is no session.
    Fail,
}

/// How far the setup of a session has come.
#[derive(Clone, Copy, Debug, PartialEq, Eq, Structural)]
pub enum SetupPhase {
    Peer,
    Display,
    Hardware { width: u32, height: u32 },
    Software { width: u32, height: u32 },
    Track { width: u32, height: u32 },
    Video,
    Over,
}

/// The setup of a session. The encoder is made before the video track is added:
/// where there is no encoder there is no track either, and the other side
/// negotiates a session for input only, in place of a video that never comes.
#[derive(Clone, Copy, Debug, PartialEq, Eq, Structural)]
pub struct SessionSetup {
    /// Try a hardware encoder first.
    pub hardware: bool,
    pub phase: SetupPhase,
}

impl SessionSetup {
    /// The setup once a peer connection is being made.
    pub fn new(hardware: bool) -> (s: SessionSetup)
        ensures
            s == (SessionSetup { hardware, phase: SetupPhase::Peer }),
    {
        SessionSetup { hardware, phase: SetupPhase::Peer }
    }

    /// `event` is one that the setup waits for.
    pub open spec fn awaits(self, event: SetupEvent) -> bool {
        match self.phase {
            SetupPhase::Peer => event is PeerMade,
            SetupPhase::Display => event is DisplaySize,
            SetupPhase::Hardware { .. } => event is EncoderMade,
            SetupPhase::Software { .. } => event is EncoderMade,
            SetupPhase::Track { .. } => event is TrackAdded,
            SetupPhase::Video => event is VideoStarted,
            SetupPhase::Over => false,
        }
    }

    /// The setup in another phase.
    pub open spec fn at(self, phase: SetupPhase) -> SessionSetup {
        SessionSetup { phase, ..self }
    }

    /// The setup after `event`, and what is done next.
    pub open spec fn step(self, event: SetupEvent) -> (SessionSetup, SetupAction) {
        match (self.phase, event) {
            (SetupPhase::Peer, SetupEvent::PeerMade { made }) => if made {
                (self.at(SetupPhase::Display), SetupAction::AskDisplaySize)
            } else {
                (self.at(SetupPhase::Over), SetupAction::Fail)
            },
            (SetupPhase::Display, SetupEvent::DisplaySize(display)) => {
                let size = crate::video::capture_target(
                    VIDEO_MAX_WIDTH as nat,
                    VIDEO_MAX_HEIGHT as nat,
                    display,
                );
                let width = size.0 as u32;
                let height = size.1 as u32;
                if self.hardware {
                    (
                        self.at(SetupPhase::Hardware { width, height }),
                        SetupAction::MakeHardwareEncoder { width, height },
                    )
                } else {
                    (
                        self.at(SetupPhase::Software { width, height }),
                        SetupAction::MakeSoftwareEncoder { width, height },
                    )
                }
            },
            (SetupPhase::Hardware { width, height }, SetupEvent::EncoderMade { made }) => if made {
                (self.at(SetupPhase::Track { width, height }), SetupAction::AddVideoTrack)
            } else {
                (
                    self.at(SetupPhase::Software { width, height }),
                    SetupAction::MakeSoftwareEncoder { width, height },
                )
            },
            (SetupPhase::Software { width, height }, SetupEvent::EncoderMade { made }) => if made {
                (self.at(SetupPhase::Track { width, height }), SetupAction::AddVideoTrack)
            } else {
                (self.at(SetupPhase::Over), SetupAction::Finish { video: false })
            },
            (SetupPhase::Track { width, height }, SetupEvent::TrackAdded { added }) => if added {
                (self.at(SetupPhase::Video), SetupAction::StartVideo { width, height })
            } else {
                (self.at(SetupPhase::Over), SetupAction::Fail)
            },
            (SetupPhase::Video, SetupEvent::VideoStarted) => (
                self.at(SetupPhase::Over),
                SetupAction::Finish { video: true },
            ),
            // nothing else is awaited
            _ => (self, SetupAction::Fail),
        }
    }

    /// Take in `event` and decide what is done next.
    pub fn on_event(&mut self, event: SetupEvent) -> (action: SetupAction)
        requires
            old(self).awaits(event),
        ensures
            (*final(self), action) == old(self).step(event),
    {
        match (self.phase, event) {
            (SetupPhase::Peer, SetupEvent::PeerMade { made }) => {
                if made {
                    self.phase = SetupPhase::Display;
                    SetupAction::AskDisplaySize
                } else {
                    self.phase = SetupPhase::Over;
                    SetupAction::Fail
                }
            },
            (SetupPhase::Display, SetupEvent::DisplaySize(display)) => {
                let (width, height) = target_capture_size(
                    VIDEO_MAX_WIDTH,
                    VIDEO_MAX_HEIGHT,
                    display,
                );
                if self.hardware {
                    self.phase = SetupPhase::Hardware { width, height };
                    SetupAction::MakeHardwareEncoder { width, height }
                } else {
                    self.phase = SetupPhase::Software { width, height };
                    SetupAction::MakeSoftwareEncoder { width, height }
                }
            },
            (SetupPhase::Hardware { width, height }, SetupEvent::EncoderMade { made }) => {
                if made {
                    self.phase = SetupPhase::Track { width, height };
                    SetupAction::AddVideoTrack
                } else {
                    self.phase = SetupPhase::Software { width, height };
                    SetupAction::MakeSoftwareEncoder { width, height }
                }
            },
            (SetupPhase::Software { width, height }, SetupEvent::EncoderMade { made }) => {
                if made {
                    self.phase = SetupPhase::Track { width, height };
                    SetupAction::AddVideoTrack
                } else {
                    self.phase = SetupPhase::Over;
                    SetupAction::Finish { video: false }
                }
            },
            (SetupPhase::Track { width, height }, SetupEvent::TrackAdded { added }) => {
                if added {
                    self.phase = SetupPhase::Video;
                    SetupAction::StartVideo { width, height }
                } else {
                    self.phase = SetupPhase::Over;
                    SetupAction::Fail
                }
            },
            (SetupPhase::Video, SetupEvent::VideoStarted) => {
                self.phase = SetupPhase::Over;
                SetupAction::Finish { video: true }
            },
            // nothing else is awaited
            _ => SetupAction::Fail,
        }
    }
}

/// A video track is added only once an encoder was made, and a session for
/// which none could be made is still set up, for input only.
pub proof fn law_no_track_without_an_encoder(setup: SessionSetup, event: SetupEvent)
    requires
        setup.awaits(event),
    ensures
        setup.step(event).1 is AddVideoTrack <==> event == (SetupEvent::EncoderMade { made: true }),
        setup.step(event).1 == (SetupAction::Finish { video: false }) <==> setup.phase is Software
            && event == (SetupEvent::EncoderMade { made: false }),
        event is EncoderMade ==> !(setup.step(event).1 is Fail),
{
}

/// A hardware encoder that could not be made is replaced by a software encoder
/// for the same size.
pub proof fn law_software_encoder_is_the_fallback(setup: SessionSetup, width: u32, height: u32)
    requires
        setup.phase == (SetupPhase::Hardware { width, height }),
    ensures
        setup.step(SetupEvent::EncoderMade { made: false }).1 == (
        SetupAction::MakeSoftwareEncoder { width, height }),
{
}

/// The addresses of a list are kept in their order, and only entries without one
/// are left out.
pub proof fn law_addresses_are_kept(list: Seq<Option<String>>, url: String)
    ensures
        present(Seq::<Option<String>>::empty()).len() == 0,
        present(list.push(Some(url))) == present(list).push(url@),
        present(list.push(None)) == present(list),
{
    assert(list.push(Some(url)).drop_last() =~= list);
    assert(list.push(None).drop_last() =~= list);
}

/// A server is handed to the peer connection with all addresses that it has, its
/// name and its secret, none where it has none, and as one that takes a password.
pub proof fn law_servers_are_handed_over(server: IceServer, rtc: RtcIceServer)
    requires
        is_rtc_server(server, rtc),
    ensures
        server.urls matches Urls::One(url) ==> rtc.urls@.len() == 1 && rtc.urls@[0]@ == url@,
        server.urls matches Urls::Many(list) ==> rtc.urls@.len() == present(list@).len()
            && forall|i: int|
            0 <= i < rtc.urls@.len() ==> (#[trigger] rtc.urls@[i])@ == present(list@)[i],
        server.urls is Other ==> rtc.urls@.len() == 0,
        server.username matches Some(name) ==> rtc.username@ == name@,
        server.username is None ==> rtc.username@.len() == 0,
        server.credential matches Some(secret) ==> rtc.credential@ == secret@,
        server.credential is None ==> rtc.credential@.len() == 0,
        rtc.credential_type == IceCredentialType::Password,
{
    assert(texts(rtc.urls@).len() == rtc.urls@.len());
    assert forall|i: int| 0 <= i < rtc.urls@.len() implies (#[trigger] rtc.urls@[i])@ == texts(
        rtc.urls@,
    )[i] by {}
}

/// An offer that can be set leads to an answer, step by step: the candidates
/// that came early are added, all of them, an answer is made and set, the own
/// candidates are waited for, and the description that is read then is the
/// answer. A step that fails ends it.
pub proof fn law_an_offer_leads_to_an_answer<T>(
    waiting: Seq<T>,
    sdp: String,
    event: OfferEvent,
    action: OfferAction<T>,
)
    requires
        OfferExchange::follows(waiting, event, action),
    ensures
        event == (OfferEvent::RemoteSet { ok: true }) ==> OfferExchange::phase_after(event)
            is Flushing && (action matches OfferAction::AddCandidates(list) && list@ == waiting),
        event == OfferEvent::Flushed ==> OfferExchange::phase_after(event) is Answering && action
            is MakeAnswer,
        event == (OfferEvent::Answered { ok: true }) ==> OfferExchange::phase_after(event)
            is SettingLocal && action is SetLocal,
        event == (OfferEvent::LocalSet { ok: true }) ==> OfferExchange::phase_after(event)
            is Gathering && action is WaitForCandidates,
        event == OfferEvent::Gathered ==> OfferExchange::phase_after(event) is Reading && action
            is ReadLocal,
        event == OfferEvent::LocalRead(Some(sdp)) ==> OfferExchange::phase_after(event) is Over
            && action == OfferAction::<T>::Done(sdp),
        event == (OfferEvent::RemoteSet { ok: false }) || event == (OfferEvent::Answered {
            ok: false,
        }) || event == (OfferEvent::LocalSet { ok: false }) || event == OfferEvent::LocalRead(None)
            ==> OfferExchange::phase_after(event) is Over && action is Fail,
{
}

/// A session whose peer connection and encoder can be made is set up with video:
/// the display is asked for its size, the encoder is made for a size in a box of
/// 1280 x 720, in hardware where that is preferred, and the video starts at that
/// size once its track is there.
pub proof fn law_sessions_have_video(setup: SessionSetup, display: Option<(u32, u32)>)
    requires
        setup.phase is Peer,
    ensures
        ({
            let made = setup.step(SetupEvent::PeerMade { made: true });
            let asked = made.0.step(SetupEvent::DisplaySize(display));
            let encoder = asked.0.step(SetupEvent::EncoderMade { made: true });
            let track = encoder.0.step(SetupEvent::TrackAdded { added: true });
            let video = track.0.step(SetupEvent::VideoStarted);
            let size = crate::video::capture_target(1280, 720, display);
            let width = size.0 as u32;
            let height = size.1 as u32;
            &&& made.1 is AskDisplaySize
            &&& setup.hardware ==> asked.1 == (SetupAction::MakeHardwareEncoder { width, height })
            &&& !setup.hardware ==> asked.1 == (SetupAction::MakeSoftwareEncoder { width, height })
            &&& encoder.1 is AddVideoTrack
            &&& track.1 == (SetupAction::StartVideo { width, height })
            &&& video.1 == (SetupAction::Finish { video: true })
        }),
{
}

/// A session is not set up where its peer connection or its track cannot be
/// made. Where a hardware encoder cannot be made, the session goes on with a
/// software encoder as it would have gone on with the other.
pub proof fn law_failed_setups(setup: SessionSetup, width: u32, height: u32)
    ensures
        setup.phase is Peer ==> setup.step(SetupEvent::PeerMade { made: false }).1 is Fail,
        setup.phase is Track ==> setup.step(SetupEvent::TrackAdded { added: false }).1 is Fail,
        setup.phase == (SetupPhase::Hardware { width, height }) ==> ({
            let next = setup.step(SetupEvent::EncoderMade { made: false });
            let encoder = next.0.step(SetupEvent::EncoderMade { made: true });
            let track = encoder.0.step(SetupEvent::TrackAdded { added: true });
            let none = next.0.step(SetupEvent::EncoderMade { made: false });
            &&& next.1 == (SetupAction::MakeSoftwareEncoder { width, height })
            &&& encoder.1 is AddVideoTrack
            &&& track.1 == (SetupAction::StartVideo { width, height })
            &&& none.1 == (SetupAction::Finish { video: false })
        }),
{
}

/// A candidate can be handed over where it has a priority or a component of at
/// most 256.
pub proof fn law_ranked_candidates(c: RTCIceCandidate)
    ensures
        is_ranked(c) <==> !(rank_of(c).0 == 0 && rank_of(c).1 > 256),
{
}

/// A session starts with 30 frames and 3 Mbit per second, and has a keyframe
/// every two seconds.
pub proof fn law_video_settings()
    ensures
        VIDEO_FPS == 30,
        VIDEO_BITRATE_BPS == 3_000_000,
        KEYFRAME_INTERVAL_SECS == 2,
{
}

} // verus!
