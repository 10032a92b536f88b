//! The messages that the agent and the signaling server exchange.

use vstd::prelude::*;

verus! {

/// A JSON value that the agent passes on without looking into it.
#[verifier::external_type_specification]
#[verifier::external_body]
pub struct ExJsonValue(serde_json::Value);

/// A session description: `kind` is `offer` or `answer`.
#[derive(Debug, Clone, PartialEq, Eq)]
pub struct SdpDesc {
    pub kind: String,
    pub sdp: String,
}

/// The addresses of an ICE server as a message gives them.
#[derive(Debug, Clone, PartialEq, Eq)]
pub enum Urls {
    /// A single address.
    One(String),
    /// A list. An entry that is no text has no address.
    Many(Vec<Option<String>>),
    /// Anything else.
    Other,
}

/// A STUN or TURN server.
#[derive(Debug, Clone, PartialEq, Eq)]
pub struct IceServer {
    pub urls: Urls,
    pub username: Option<String>,
    pub credential: Option<String>,
}

/// A message of the signaling connection.
#[derive(Debug, PartialEq, Eq)]
pub enum SignalingMessage {
    AgentOnline { token: String },
    Connect { device_id: String },
    Incoming { session_id: String, relay_policy: String, ice_servers: Vec<IceServer> },
    SessionReady { session_id: String, relay_policy: String, ice_servers: Vec<IceServer> },
    Sdp { session_id: String, sdp: SdpDesc },
    Ice { session_id: String, candidate: serde_json::Value },
    PeerLeft { session_id: String },
    Error { code: String, message: String },
}

} // verus!
