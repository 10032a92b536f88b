//! Pairing: log in to an account, then register this device with it.

use crate::config::AgentConfig;
use crate::text::joined;
use vstd::prelude::*;

verus! {

/// The address that takes a login.
pub fn login_url(server_url: &str) -> (url: String)
    ensures
        url@ == server_url@ + "/login"@,
{
    joined(server_url, "/login")
}

/// The address that takes a new device.
pub fn pair_url(server_url: &str) -> (url: String)
    ensures
        url@ == server_url@ + "/devices/pair"@,
{
    joined(server_url, "/devices/pair")
}

/// A request to the server.
#[derive(Debug, PartialEq, Eq)]
pub enum ProvisionRequest {
    Login { url: String, email: String, password: String },
    /// Sent with the token of the login.
    Pair { url: String, bearer: String, name: String },
}

/// What came of a request.
#[derive(Debug, PartialEq, Eq)]
pub enum ProvisionReply {
    /// The request did not reach the server, or no reply came back.
    Unreachable,
    /// The server refused it.
    Refused { status: u16 },
    /// The server took it, but its reply could not be read.
    Unreadable,
    /// The token of a login.
    LoggedIn { token: String },
    /// The id and the token of a new device.
    Paired { device_id: String, token: String },
}

/// Why a device was not paired.
#[derive(Clone, Copy, Debug, PartialEq, Eq, Structural)]
pub enum ProvisionError {
    Unreachable,
    LoginFailed { status: u16 },
    PairFailed { status: u16 },
    Unreadable,
}

/// What follows a reply.
#[derive(Debug, PartialEq, Eq)]
pub enum ProvisionStep {
    Send(ProvisionRequest),
    Done(AgentConfig),
    Failed(ProvisionError),
}

/// A status from 200 to 299 tells that the server took a request.
pub fn is_success(status: u16) -> (b: bool)
    ensures
        b == (200 <= status < 300),
{
    200 <= status && status < 300
}

/// The pairing of one device.
pub struct Provisioning {
    server_url: String,
    device_name: String,
    logged_in: bool,
}

impl Provisioning {
    pub closed spec fn server_url(&self) -> Seq<char> {
        self.server_url@
    }

    pub closed spec fn device_name(&self) -> Seq<char> {
        self.device_name@
    }

    /// The login is done: the reply to come is that to the pairing.
    pub closed spec fn logged_in(&self) -> bool {
        self.logged_in
    }

    /// Begin with the login.
    pub fn begin(server_url: &str, email: &str, password: &str, device_name: &str) -> (r: (
        Provisioning,
        ProvisionRequest,
    ))
        ensures
            r.0.server_url() == server_url@,
            r.0.device_name() == device_name@,
            !r.0.logged_in(),
            r.1 matches ProvisionRequest::Login { url, email: e, password: p } && url@
                == server_url@ + "/login"@ && e@ == email@ && p@ == password@,
    {
        (
            Provisioning {
                server_url: server_url.to_owned(),
                device_name: device_name.to_owned(),
                logged_in: false,
            },
            ProvisionRequest::Login {
                url: login_url(server_url),
                email: email.to_owned(),
                password: password.to_owned(),
            },
        )
    }

    /// `step` follows `reply`.
    pub open spec fn follows(&self, reply: ProvisionReply, step: ProvisionStep) -> bool {
        match reply {
            ProvisionReply::Unreachable => step == ProvisionStep::Failed(
                ProvisionError::Unreachable,
            ),
            ProvisionReply::Refused { status } => step == ProvisionStep::Failed(
                if self.logged_in() {
                    ProvisionError::PairFailed { status }
                } else {
                    ProvisionError::LoginFailed { status }
                },
            ),
            ProvisionReply::LoggedIn { token } if !self.logged_in() => step matches
                ProvisionStep::Send(ProvisionRequest::Pair { url, bearer, name }) && url@
                == self.server_url() + "/devices/pair"@ && bearer == token && name@
                == self.device_name(),
            ProvisionReply::Paired { device_id, token } if self.logged_in() => step matches
                ProvisionStep::Done(config) && config.server_url@ == self.server_url()
                && config.device_id == device_id && config.device_token == token,
            _ => step == ProvisionStep::Failed(ProvisionError::Unreadable),
        }
    }

    /// Take in the reply to the last request and decide what follows it.
    pub fn on_reply(&mut self, reply: ProvisionReply) -> (step: ProvisionStep)
        ensures
            old(self).follows(reply, step),
            final(self).server_url() == old(self).server_url(),
            final(self).device_name() == old(self).device_name(),
            final(self).logged_in() == (old(self).logged_in() || reply is LoggedIn),
    {
        match reply {
            ProvisionReply::Unreachable => ProvisionStep::Failed(ProvisionError::Unreachable),
            ProvisionReply::Refused { status } => {
                if self.logged_in {
                    ProvisionStep::Failed(ProvisionError::PairFailed { status })
                } else {
                    ProvisionStep::Failed(ProvisionError::LoginFailed { status })
                }
            },
            ProvisionReply::Unreadable => ProvisionStep::Failed(ProvisionError::Unreadable),
            ProvisionReply::LoggedIn { token } => {
                if self.logged_in {
                    return ProvisionStep::Failed(ProvisionError::Unreadable);
                }
                self.logged_in = true;
                ProvisionStep::Send(
                    ProvisionRequest::Pair {
                        url: pair_url(self.server_url.as_str()),
                        bearer: token,
                        name: self.device_name.clone(),
                    },
                )
            },
            ProvisionReply::Paired { device_id, token } => {
                if !self.logged_in {
                    return ProvisionStep::Failed(ProvisionError::Unreadable);
                }
                ProvisionStep::Done(
                    AgentConfig {
                        server_url: self.server_url.clone(),
                        device_id,
                        device_token: token,
                    },
                )
            },
        }
    }
}

/// A device is paired only with a login that succeeded, and under the token
/// that the login gave.
pub proof fn law_pairing_needs_a_login(
    state: Provisioning,
    reply: ProvisionReply,
    step: ProvisionStep,
)
    requires
        state.follows(reply, step),
    ensures
        step matches ProvisionStep::Send(ProvisionRequest::Pair { bearer, .. }) ==> reply == (
        ProvisionReply::LoggedIn { token: bearer }),
        step is Done ==> state.logged_in() && reply is Paired,
        step is Failed <== reply is Refused,
{
}

/// A login that succeeds is followed by the pairing of this device, at the same
/// server and with the token of the login; a pairing that succeeds gives the
/// configuration of this server, with the id and the token that came.
pub proof fn law_a_login_is_followed_by_the_pairing(
    state: Provisioning,
    token: String,
    device_id: String,
    device_token: String,
    step: ProvisionStep,
    done: ProvisionStep,
)
    requires
        !state.logged_in() ==> state.follows(ProvisionReply::LoggedIn { token }, step),
        state.logged_in() ==> state.follows(
            ProvisionReply::Paired { device_id, token: device_token },
            done,
        ),
    ensures
        !state.logged_in() ==> (step matches ProvisionStep::Send(
            ProvisionRequest::Pair { url, bearer, name },
        ) && url@ == state.server_url() + "/devices/pair"@ && bearer == token && name@
            == state.device_name()),
        state.logged_in() ==> (done matches ProvisionStep::Done(config) && config.server_url@
            == state.server_url() && config.device_id == device_id && config.device_token
            == device_token),
{
}

/// What goes wrong ends the pairing: a refusal is reported with its status and
/// with what was refused, and what is no reply to the request as unreadable.
pub proof fn law_failed_pairings_are_reported(
    state: Provisioning,
    reply: ProvisionReply,
    step: ProvisionStep,
)
    requires
        state.follows(reply, step),
    ensures
        reply is Unreachable ==> step == ProvisionStep::Failed(ProvisionError::Unreachable),
        reply is Unreadable ==> step == ProvisionStep::Failed(ProvisionError::Unreadable),
        reply matches ProvisionReply::Refused { status } ==> {
            &&& state.logged_in() ==> step == ProvisionStep::Failed(
                ProvisionError::PairFailed { status },
            )
            &&& !state.logged_in() ==> step == ProvisionStep::Failed(
                ProvisionError::LoginFailed { status },
            )
        },
        reply is LoggedIn && state.logged_in() || reply is Paired && !state.logged_in() ==> step
            == ProvisionStep::Failed(ProvisionError::Unreadable),
{
}

} // verus!
