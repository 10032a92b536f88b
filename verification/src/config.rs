//! What the agent remembers between runs.

use vstd::prelude::*;

verus! {

/// The pairing of this device with an account: the server it talks to, its id
/// and the token that proves it.
#[derive(Debug, Clone, PartialEq, Eq)]
pub struct AgentConfig {
    pub server_url: String,
    pub device_id: String,
    pub device_token: String,
}

/// Where the pairing is kept.
#[derive(Debug, PartialEq, Eq)]
pub enum ConfigBase<D> {
    /// In this file.
    File(String),
    /// Below this directory.
    Dir(D),
    /// Below the current directory.
    CurrentDir,
}

/// Where the pairing is kept: in the file that is asked for, else below the
/// directory for configurations, else below the current one.
pub fn config_base<D>(explicit: Option<String>, dir: Option<D>) -> (base: ConfigBase<D>)
    ensures
        base == match (explicit, dir) {
            (Some(file), _) => ConfigBase::File(file),
            (None, Some(d)) => ConfigBase::Dir(d),
            (None, None) => ConfigBase::CurrentDir,
        },
{
    match explicit {
        Some(file) => ConfigBase::File(file),
        None => match dir {
            Some(d) => ConfigBase::Dir(d),
            None => ConfigBase::CurrentDir,
        },
    }
}

/// The folder and the file of the pairing below a directory.
pub fn config_names() -> (names: (&'static str, &'static str))
    ensures
        names.0@ == "rd-agent"@,
        names.1@ == "config.json"@,
{
    ("rd-agent", "config.json")
}

/// The server that a device is paired with when none is configured.
pub fn default_server_url() -> (url: &'static str)
    ensures
        url@ == "http://127.0.0.1:8080"@,
{
    "http://127.0.0.1:8080"
}

/// The server to pair with: the configured one, or the default.
pub fn server_url_or_default(configured: Option<String>) -> (url: String)
    ensures
        match configured {
            Some(c) => url == c,
            None => url@ == "http://127.0.0.1:8080"@,
        },
{
    match configured {
        Some(c) => c,
        None => default_server_url().to_owned(),
    }
}

/// The name to pair a device under: the computer name that Windows sets, else
/// the host name that a Unix shell sets, else `fallback`.
pub fn hostname_or(computer_name: Option<String>, host_name: Option<String>, fallback: &str) -> (name:
    String)
    ensures
        match (computer_name, host_name) {
            (Some(c), _) => name == c,
            (None, Some(h)) => name == h,
            (None, None) => name@ == fallback@,
        },
{
    match computer_name {
        Some(c) => c,
        None => match host_name {
            Some(h) => h,
            None => fallback.to_owned(),
        },
    }
}

} // verus!
