//! First-time pairing with the bridge: the decision taken after each attempt
//! to register this program as a user of the bridge.
use vstd::prelude::*;
use crate::config::{Config, HueConfig};

verus! {

/// Seconds to wait before asking again while the bridge's link button has
/// not been pressed.
pub const LINK_RETRY_SECONDS: u64 = 5;

/// How an attempt to register a user on the bridge ended.
pub enum Registration {
    /// The bridge issued this user name.
    Registered(String),
    /// The bridge waits for its link button to be pressed.
    LinkButtonNotPressed,
    /// Any other failure.
    Failed,
}

/// What to do after a registration attempt.
pub enum PairingStep {
    /// Pairing is done; this is how to reach the bridge from now on.
    Paired(HueConfig),
    /// Ask the user to press the link button, wait this many seconds, try again.
    RetryAfter(u64),
    /// Pairing failed; the program cannot start.
    GiveUp,
}

impl Config {
    /// The next step of pairing with the bridge at `ip`, after a registration
    /// attempt ended with `outcome`.
    pub fn get_hue_config(ip: &str, outcome: Registration) -> (r: PairingStep)
        ensures
            outcome matches Registration::Registered(user) ==> (r matches PairingStep::Paired(c)
                && c.bridge_ip@ == ip@ && c.bridge_password@ == user@),
            outcome is LinkButtonNotPressed ==> r == PairingStep::RetryAfter(LINK_RETRY_SECONDS),
            outcome is Failed ==> r is GiveUp,
    {
        match outcome {
            Registration::Registered(user) => PairingStep::Paired(
                HueConfig { bridge_ip: ip.to_owned(), bridge_password: user },
            ),
            Registration::LinkButtonNotPressed => PairingStep::RetryAfter(LINK_RETRY_SECONDS),
            Registration::Failed => PairingStep::GiveUp,
        }
    }
}

/// The bridge to pair with among the discovered addresses: the last one.
pub fn choose_bridge(ips: &Vec<String>) -> (r: Option<String>)
    ensures
        ips@.len() == 0 ==> r is None,
        ips@.len() > 0 ==> (r matches Some(ip) && ip@ == ips@[ips@.len() - 1]@),
{
    if ips.len() == 0 {
        None
    } else {
        Some(ips[ips.len() - 1].clone())
    }
}

} // verus!
