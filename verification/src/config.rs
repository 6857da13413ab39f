//! Caller-owned configuration of one session: application identity, the
//! rendezvous endpoint, the transit/relay endpoint, and how many word
//! components a generated pairing code carries.  The orchestrator reads
//! it and never changes it.

use vstd::prelude::*;
use vstd::string::StringExecFns;

verus! {

/// Configuration for session attempts, owned by the caller and
/// read-only to the orchestrator.
#[derive(Clone, Debug)]
pub struct ClientConfig {
    /// Application identity announced to the rendezvous service.
    pub appid: String,
    /// Address of the rendezvous endpoint.
    pub rendezvous_url: String,
    /// Address of the transit/relay endpoint.
    pub transit_server_url: String,
    /// Number of word components in a generated pairing code.
    pub passphrase_component_len: usize,
}

impl ClientConfig {
    /// Build a configuration from the caller's endpoint addresses and
    /// identity, kept exactly as given.
    pub fn client_init(
        appid: &str,
        rendezvous_url: &str,
        transit_server_url: &str,
        passphrase_component_len: usize,
    ) -> (c: ClientConfig)
        ensures
            c.appid@ == appid@,
            c.rendezvous_url@ == rendezvous_url@,
            c.transit_server_url@ == transit_server_url@,
            c.passphrase_component_len == passphrase_component_len,
    {
        ClientConfig {
            appid: String::from_str(appid),
            rendezvous_url: String::from_str(rendezvous_url),
            transit_server_url: String::from_str(transit_server_url),
            passphrase_component_len,
        }
    }
}

} // verus!
