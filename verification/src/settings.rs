//! The signaller's property bag toward the media engine: a human-oriented
//! signalling server address, present for interface completeness and unused
//! once the environment-provided ingestion endpoint is set.

use vstd::prelude::*;

use crate::session::opt_str_view;

verus! {

/// The one configurable property of the signaller.
pub struct Settings {
    address: Option<String>,
}

impl Settings {
    /// The configured address, if any, as a mathematical value.
    pub closed spec fn address_view(&self) -> Option<Seq<char>> {
        opt_str_view(self.address)
    }

    /// Replace the address. The address can't be absent: such a request is
    /// refused, for the caller to report, and the old value stays.
    pub fn set_address(&mut self, address: Option<String>) -> (accepted: bool)
        ensures
            address is Some ==> accepted && final(self).address_view() == opt_str_view(address),
            address is None ==> !accepted && final(self).address_view() == old(
                self,
            ).address_view(),
    {
        match address {
            Some(a) => {
                self.address = Some(a);
                true
            },
            None => false,
        }
    }

    /// The configured address.
    pub fn address(&self) -> (r: &Option<String>)
        ensures
            opt_str_view(*r) == self.address_view(),
    {
        &self.address
    }
}

impl Default for Settings {
    /// The default signalling server address.
    fn default() -> (r: Settings)
        ensures
            r.address_view() == Some("http://127.0.0.1:8080/whip"@),
    {
        Settings { address: Some("http://127.0.0.1:8080/whip".to_owned()) }
    }
}

} // verus!
