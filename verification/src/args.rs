//! What a caller asks of a session of discovery.

use vstd::prelude::*;

verus! {

/// How to look for the devices nearby.
#[derive(Debug, Clone, Copy, PartialEq, Eq, Structural)]
pub struct DiscoverArgs {
    silent: bool,
    timeout: u64,
    announce_interval: u64,
}

/// The content of a [`DiscoverArgs`].
pub ghost struct DiscoverArgsView {
    /// Only listen: do not announce this device.
    pub silent: bool,
    /// How long to look, in seconds.
    pub timeout: u64,
    /// How long to wait between two announcements, in seconds.
    pub announce_interval: u64,
}

impl View for DiscoverArgs {
    type V = DiscoverArgsView;

    closed spec fn view(&self) -> DiscoverArgsView {
        DiscoverArgsView {
            silent: self.silent,
            timeout: self.timeout,
            announce_interval: self.announce_interval,
        }
    }
}

impl Default for DiscoverArgs {
    /// Announce, look for five seconds, and announce every two seconds.
    fn default() -> (out: Self)
        ensures
            out@ == (DiscoverArgsView { silent: false, timeout: 5, announce_interval: 2 }),
    {
        DiscoverArgs { silent: false, timeout: 5, announce_interval: 2 }
    }
}

impl DiscoverArgs {
    pub fn new(silent: bool, timeout: u64, announce_interval: u64) -> (out: Self)
        ensures
            out@ == (DiscoverArgsView { silent, timeout, announce_interval }),
    {
        DiscoverArgs { silent, timeout, announce_interval }
    }

    /// Whether the device only listens.
    pub fn silent(&self) -> (out: bool)
        ensures
            out == self@.silent,
    {
        self.silent
    }

    /// How long to look, in seconds.
    pub fn timeout(&self) -> (out: u64)
        ensures
            out == self@.timeout,
    {
        self.timeout
    }

    /// How long to wait between two announcements, in seconds.
    pub fn announce_interval(&self) -> (out: u64)
        ensures
            out == self@.announce_interval,
    {
        self.announce_interval
    }
}

} // verus!
