//! What the protocol fixes.

use vstd::prelude::*;

verus! {

/// The address of the multicast group: 224.0.0.167.
pub const MULTICAST_IP: [u8; 4] = [224, 0, 0, 167];

/// The port of the multicast group, and the port on which a device serves
/// its files unless it says otherwise.
pub const LOCALSEND_PORT: u16 = 53317;

} // verus!
