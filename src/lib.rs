//! Receive-path frame classifier: a bounds-checked decode of the Ethernet,
//! IPv4 and TCP headers of one frame, a SYN test, and the forwarding verdict.
use vstd::prelude::*;

pub mod classify;
pub mod verdict;
pub mod wire;

verus! {

} // verus!
