//! The unit of output that a demuxer produces.
use vstd::prelude::*;

verus! {

/// One unit of demuxed output; its contents are the format's business.
pub struct Packet {
    /// The packet's payload.
    pub data: Vec<u8>,
}

} // verus!
