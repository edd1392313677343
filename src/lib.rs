//! Core of a demuxing framework: the demuxer lifecycle, format builders,
//! and content sniffing that picks a builder for an unlabeled byte stream.
use vstd::prelude::*;

pub mod demux;
pub mod error;
pub mod fixture;
pub mod packet;
pub mod score;
pub mod session;

verus! {

} // verus!
