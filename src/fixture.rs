//! A configurable format for exercising the registry and the lifecycle:
//! its probe follows a fixed rule and its demuxer yields a set number of
//! empty packets.
use vstd::prelude::*;

use crate::demux::{Demuxer, DemuxerBuilder, DemuxerDescription};
use crate::error::DemuxError;
use crate::packet::Packet;
use crate::score::{PROBE_DATA, SCORE_MAX};
use crate::session::Session;

verus! {

/// How a fixture format scores a sample.
#[derive(Clone, Copy, Debug, PartialEq, Eq, Structural)]
pub enum ProbeRule {
    /// The same score for every sample.
    Fixed(u8),
    /// `hit` when the sample's first byte is `byte`, `miss` otherwise.
    FirstByte { byte: u8, hit: u8, miss: u8 },
}

/// The score a rule gives a sample, before the cap at `SCORE_MAX`.
pub open spec fn rule_score(rule: ProbeRule, data: Seq<u8>) -> u8 {
    match rule {
        ProbeRule::Fixed(s) => s,
        ProbeRule::FirstByte { byte, hit, miss } => if data.len() > 0 && data[0] == byte {
            hit
        } else {
            miss
        },
    }
}

/// A score capped at `SCORE_MAX`.
pub open spec fn capped(score: u8) -> u8 {
    if score > SCORE_MAX {
        SCORE_MAX
    } else {
        score
    }
}

/// Builds fixture demuxers; rule scores above `SCORE_MAX` count as
/// `SCORE_MAX`.
pub struct FixtureBuilder {
    /// The format's descriptor.
    pub description: &'static DemuxerDescription,
    /// How samples are scored.
    pub rule: ProbeRule,
    /// How many packets each demuxer yields before the end of the stream.
    pub packets: usize,
    /// The failure that reading the headers reports, if any.
    pub header_error: Option<DemuxError>,
}

/// A demuxer that yields empty packets until its count runs out.
pub struct FixtureDemuxer {
    /// Packets still to come.
    pub remaining: usize,
    /// The failure that reading the headers reports, if any.
    pub header_error: Option<DemuxError>,
}

impl FixtureDemuxer {
    /// A demuxer with `remaining` packets to come, whose headers fail with
    /// `header_error` if that is set.
    pub fn new(remaining: usize, header_error: Option<DemuxError>) -> (r: FixtureDemuxer)
        ensures
            r.remaining == remaining,
            r.header_error == header_error,
    {
        FixtureDemuxer { remaining, header_error }
    }
}

impl Demuxer for FixtureDemuxer {
    fn open(&mut self)
        ensures
            *final(self) == *old(self),
    {
    }

    fn read_headers(&mut self) -> (r: Result<(), DemuxError>)
        ensures
            *final(self) == *old(self),
            r == match old(self).header_error {
                Some(e) => Err::<(), DemuxError>(e),
                None => Ok(()),
            },
    {
        match self.header_error {
            Some(e) => Err(e),
            None => Ok(()),
        }
    }

    fn read_packet(&mut self) -> (r: Result<Packet, DemuxError>)
        ensures
            final(self).header_error == old(self).header_error,
            old(self).remaining == 0 ==> (r matches Err(DemuxError::EndOfStream))
                && final(self).remaining == 0,
            old(self).remaining > 0 ==> r is Ok && final(self).remaining == old(self).remaining
                - 1,
    {
        if self.remaining == 0 {
            Err(DemuxError::EndOfStream)
        } else {
            self.remaining = self.remaining - 1;
            Ok(Packet { data: Vec::new() })
        }
    }
}

impl DemuxerBuilder for FixtureBuilder {
    open spec fn spec_probe(&self, data: Seq<u8>) -> u8 {
        capped(rule_score(self.rule, data))
    }

    fn describe(&self) -> (r: &'static DemuxerDescription)
        ensures
            r == self.description,
    {
        self.description
    }

    fn probe(&self, data: &[u8; PROBE_DATA]) -> (r: u8) {
        let score = match self.rule {
            ProbeRule::Fixed(s) => s,
            ProbeRule::FirstByte { byte, hit, miss } => if data[0] == byte {
                hit
            } else {
                miss
            },
        };
        if score > SCORE_MAX {
            SCORE_MAX
        } else {
            score
        }
    }

    fn allocate(&self) -> (r: Session) {
        let demuxer = FixtureDemuxer::new(self.packets, self.header_error);
        Session::new(Box::new(demuxer))
    }
}

} // verus!
