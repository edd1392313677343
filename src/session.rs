//! A demuxer driven through its lifecycle, with misuse rejected.
use vstd::prelude::*;

use crate::demux::Demuxer;
use crate::error::DemuxError;
use crate::packet::Packet;

verus! {

/// Where a session stands in its lifecycle.
#[derive(Clone, Copy, Debug, PartialEq, Eq, Structural)]
pub enum Stage {
    /// Allocated; `open` has not been called.
    Unopened,
    /// Bound to its input; the headers are still to be read.
    Opened,
    /// Headers read; no packet read yet.
    HeadersRead,
    /// At least one packet read.
    Streaming,
    /// Ended by the end of the stream or by a failure; terminal.
    Exhausted,
}

/// A demuxer owned by one caller, together with its lifecycle stage.
pub struct Session {
    demuxer: Box<dyn Demuxer>,
    stage: Stage,
}

impl Session {
    /// The session's current stage.
    pub closed spec fn spec_stage(&self) -> Stage {
        self.stage
    }

    /// A session over a freshly built demuxer, not yet opened.
    pub fn new(demuxer: Box<dyn Demuxer>) -> (r: Session)
        ensures
            r.spec_stage() == Stage::Unopened,
    {
        Session { demuxer, stage: Stage::Unopened }
    }

    /// The session's current stage.
    pub fn stage(&self) -> (r: Stage)
        ensures
            r == self.spec_stage(),
    {
        self.stage
    }

    /// Binds the demuxer to its input. Legal only on an unopened session.
    pub fn open(&mut self) -> (r: Result<(), DemuxError>)
        ensures
            old(self).spec_stage() == Stage::Unopened ==> r is Ok && final(self).spec_stage()
                == Stage::Opened,
            old(self).spec_stage() == Stage::Exhausted ==> r == Err::<(), _>(DemuxError::Terminated)
                && final(self).spec_stage() == Stage::Exhausted,
            old(self).spec_stage() != Stage::Unopened && old(self).spec_stage() != Stage::Exhausted
                ==> r == Err::<(), _>(DemuxError::AlreadyOpened) && final(self).spec_stage()
                == old(self).spec_stage(),
    {
        match self.stage {
            Stage::Unopened => {
                self.demuxer.open();
                self.stage = Stage::Opened;
                Ok(())
            },
            Stage::Exhausted => Err(DemuxError::Terminated),
            _ => Err(DemuxError::AlreadyOpened),
        }
    }

    /// Reads the container headers. Legal only once, right after `open`; a
    /// failure of the demuxer ends the session.
    pub fn read_headers(&mut self) -> (r: Result<(), DemuxError>)
        ensures
            old(self).spec_stage() == Stage::Opened ==> match r {
                Ok(_) => final(self).spec_stage() == Stage::HeadersRead,
                Err(_) => final(self).spec_stage() == Stage::Exhausted,
            },
            old(self).spec_stage() == Stage::Unopened ==> r == Err::<(), _>(DemuxError::NotOpened)
                && final(self).spec_stage() == Stage::Unopened,
            old(self).spec_stage() == Stage::Exhausted ==> r == Err::<(), _>(DemuxError::Terminated)
                && final(self).spec_stage() == Stage::Exhausted,
            old(self).spec_stage() == Stage::HeadersRead || old(self).spec_stage()
                == Stage::Streaming ==> r == Err::<(), _>(DemuxError::HeadersAlreadyRead)
                && final(self).spec_stage() == old(self).spec_stage(),
    {
        match self.stage {
            Stage::Opened => {
                let r = self.demuxer.read_headers();
                match r {
                    Ok(_) => self.stage = Stage::HeadersRead,
                    Err(_) => self.stage = Stage::Exhausted,
                }
                r
            },
            Stage::Unopened => Err(DemuxError::NotOpened),
            Stage::Exhausted => Err(DemuxError::Terminated),
            _ => Err(DemuxError::HeadersAlreadyRead),
        }
    }

    /// Reads the next packet. Legal only once the headers are read; a
    /// failure of the demuxer, the end of the stream included, ends the
    /// session.
    pub fn read_packet(&mut self) -> (r: Result<Packet, DemuxError>)
        ensures
            old(self).spec_stage() == Stage::HeadersRead || old(self).spec_stage()
                == Stage::Streaming ==> match r {
                Ok(_) => final(self).spec_stage() == Stage::Streaming,
                Err(_) => final(self).spec_stage() == Stage::Exhausted,
            },
            old(self).spec_stage() == Stage::Unopened ==> (r matches Err(DemuxError::NotOpened))
                && final(self).spec_stage() == Stage::Unopened,
            old(self).spec_stage() == Stage::Opened ==> (r matches Err(DemuxError::HeadersNotRead))
                && final(self).spec_stage() == Stage::Opened,
            old(self).spec_stage() == Stage::Exhausted ==> (r matches Err(DemuxError::Terminated))
                && final(self).spec_stage() == Stage::Exhausted,
    {
        match self.stage {
            Stage::HeadersRead | Stage::Streaming => {
                let r = self.demuxer.read_packet();
                match r {
                    Ok(_) => self.stage = Stage::Streaming,
                    Err(_) => self.stage = Stage::Exhausted,
                }
                r
            },
            Stage::Unopened => Err(DemuxError::NotOpened),
            Stage::Opened => Err(DemuxError::HeadersNotRead),
            Stage::Exhausted => Err(DemuxError::Terminated),
        }
    }
}

} // verus!
