//! Demuxer and builder contracts, and the probe that picks a builder for a
//! sample of an unlabeled stream.
use vstd::prelude::*;

use crate::error::DemuxError;
use crate::packet::Packet;
use crate::score::{Score, PROBE_DATA, SCORE_MAX};
use crate::session::{Session, Stage};

verus! {

/// A session bound to one opened input, driven through
/// `open`, `read_headers`, then repeated `read_packet`.
pub trait Demuxer {
    /// Binds the demuxer to its backing input.
    fn open(&mut self);

    /// Parses the container-level metadata.
    fn read_headers(&mut self) -> Result<(), DemuxError>;

    /// Produces the next packet in stream order, or fails with
    /// `DemuxError::EndOfStream` once the input is exhausted.
    fn read_packet(&mut self) -> Result<Packet, DemuxError>;
}

/// Static identity of a format.
pub struct DemuxerDescription {
    /// Short identifier, unique within a registry.
    pub name: &'static str,
    /// Human-readable description.
    pub description: &'static str,
    /// Lowercase file extensions, without a leading dot.
    pub extensions: &'static [&'static str],
    /// MIME types.
    pub mime: &'static [&'static str],
}

/// A stateless factory for one format: it describes the format, scores
/// samples, and allocates fresh demuxers.
pub trait DemuxerBuilder {
    /// The score this builder gives a sample: a function of the bytes alone.
    spec fn spec_probe(&self, data: Seq<u8>) -> u8;

    /// The format's static descriptor.
    fn describe(&self) -> &'static DemuxerDescription;

    /// Confidence, from 0 to 100, that `data` starts a stream of this format.
    fn probe(&self, data: &[u8; PROBE_DATA]) -> (r: u8)
        ensures
            r == self.spec_probe(data@),
            r <= SCORE_MAX,
    ;

    /// A new, unopened demuxer that shares no state with any other,
    /// wrapped in a session that tracks its lifecycle.
    fn allocate(&self) -> (r: Session)
        ensures
            r.spec_stage() == Stage::Unopened,
    ;
}

/// The scores that the builders of a registry give a sample, in
/// registration order.
pub open spec fn scores<B: DemuxerBuilder + ?Sized>(builders: Seq<&B>, data: Seq<u8>) -> Seq<u8> {
    Seq::new(builders.len(), |k: int| builders[k].spec_probe(data))
}

/// A score above the threshold of a match by extension alone.
pub open spec fn confident(score: u8) -> bool {
    score > Score::EXTENSION.spec_value()
}

/// Entry `i` holds the highest score, and is the first that holds it.
pub open spec fn leads(s: Seq<u8>, i: int) -> bool {
    &&& 0 <= i < s.len()
    &&& forall|k: int| 0 <= k < s.len() ==> s[k] <= s[i]
    &&& forall|k: int| 0 <= k < i ==> s[k] < s[i]
}

/// The index that selection picks from a sequence of scores: the first
/// of the highest, when that score is confident; none otherwise.
pub open spec fn selection(s: Seq<u8>) -> Option<int> {
    if exists|i: int| leads(s, i) && confident(s[i]) {
        Some(choose|i: int| leads(s, i) && confident(s[i]))
    } else {
        None
    }
}

/// At most one entry leads a sequence of scores.
pub proof fn lemma_leader_unique(s: Seq<u8>, i: int, j: int)
    requires
        leads(s, i),
        leads(s, j),
    ensures
        i == j,
{
    if i < j {
        assert(s[i] < s[j]);
    } else if j < i {
        assert(s[j] < s[i]);
    }
}

/// Selection picks entry `i` when `i` leads with a confident score.
pub proof fn lemma_selection_is_leader(s: Seq<u8>, i: int)
    requires
        leads(s, i),
        confident(s[i]),
    ensures
        selection(s) == Some(i),
{
    let c = choose|c: int| leads(s, c) && confident(s[c]);
    lemma_leader_unique(s, i, c);
}

/// With no builder registered, selection finds no match, whatever the sample.
pub proof fn lemma_no_builders_no_match<B: DemuxerBuilder + ?Sized>(
    builders: Seq<&B>,
    data: Seq<u8>,
)
    requires
        builders.len() == 0,
    ensures
        selection(scores(builders, data)) is None,
{
}

/// When no builder scores above `Score::EXTENSION`, selection finds no match.
pub proof fn lemma_low_scores_no_match<B: DemuxerBuilder + ?Sized>(
    builders: Seq<&B>,
    data: Seq<u8>,
)
    requires
        forall|k: int| 0 <= k < builders.len() ==> !confident(#[trigger] builders[k].spec_probe(data)),
    ensures
        selection(scores(builders, data)) is None,
{
    let s = scores(builders, data);
    if exists|i: int| leads(s, i) && confident(s[i]) {
        let i = choose|i: int| leads(s, i) && confident(s[i]);
        assert(!confident(builders[i].spec_probe(data)));
    }
}

/// When exactly one builder scores above `Score::EXTENSION`, selection picks
/// that builder.
pub proof fn lemma_single_confident_selected<B: DemuxerBuilder + ?Sized>(
    builders: Seq<&B>,
    data: Seq<u8>,
    i: int,
)
    requires
        0 <= i < builders.len(),
        confident(builders[i].spec_probe(data)),
        forall|k: int|
            0 <= k < builders.len() && k != i ==> !confident(#[trigger] builders[k].spec_probe(data)),
    ensures
        selection(scores(builders, data)) == Some(i),
{
    let s = scores(builders, data);
    assert forall|k: int| 0 <= k < s.len() implies s[k] <= s[i] by {
        if k != i {
            assert(!confident(builders[k].spec_probe(data)));
        }
    }
    assert forall|k: int| 0 <= k < i implies s[k] < s[i] by {
        assert(!confident(builders[k].spec_probe(data)));
    }
    lemma_selection_is_leader(s, i);
}

/// Of two builders with equal scores, selection never picks the one
/// registered later.
pub proof fn lemma_tie_never_picks_later<B: DemuxerBuilder + ?Sized>(
    builders: Seq<&B>,
    data: Seq<u8>,
    i: int,
    j: int,
)
    requires
        0 <= i < j < builders.len(),
        builders[i].spec_probe(data) == builders[j].spec_probe(data),
    ensures
        selection(scores(builders, data)) != Some(j),
{
    let s = scores(builders, data);
    if selection(s) == Some(j) {
        assert(s[i] < s[j]);
    }
}

/// In a registry of two builders with equal scores above
/// `Score::EXTENSION`, selection picks the first registered.
pub proof fn lemma_tie_picks_earlier<B: DemuxerBuilder + ?Sized>(builders: Seq<&B>, data: Seq<u8>)
    requires
        builders.len() == 2,
        builders[0].spec_probe(data) == builders[1].spec_probe(data),
        confident(builders[0].spec_probe(data)),
    ensures
        selection(scores(builders, data)) == Some(0int),
{
    let s = scores(builders, data);
    assert(s[0] == s[1]);
    lemma_selection_is_leader(s, 0);
}

/// Scores every builder of the registry on `data` and returns the one with
/// the highest score, the earliest registered among equals, provided that
/// score exceeds `Score::EXTENSION`; otherwise returns `None`.
pub fn probe<'a, B: DemuxerBuilder + ?Sized>(demuxers: &[&'a B], data: &[u8; PROBE_DATA]) -> (r:
    Option<&'a B>)
    ensures
        match selection(scores(demuxers@, data@)) {
            None => r is None,
            Some(i) => r matches Some(b) && b == demuxers@[i],
        },
{
    let ghost s = scores(demuxers@, data@);
    let mut max: u8 = 0;
    let mut candidate: Option<usize> = None;
    let mut n: usize = 0;
    while n < demuxers.len()
        invariant
            s == scores(demuxers@, data@),
            n <= demuxers@.len(),
            forall|k: int| 0 <= k < n ==> s[k] <= max,
            match candidate {
                None => max == 0,
                Some(lead) => {
                    &&& lead < n
                    &&& max == s[lead as int]
                    &&& forall|k: int| 0 <= k < lead ==> s[k] < max
                },
            },
        decreases demuxers@.len() - n,
    {
        let score = demuxers[n].probe(data);
        assert(s[n as int] == score);
        if score > max {
            max = score;
            candidate = Some(n);
        }
        n = n + 1;
    }
    match candidate {
        Some(lead) if max > Score::EXTENSION.value() => {
            proof {
                lemma_selection_is_leader(s, lead as int);
            }
            Some(demuxers[lead])
        },
        _ => {
            proof {
                if exists|i: int| leads(s, i) && confident(s[i]) {
                    let i = choose|i: int| leads(s, i) && confident(s[i]);
                    assert(s[i] <= max);
                }
            }
            None
        },
    }
}

} // verus!
