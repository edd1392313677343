use av_format::demux::{probe, Demuxer, DemuxerBuilder, DemuxerDescription};
use av_format::error::DemuxError;
use av_format::fixture::{FixtureBuilder, FixtureDemuxer, ProbeRule};
use av_format::score::{Score, PROBE_DATA};
use av_format::session::{Session, Stage};

const TEST_DESCRIPTION: DemuxerDescription = DemuxerDescription {
    name: "Test",
    description: "Test demuxer",
    extensions: &["test", "t"],
    mime: &["x-application/test"],
};

/// Scores the maximum when the first byte is zero, nothing otherwise.
const TEST_BUILDER: FixtureBuilder = FixtureBuilder {
    description: &TEST_DESCRIPTION,
    rule: ProbeRule::FirstByte { byte: 0, hit: 100, miss: 0 },
    packets: 0,
    header_error: None,
};

const A_DESCRIPTION: DemuxerDescription = DemuxerDescription {
    name: "A",
    description: "First fixed-score format",
    extensions: &["a"],
    mime: &[],
};

const B_DESCRIPTION: DemuxerDescription = DemuxerDescription {
    name: "B",
    description: "Second fixed-score format",
    extensions: &["b"],
    mime: &[],
};

const C_DESCRIPTION: DemuxerDescription = DemuxerDescription {
    name: "C",
    description: "Third fixed-score format",
    extensions: &["c"],
    mime: &[],
};

fn fixed(description: &'static DemuxerDescription, score: u8) -> FixtureBuilder {
    FixtureBuilder { description, rule: ProbeRule::Fixed(score), packets: 1, header_error: None }
}

fn demuxer(packets: usize, header_error: Option<DemuxError>) -> Session {
    Session::new(Box::new(FixtureDemuxer { remaining: packets, header_error }))
}

const DEMUXER_BUILDERS: [&'static dyn DemuxerBuilder; 1] = [&TEST_BUILDER];

fn selected_name(registry: &[&dyn DemuxerBuilder]) -> Option<&'static str> {
    let buf = [0u8; PROBE_DATA];
    probe(registry, &buf).map(|b| b.describe().name)
}

#[test]
fn probe_demuxer() {
    let mut buf = [1; PROBE_DATA];

    match probe(&DEMUXER_BUILDERS, &buf) {
        Some(_) => panic!(),
        None => (),
    };

    buf[0] = 0;

    match probe(&DEMUXER_BUILDERS, &buf) {
        Some(_) => (),
        None => panic!(),
    };
}

#[test]
fn selected_builder_reads_headers_then_ends() {
    let mut buf = [1u8; PROBE_DATA];
    assert!(probe(&DEMUXER_BUILDERS, &buf).is_none());
    buf[0] = 0;
    let builder = probe(&DEMUXER_BUILDERS, &buf).unwrap();
    assert_eq!(builder.describe().name, "Test");
    assert_eq!(builder.describe().extensions, &["test", "t"]);
    let mut session = builder.allocate();
    assert_eq!(session.stage(), Stage::Unopened);
    assert_eq!(session.open(), Ok(()));
    assert_eq!(session.read_headers(), Ok(()));
    match session.read_packet() {
        Ok(_) | Err(DemuxError::EndOfStream) => (),
        Err(e) => panic!("unexpected failure {:?}", e),
    }
}

#[test]
fn empty_registry_matches_nothing() {
    let registry: [&dyn DemuxerBuilder; 0] = [];
    assert_eq!(selected_name(&registry), None);
    let buf = [7u8; PROBE_DATA];
    assert!(probe(&registry, &buf).is_none());
}

#[test]
fn scores_at_most_extension_match_nothing() {
    let a = fixed(&A_DESCRIPTION, 0);
    let b = fixed(&B_DESCRIPTION, 50);
    let c = fixed(&C_DESCRIPTION, 30);
    let registry: [&dyn DemuxerBuilder; 3] = [&a, &b, &c];
    assert_eq!(selected_name(&registry), None);
}

#[test]
fn single_score_at_extension_matches_nothing() {
    let a = fixed(&A_DESCRIPTION, 50);
    let registry: [&dyn DemuxerBuilder; 1] = [&a];
    assert_eq!(selected_name(&registry), None);
}

#[test]
fn single_confident_builder_is_selected() {
    let a = fixed(&A_DESCRIPTION, 10);
    let b = fixed(&B_DESCRIPTION, 51);
    let c = fixed(&C_DESCRIPTION, 50);
    let registry: [&dyn DemuxerBuilder; 3] = [&a, &b, &c];
    assert_eq!(selected_name(&registry), Some("B"));
}

#[test]
fn equal_scores_pick_first_registered() {
    let a = fixed(&A_DESCRIPTION, 60);
    let b = fixed(&B_DESCRIPTION, 60);
    let registry: [&dyn DemuxerBuilder; 2] = [&a, &b];
    assert_eq!(selected_name(&registry), Some("A"));
    let reversed: [&dyn DemuxerBuilder; 2] = [&b, &a];
    assert_eq!(selected_name(&reversed), Some("B"));
}

#[test]
fn several_maximum_scores_pick_first_registered() {
    let a = fixed(&A_DESCRIPTION, 75);
    let b = fixed(&B_DESCRIPTION, 100);
    let c = fixed(&C_DESCRIPTION, 100);
    let registry: [&dyn DemuxerBuilder; 3] = [&a, &b, &c];
    assert_eq!(selected_name(&registry), Some("B"));
}

#[test]
fn highest_score_wins_over_earlier() {
    let a = fixed(&A_DESCRIPTION, 75);
    let b = fixed(&B_DESCRIPTION, 90);
    let registry: [&dyn DemuxerBuilder; 2] = [&a, &b];
    assert_eq!(selected_name(&registry), Some("B"));
}

#[test]
fn score_reference_values() {
    assert_eq!(Score::EXTENSION.value(), 50);
    assert_eq!(Score::MIME.value(), 75);
    assert_eq!(Score::MAX.value(), 100);
    assert_eq!(PROBE_DATA, 4096);
    let buf = [0u8; PROBE_DATA];
    assert!(TEST_BUILDER.probe(&buf) <= 100);
}

#[test]
fn lifecycle_rejects_out_of_order_calls() {
    let mut session = demuxer(1, None);
    assert_eq!(session.read_headers(), Err(DemuxError::NotOpened));
    assert!(matches!(session.read_packet(), Err(DemuxError::NotOpened)));
    assert_eq!(session.stage(), Stage::Unopened);
    assert_eq!(session.open(), Ok(()));
    assert_eq!(session.stage(), Stage::Opened);
    assert_eq!(session.open(), Err(DemuxError::AlreadyOpened));
    assert!(matches!(session.read_packet(), Err(DemuxError::HeadersNotRead)));
    assert_eq!(session.stage(), Stage::Opened);
    assert_eq!(session.read_headers(), Ok(()));
    assert_eq!(session.stage(), Stage::HeadersRead);
    assert_eq!(session.read_headers(), Err(DemuxError::HeadersAlreadyRead));
}

#[test]
fn lifecycle_streams_until_end() {
    let b = fixed(&B_DESCRIPTION, 60);
    let mut session = b.allocate();
    assert_eq!(session.open(), Ok(()));
    assert_eq!(session.read_headers(), Ok(()));
    let packet = session.read_packet().unwrap();
    assert!(packet.data.is_empty());
    assert_eq!(session.stage(), Stage::Streaming);
    assert!(matches!(session.read_packet(), Err(DemuxError::EndOfStream)));
    assert_eq!(session.stage(), Stage::Exhausted);
    assert!(matches!(session.read_packet(), Err(DemuxError::Terminated)));
    assert_eq!(session.read_headers(), Err(DemuxError::Terminated));
    assert_eq!(session.open(), Err(DemuxError::Terminated));
    assert_eq!(session.stage(), Stage::Exhausted);
}

#[test]
fn header_failure_ends_session() {
    let mut session = demuxer(0, Some(DemuxError::InvalidData));
    assert_eq!(session.open(), Ok(()));
    assert_eq!(session.read_headers(), Err(DemuxError::InvalidData));
    assert_eq!(session.stage(), Stage::Exhausted);
    assert!(matches!(session.read_packet(), Err(DemuxError::Terminated)));
}

#[test]
fn fixture_scores_are_capped_at_maximum() {
    let buf = [3u8; PROBE_DATA];
    assert_eq!(fixed(&A_DESCRIPTION, 150).probe(&buf), 100);
    assert_eq!(fixed(&A_DESCRIPTION, 75).probe(&buf), 75);
    let rule = FixtureBuilder {
        description: &B_DESCRIPTION,
        rule: ProbeRule::FirstByte { byte: 3, hit: 80, miss: 20 },
        packets: 0,
        header_error: None,
    };
    assert_eq!(rule.probe(&buf), 80);
    assert_eq!(rule.probe(&[4u8; PROBE_DATA]), 20);
}

#[test]
fn fixture_demuxer_counts_down_packets() {
    let mut d = FixtureDemuxer::new(2, None);
    assert_eq!(d.remaining, 2);
    d.open();
    assert_eq!(d.remaining, 2);
    assert_eq!(d.read_headers(), Ok(()));
    assert!(d.read_packet().is_ok());
    assert_eq!(d.remaining, 1);
    assert!(d.read_packet().is_ok());
    assert!(matches!(d.read_packet(), Err(DemuxError::EndOfStream)));
    assert_eq!(d.remaining, 0);
    let mut broken = FixtureDemuxer::new(1, Some(DemuxError::Io));
    assert_eq!(broken.read_headers(), Err(DemuxError::Io));
    assert_eq!(broken.header_error, Some(DemuxError::Io));
    assert_eq!(TEST_BUILDER.describe().name, "Test");
}
