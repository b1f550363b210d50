use racetrack::piece::{BallModifier, BlockType, RoadType};
use racetrack::track::{
    modifier_for, road_type_for, turn_angle, turn_radius, Frame, NoiseSamples, Track,
    GENERATED_PIECES, HALF_PI_MICRO,
};

fn samples(kind: i32, bend: i32, size: i32) -> NoiseSamples {
    NoiseSamples { kind, bend, size, surface: 500_000, boost: 0 }
}

/// A made-up but fixed sequence of samples standing in for a noise field.
fn scripted(i: usize) -> NoiseSamples {
    let k = (i as i64 * 7_919 % 2_000_001 - 1_000_000) as i32;
    let b = (i as i64 * 104_729 % 2_000_001 - 1_000_000) as i32;
    let s = (i as i64 * 1_299_709 % 2_000_001 - 1_000_000) as i32;
    let u = (i as i64 * 15_485_863 % 2_000_001 - 1_000_000) as i32;
    let g = (i as i64 * 32_452_843 % 2_000_001 - 1_000_000) as i32;
    NoiseSamples { kind: k, bend: b, size: s, surface: u, boost: g }
}

fn build(initial_length: i32) -> Track {
    let mut track = Track::begin(initial_length);
    for i in 0..GENERATED_PIECES {
        let s = scripted(i);
        track.advance(&s);
    }
    track
}

#[test]
fn begin_places_opening_slope() {
    let track = Track::begin(15_000);
    assert_eq!(track.segments.len(), 1);
    assert_eq!(
        track.segments[0].block_type,
        BlockType::Slope { length: 15_000, height_change: -3000 }
    );
    assert_eq!(track.segments[0].entry, Frame { height: 0, heading: 0 });
    assert_eq!(track.current_end, Frame { height: -3000, heading: 0 });
    assert_eq!(track.turn_since_down, 0);
}

#[test]
fn low_kind_sample_gives_straight() {
    let track = Track::begin(10_000);
    assert_eq!(
        track.select_next_block(&samples(-149_999, 0, 0)),
        BlockType::Straight { length: 10_000 }
    );
}

#[test]
fn turn_band_derives_angle_and_radius() {
    let track = Track::begin(10_000);
    assert_eq!(
        track.select_next_block(&samples(150_000, 500_000, -250_000)),
        BlockType::Turn { angle: 1_870_796, radius: 15_000 }
    );
}

#[test]
fn bumpy_band() {
    let track = Track::begin(10_000);
    assert_eq!(
        track.select_next_block(&samples(-300_000, 0, 0)),
        BlockType::Bumpy { length: 15_000, pertubation: 400 }
    );
}

#[test]
fn banked_band_derives_bank_from_angle() {
    let track = Track::begin(10_000);
    assert_eq!(
        track.select_next_block(&samples(699_999, 1_000_000, 1_000_000)),
        BlockType::BankedTurn { angle: 3_441_593, radius: 30_000, bank_height: 4381 }
    );
}

#[test]
fn high_kind_sample_gives_slope() {
    let track = Track::begin(10_000);
    assert_eq!(
        track.select_next_block(&samples(700_000, 0, -500_000)),
        BlockType::Slope { length: 15_000, height_change: -15_000 }
    );
}

#[test]
fn angle_and_radius_formulas() {
    assert_eq!(turn_angle(0), 300_000);
    assert_eq!(turn_angle(-1_000_000), 3_441_593);
    assert_eq!(turn_radius(0), 10_000);
    assert_eq!(turn_radius(999_999), 29_999);
}

#[test]
fn long_turning_forces_a_slope() {
    let mut track = Track::begin(10_000);
    track.advance(&samples(200_000, 0, 0));
    assert_eq!(track.turn_since_down, 300_000);
    track.advance(&samples(200_000, 1_000_000, 0));
    assert_eq!(track.turn_since_down, 3_741_593);
    assert!(track.turn_since_down > HALF_PI_MICRO);
    track.advance(&samples(0, 0, 1_000_000));
    assert_eq!(
        track.segments[3].block_type,
        BlockType::Slope { length: 25_000, height_change: -20_000 }
    );
    assert_eq!(track.turn_since_down, 0);
}

#[test]
fn surface_and_modifier_thresholds() {
    assert_eq!(road_type_for(99_999), RoadType::Ice);
    assert_eq!(road_type_for(-100_000), RoadType::Asphalt);
    assert_eq!(modifier_for(700_000), BallModifier::Unmodified);
    assert_eq!(
        modifier_for(-700_001),
        BallModifier::GravityChange { strength: 4000, duration_secs: 10 }
    );
}

#[test]
fn advance_records_surface_and_modifier() {
    let mut track = Track::begin(10_000);
    track.advance(&NoiseSamples { kind: 0, bend: 0, size: 0, surface: 0, boost: 1_000_000 });
    assert_eq!(track.segments[1].road_type, RoadType::Ice);
    assert_eq!(
        track.segments[1].modifier,
        BallModifier::GravityChange { strength: 4000, duration_secs: 10 }
    );
}

#[test]
fn same_samples_same_track() {
    let a = build(12_000);
    let b = build(12_000);
    assert_eq!(a.segments.len(), GENERATED_PIECES + 1);
    assert_eq!(a.segments, b.segments);
    assert_eq!(a.current_end, b.current_end);
}

#[test]
fn pieces_chain_exactly() {
    let track = build(8_000);
    let segs = &track.segments;
    for i in 0..segs.len() {
        let entry = segs[i].entry;
        let expected = match segs[i].block_type {
            BlockType::Turn { angle, .. } | BlockType::BankedTurn { angle, .. } => {
                Frame { height: entry.height, heading: entry.heading + angle as i64 }
            }
            BlockType::Slope { height_change, .. } => {
                Frame { height: entry.height + height_change as i64, heading: entry.heading }
            }
            _ => entry,
        };
        if i + 1 < segs.len() {
            assert_eq!(segs[i + 1].entry, expected);
        } else {
            assert_eq!(track.current_end, expected);
        }
    }
}

#[test]
fn generated_track_never_climbs() {
    let track = build(15_000);
    let segs = &track.segments;
    for i in 1..segs.len() {
        assert!(segs[i].entry.height <= segs[i - 1].entry.height);
    }
    assert!(track.current_end.height <= -3000);
}

#[test]
fn turning_stays_bounded() {
    let mut track = Track::begin(10_000);
    for i in 0..GENERATED_PIECES {
        let before = track.turn_since_down;
        let s = scripted(i);
        track.advance(&s);
        if before > HALF_PI_MICRO {
            assert!(matches!(track.segments[i + 1].block_type, BlockType::Slope { .. }));
        }
        assert!(track.turn_since_down <= HALF_PI_MICRO + 3_441_593);
    }
}

#[test]
fn append_block_moves_cursor() {
    let mut track = Track::new();
    track.append_block(
        BlockType::BankedTurn { angle: -500_000, radius: 12_000, bank_height: 100 },
        RoadType::Asphalt,
        BallModifier::Unmodified,
    );
    track.append_block(
        BlockType::Slope { length: 1000, height_change: 2500 },
        RoadType::Ice,
        BallModifier::Unmodified,
    );
    assert_eq!(track.segments[1].entry, Frame { height: 0, heading: -500_000 });
    assert_eq!(track.current_end, Frame { height: 2500, heading: -500_000 });
    assert_eq!(track.turn_since_down, 0);
}

#[test]
fn debug_track_layout() {
    let track = Track::debug_straight();
    assert_eq!(track.segments.len(), 10);
    assert_eq!(
        track.segments[1].block_type,
        BlockType::Bumpy { length: 10_000, pertubation: 2000 }
    );
    assert_eq!(
        track.segments[2].modifier,
        BallModifier::GravityChange { strength: 10_000, duration_secs: 10 }
    );
    assert_eq!(track.segments[3].modifier, BallModifier::Unmodified);
    assert_eq!(track.current_end, Frame { height: -20_000, heading: 0 });
}
