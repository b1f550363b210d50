//! The generator's decisions: which piece comes next, what surface and
//! modifier it carries, and how the exactly-representable part of the cursor
//! (height and heading) moves along the track.
use vstd::prelude::*;

use crate::piece::{abs_sample, abs_spec, sample_ok, BallModifier, BlockType, RoadType, PI_MICRO};

verus! {

/// Most segments a track may hold.
pub const MAX_SEGMENTS: usize = 1_000_000;

/// Pieces that generation appends after the opening slope.
pub const GENERATED_PIECES: usize = 100;

/// Height change of the opening slope.
pub const OPENING_DROP: i32 = -3000;

/// Half of pi in millionths of a radian, rounded down.
pub const HALF_PI_MICRO: u32 = 1_570_796;

/// The largest angle a generated turn can have.
pub const MAX_TURN_ANGLE: u32 = 3_441_593;

/// Size of one `i32` step in the bounds on the cursor.
pub const I32_SPAN: i64 = 0x8000_0000;

/// The part of a pose that chaining keeps exact: every rotation is about the
/// vertical axis, so the orientation is a heading and the height changes only
/// on slopes.
#[derive(Debug, Clone, Copy, PartialEq, Eq, Structural)]
pub struct Frame {
    /// Height above the start, in thousandths of a unit.
    pub height: i64,
    /// Heading about the vertical axis, in millionths of a radian.
    pub heading: i64,
}

/// One placed piece.
#[derive(Debug, Clone, Copy, PartialEq, Eq, Structural)]
pub struct TrackSegment {
    pub block_type: BlockType,
    /// The cursor at the piece's entry.
    pub entry: Frame,
    pub road_type: RoadType,
    pub modifier: BallModifier,
}

pub open spec fn origin() -> Frame {
    Frame { height: 0, heading: 0 }
}

/// The cursor after a piece entered at `f`: turns add their angle to the
/// heading, slopes add their height change, other pieces keep both.
pub open spec fn end_frame(block: BlockType, f: Frame) -> Frame {
    match block {
        BlockType::Turn { angle, .. } => Frame { height: f.height, heading: (f.heading + angle) as i64 },
        BlockType::BankedTurn { angle, .. } => Frame {
            height: f.height,
            heading: (f.heading + angle) as i64,
        },
        BlockType::Slope { height_change, .. } => Frame {
            height: (f.height + height_change) as i64,
            heading: f.heading,
        },
        _ => f,
    }
}

/// The cursor after the first `i` pieces of `segs`, starting at the origin.
pub open spec fn frame_after(segs: Seq<TrackSegment>, i: int) -> Frame
    decreases i,
{
    if i <= 0 {
        origin()
    } else {
        end_frame(segs[i - 1].block_type, frame_after(segs, i - 1))
    }
}

/// Height change that a piece contributes to the cursor.
pub open spec fn rise_of(block: BlockType) -> int {
    match block {
        BlockType::Slope { height_change, .. } => height_change as int,
        _ => 0,
    }
}

/// Sum of the height changes of the first `i` pieces.
pub open spec fn total_rise(segs: Seq<TrackSegment>, i: int) -> int
    decreases i,
{
    if i <= 0 {
        0
    } else {
        total_rise(segs, i - 1) + rise_of(segs[i - 1].block_type)
    }
}

pub open spec fn frame_bounded(f: Frame, n: int) -> bool {
    &&& -n * I32_SPAN <= f.height <= n * I32_SPAN
    &&& -n * I32_SPAN <= f.heading <= n * I32_SPAN
}

/// The noise samples one generation step reads, each in millionths: one keyed
/// on the number of pieces so far, which picks the kind; the others taken at
/// the cursor's position.
#[derive(Debug, Clone, Copy, PartialEq, Eq, Structural)]
pub struct NoiseSamples {
    /// Keyed on the piece count; picks the kind of piece.
    pub kind: i32,
    /// At the cursor's (x, y); sets a turn's angle.
    pub bend: i32,
    /// At the cursor's (y, x); sets a turn's radius and a slope's drop.
    pub size: i32,
    /// Near the cursor; ice where it is close to zero.
    pub surface: i32,
    /// At an offset uncorrelated with the others; a gravity change where it
    /// is large.
    pub boost: i32,
}

impl NoiseSamples {
    pub open spec fn in_range(&self) -> bool {
        &&& sample_ok(self.kind)
        &&& sample_ok(self.bend)
        &&& sample_ok(self.size)
        &&& sample_ok(self.surface)
        &&& sample_ok(self.boost)
    }
}

/// Angle of a turn: pi times the sample's magnitude, plus three tenths of a
/// radian.
pub open spec fn turn_angle_spec(bend: int) -> int {
    (PI_MICRO as int) * abs_spec(bend) / 1_000_000 + 300_000
}

/// Radius of a turn: ten units plus twenty times the sample's magnitude.
pub open spec fn turn_radius_spec(size: int) -> int {
    10_000 + abs_spec(size) / 50
}

/// Height change of a generated slope: ten units down plus ten times the
/// sample's magnitude.
pub open spec fn drop_spec(size: int) -> int {
    -(10_000 + abs_spec(size) / 100)
}

/// Bank of a banked turn: four units per pi radians of turning.
pub open spec fn bank_height_spec(angle: int) -> int {
    angle * 4000 / (PI_MICRO as int)
}

/// The piece generation picks, given the turning since the last slope.
pub open spec fn select_spec(turn_since_down: int, s: NoiseSamples) -> BlockType {
    let drop = drop_spec(s.size as int) as i32;
    if turn_since_down > HALF_PI_MICRO {
        BlockType::Slope { length: 25_000, height_change: drop }
    } else {
        let v = abs_spec(s.kind as int);
        let angle = turn_angle_spec(s.bend as int);
        let radius = turn_radius_spec(s.size as int) as i32;
        if v < 150_000 {
            BlockType::Straight { length: 10_000 }
        } else if v < 300_000 {
            BlockType::Turn { angle: angle as i32, radius }
        } else if v < 550_000 {
            BlockType::Bumpy { length: 15_000, pertubation: 400 }
        } else if v < 700_000 {
            BlockType::BankedTurn {
                angle: angle as i32,
                radius,
                bank_height: bank_height_spec(angle) as i32,
            }
        } else {
            BlockType::Slope { length: 15_000, height_change: drop }
        }
    }
}

/// Turning since the last slope once `block` is placed.
pub open spec fn next_turn_spec(turn_since_down: int, block: BlockType) -> int {
    match block {
        BlockType::Turn { angle, .. } => turn_since_down + abs_spec(angle as int),
        BlockType::BankedTurn { angle, .. } => turn_since_down + abs_spec(angle as int),
        BlockType::Slope { .. } => 0,
        _ => turn_since_down,
    }
}

pub open spec fn road_type_spec(surface: int) -> RoadType {
    if abs_spec(surface) < 100_000 {
        RoadType::Ice
    } else {
        RoadType::Asphalt
    }
}

pub open spec fn modifier_spec(boost: int) -> BallModifier {
    if abs_spec(boost) > 700_000 {
        BallModifier::GravityChange { strength: 4000, duration_secs: 10 }
    } else {
        BallModifier::Unmodified
    }
}

pub fn turn_angle(bend: i32) -> (r: i32)
    requires
        sample_ok(bend),
    ensures
        r == turn_angle_spec(bend as int),
        300_000 <= r <= MAX_TURN_ANGLE,
{
    let m = abs_sample(bend) as i64;
    assert((PI_MICRO as int) * m / 1_000_000 <= PI_MICRO as int) by (nonlinear_arith)
        requires
            0 <= m <= 1_000_000,
    ;
    assert((PI_MICRO as int) * m / 1_000_000 >= 0) by (nonlinear_arith)
        requires
            0 <= m <= 1_000_000,
    ;
    (PI_MICRO as i64 * m / 1_000_000 + 300_000) as i32
}

pub fn turn_radius(size: i32) -> (r: i32)
    requires
        sample_ok(size),
    ensures
        r == turn_radius_spec(size as int),
        10_000 <= r <= 30_000,
{
    10_000 + abs_sample(size) / 50
}

fn slope_drop(size: i32) -> (r: i32)
    requires
        sample_ok(size),
    ensures
        r == drop_spec(size as int),
        -20_000 <= r <= -10_000,
{
    -(10_000 + abs_sample(size) / 100)
}

fn bank_height(angle: i32) -> (r: i32)
    requires
        0 <= angle <= MAX_TURN_ANGLE,
    ensures
        r == bank_height_spec(angle as int),
{
    assert(angle * 4000 / (PI_MICRO as int) <= 5000) by (nonlinear_arith)
        requires
            0 <= angle <= MAX_TURN_ANGLE,
    ;
    assert(angle * 4000 / (PI_MICRO as int) >= 0) by (nonlinear_arith)
        requires
            0 <= angle,
    ;
    (angle as i64 * 4000 / PI_MICRO as i64) as i32
}

pub fn road_type_for(surface: i32) -> (r: RoadType)
    requires
        sample_ok(surface),
    ensures
        r == road_type_spec(surface as int),
{
    if abs_sample(surface) < 100_000 {
        RoadType::Ice
    } else {
        RoadType::Asphalt
    }
}

pub fn modifier_for(boost: i32) -> (r: BallModifier)
    requires
        sample_ok(boost),
    ensures
        r == modifier_spec(boost as int),
{
    if abs_sample(boost) > 700_000 {
        BallModifier::GravityChange { strength: 4000, duration_secs: 10 }
    } else {
        BallModifier::Unmodified
    }
}

/// A track and the state of its generation.
pub struct Track {
    pub segments: Vec<TrackSegment>,
    /// The cursor at the open end of the track.
    pub current_end: Frame,
    /// Turning, in millionths of a radian, since the last slope.
    pub turn_since_down: u32,
}

impl Track {
    /// Pieces start where the previous one ends, from the origin on, and the
    /// cursor stands at the end of the last one.
    pub open spec fn wf(&self) -> bool {
        &&& self.segments@.len() <= MAX_SEGMENTS
        &&& forall|i: int|
            0 <= i < self.segments@.len() ==> (#[trigger] self.segments@[i]).entry == frame_after(
                self.segments@,
                i,
            )
        &&& self.current_end == frame_after(self.segments@, self.segments@.len() as int)
        &&& frame_bounded(self.current_end, self.segments@.len() as int)
        &&& self.turn_since_down <= HALF_PI_MICRO + MAX_TURN_ANGLE
    }

    /// An empty track with the cursor at the origin.
    pub fn new() -> (r: Track)
        ensures
            r.wf(),
            r.segments@ == Seq::<TrackSegment>::empty(),
            r.current_end == origin(),
            r.turn_since_down == 0,
    {
        Track { segments: Vec::new(), current_end: Frame { height: 0, heading: 0 }, turn_since_down: 0 }
    }

    /// The cursor after `block` placed at the open end.
    pub fn calculate_end_transform(&self, block: &BlockType) -> (r: Frame)
        requires
            self.wf(),
            self.segments@.len() < MAX_SEGMENTS,
        ensures
            r == end_frame(*block, self.current_end),
            frame_bounded(r, self.segments@.len() + 1 as int),
    {
        let f = self.current_end;
        match *block {
            BlockType::Turn { angle, .. } | BlockType::BankedTurn { angle, .. } => Frame {
                height: f.height,
                heading: f.heading + angle as i64,
            },
            BlockType::Slope { height_change, .. } => Frame {
                height: f.height + height_change as i64,
                heading: f.heading,
            },
            _ => f,
        }
    }

    /// Places `block` at the open end and moves the cursor to its end.
    pub fn append_block(&mut self, block_type: BlockType, road_type: RoadType, modifier: BallModifier)
        requires
            old(self).wf(),
            old(self).segments@.len() < MAX_SEGMENTS,
        ensures
            final(self).wf(),
            final(self).segments@ == old(self).segments@.push(
                TrackSegment { block_type, entry: old(self).current_end, road_type, modifier },
            ),
            final(self).current_end == end_frame(block_type, old(self).current_end),
            final(self).turn_since_down == old(self).turn_since_down,
    {
        let end = self.calculate_end_transform(&block_type);
        let ghost before = self.segments@;
        self.segments.push(TrackSegment { block_type, entry: self.current_end, road_type, modifier });
        self.current_end = end;
        proof {
            let segs = self.segments@;
            assert forall|i: int| 0 <= i < segs.len() implies (#[trigger] segs[i]).entry
                == frame_after(segs, i) by {
                if i < before.len() {
                    lemma_frame_after_prefix(before, segs, i);
                    assert(before[i] == segs[i]);
                } else {
                    lemma_frame_after_prefix(before, segs, i);
                }
            }
            lemma_frame_after_prefix(before, segs, before.len() as int);
        }
    }
}

impl Track {
    /// The piece that generation appends next: a forced slope once the
    /// turning since the last slope exceeds a quarter turn, otherwise the kind
    /// that the magnitude of `s.kind` falls into.
    pub fn select_next_block(&self, s: &NoiseSamples) -> (r: BlockType)
        requires
            s.in_range(),
        ensures
            r == select_spec(self.turn_since_down as int, *s),
    {
        if self.turn_since_down > HALF_PI_MICRO {
            return BlockType::Slope { length: 25_000, height_change: slope_drop(s.size) };
        }
        let v = abs_sample(s.kind);
        if v < 150_000 {
            BlockType::Straight { length: 10_000 }
        } else if v < 300_000 {
            BlockType::Turn { angle: turn_angle(s.bend), radius: turn_radius(s.size) }
        } else if v < 550_000 {
            BlockType::Bumpy { length: 15_000, pertubation: 400 }
        } else if v < 700_000 {
            let angle = turn_angle(s.bend);
            BlockType::BankedTurn { angle, radius: turn_radius(s.size), bank_height: bank_height(angle) }
        } else {
            BlockType::Slope { length: 15_000, height_change: slope_drop(s.size) }
        }
    }

    /// A track holding only its opening slope, which descends from the origin
    /// over `initial_length`.
    pub fn begin(initial_length: i32) -> (r: Track)
        ensures
            r.wf(),
            r.segments@ == seq![
                TrackSegment {
                    block_type: BlockType::Slope { length: initial_length, height_change: OPENING_DROP },
                    entry: origin(),
                    road_type: RoadType::Asphalt,
                    modifier: BallModifier::Unmodified,
                },
            ],
            r.current_end == (Frame { height: OPENING_DROP as i64, heading: 0 }),
            r.turn_since_down == 0,
    {
        let mut track = Track::new();
        track.append_block(
            BlockType::Slope { length: initial_length, height_change: OPENING_DROP },
            RoadType::Asphalt,
            BallModifier::Unmodified,
        );
        track
    }

    /// One generation step: picks the next piece from `s`, updates the
    /// turning since the last slope, picks the surface and the modifier, and
    /// appends the piece at the cursor.
    pub fn advance(&mut self, s: &NoiseSamples)
        requires
            old(self).wf(),
            old(self).segments@.len() < MAX_SEGMENTS,
            s.in_range(),
        ensures
            final(self).wf(),
            final(self).segments@ == old(self).segments@.push(
                TrackSegment {
                    block_type: select_spec(old(self).turn_since_down as int, *s),
                    entry: old(self).current_end,
                    road_type: road_type_spec(s.surface as int),
                    modifier: modifier_spec(s.boost as int),
                },
            ),
            final(self).current_end == end_frame(
                select_spec(old(self).turn_since_down as int, *s),
                old(self).current_end,
            ),
            final(self).turn_since_down == next_turn_spec(
                old(self).turn_since_down as int,
                select_spec(old(self).turn_since_down as int, *s),
            ),
            final(self).current_end.height <= old(self).current_end.height,
    {
        let block = self.select_next_block(s);
        let turn = match block {
            BlockType::Turn { angle, .. } | BlockType::BankedTurn { angle, .. } => {
                self.turn_since_down + angle as u32
            },
            BlockType::Slope { .. } => 0,
            _ => self.turn_since_down,
        };
        let road_type = road_type_for(s.surface);
        let modifier = modifier_for(s.boost);
        self.append_block(block, road_type, modifier);
        self.turn_since_down = turn;
    }
}

/// The fixed layout of the debugging track.
pub open spec fn debug_layout() -> Seq<BlockType> {
    let straight = BlockType::Straight { length: 10_000 };
    let slope = BlockType::Slope { length: 10_000, height_change: -10_000i32 };
    seq![
        slope,
        BlockType::Bumpy { length: 10_000, pertubation: 2000 },
        straight,
        straight,
        straight,
        straight,
        slope,
        straight,
        straight,
        straight,
    ]
}

/// The modifier of the `i`-th piece of the debugging track: a gravity change
/// on the third.
pub open spec fn debug_modifier(i: int) -> BallModifier {
    if i == 2 {
        BallModifier::GravityChange { strength: 10_000, duration_secs: 10 }
    } else {
        BallModifier::Unmodified
    }
}

impl Track {
    /// A fixed track for trying things out: slope, bumps, straights, a second
    /// slope and more straights, all asphalt.
    pub fn debug_straight() -> (r: Track)
        ensures
            r.wf(),
            r.segments@.len() == debug_layout().len(),
            forall|i: int|
                0 <= i < r.segments@.len() ==> {
                    &&& (#[trigger] r.segments@[i]).block_type == debug_layout()[i]
                    &&& r.segments@[i].road_type == RoadType::Asphalt
                    &&& r.segments@[i].modifier == debug_modifier(i)
                },
            r.turn_since_down == 0,
    {
        let straight = BlockType::Straight { length: 10_000 };
        let slope = BlockType::Slope { length: 10_000, height_change: -10_000 };
        let blocks: Vec<BlockType> = vec![
            slope,
            BlockType::Bumpy { length: 10_000, pertubation: 2000 },
            straight,
            straight,
            straight,
            straight,
            slope,
            straight,
            straight,
            straight,
        ];
        assert(blocks@ =~= debug_layout());
        let mut track = Track::new();
        let mut i: usize = 0;
        while i < blocks.len()
            invariant
                blocks@ == debug_layout(),
                i <= blocks@.len(),
                track.wf(),
                track.segments@.len() == i,
                track.turn_since_down == 0,
                forall|k: int|
                    0 <= k < i ==> {
                        &&& (#[trigger] track.segments@[k]).block_type == debug_layout()[k]
                        &&& track.segments@[k].road_type == RoadType::Asphalt
                        &&& track.segments@[k].modifier == debug_modifier(k)
                    },
            decreases blocks@.len() - i,
        {
            let modifier = if i == 2 {
                BallModifier::GravityChange { strength: 10_000, duration_secs: 10 }
            } else {
                BallModifier::Unmodified
            };
            track.append_block(blocks[i], RoadType::Asphalt, modifier);
            i += 1;
        }
        track
    }
}

/// Each piece starts exactly where the previous one ends, and the cursor
/// stands where the last one ends.
pub proof fn lemma_continuity(t: &Track, i: int)
    requires
        t.wf(),
        0 <= i < t.segments@.len(),
    ensures
        i + 1 < t.segments@.len() ==> end_frame(t.segments@[i].block_type, t.segments@[i].entry)
            == t.segments@[i + 1].entry,
        i + 1 == t.segments@.len() ==> end_frame(t.segments@[i].block_type, t.segments@[i].entry)
            == t.current_end,
{
    if i + 1 < t.segments@.len() {
        assert(t.segments@[i + 1].entry == frame_after(t.segments@, i + 1));
    }
    assert(t.segments@[i].entry == frame_after(t.segments@, i));
}

/// The cursor's height after the first `i` pieces is the sum of their height
/// changes.
pub proof fn lemma_height_is_total_rise(segs: Seq<TrackSegment>, i: int)
    requires
        0 <= i <= segs.len(),
        i <= MAX_SEGMENTS,
    ensures
        frame_after(segs, i).height == total_rise(segs, i),
        -i * I32_SPAN <= total_rise(segs, i) <= i * I32_SPAN,
    decreases i,
{
    if i > 0 {
        lemma_height_is_total_rise(segs, i - 1);
    }
}

/// No generated piece climbs, and every generated slope drops at least ten
/// units, so a generated track descends all the way.
pub proof fn lemma_generated_pieces_descend(turn_since_down: int, s: NoiseSamples)
    requires
        s.in_range(),
    ensures
        rise_of(select_spec(turn_since_down, s)) <= 0,
        select_spec(turn_since_down, s) is Slope ==> rise_of(select_spec(turn_since_down, s))
            <= -10_000,
{
}

/// Along pieces that never climb, the cursor never rises.
pub proof fn lemma_never_rises(segs: Seq<TrackSegment>, i: int, j: int)
    requires
        0 <= i <= j <= segs.len(),
        j <= MAX_SEGMENTS,
        forall|k: int| 0 <= k < segs.len() ==> rise_of((#[trigger] segs[k]).block_type) <= 0,
    ensures
        frame_after(segs, j).height <= frame_after(segs, i).height,
    decreases j - i,
{
    if i < j {
        lemma_never_rises(segs, i, j - 1);
        lemma_height_is_total_rise(segs, j);
        lemma_height_is_total_rise(segs, j - 1);
    }
}

/// The cursor after the first `i` pieces depends on those pieces alone.
proof fn lemma_frame_after_prefix(a: Seq<TrackSegment>, b: Seq<TrackSegment>, i: int)
    requires
        0 <= i <= a.len(),
        i <= b.len(),
        forall|k: int| 0 <= k < i ==> a[k] == b[k],
    ensures
        frame_after(a, i) == frame_after(b, i),
    decreases i,
{
    if i > 0 {
        lemma_frame_after_prefix(a, b, i - 1);
    }
}

} // verus!
