//! Tessellation plans: which vertices a piece's mesh has, what each one stands
//! for in the piece's local frame, and how they are joined into triangles.
//! Coordinates are left to whoever evaluates the plan; the connectivity is
//! fixed here.
use vstd::prelude::*;

use crate::piece::{abs_spec, BlockType};

verus! {

/// Millionths of a radian covered by one arc step at most: ten steps per
/// radian.
pub const ARC_STEP_MICRO: i64 = 100_000;

/// Grid points across and along a bumpy floor.
pub const BUMPY_RESOLUTION: u32 = 20;

/// The most arc steps any `i32` angle can need.
pub const MAX_ARC_STEPS: u32 = 21_475;

/// What a vertex of a tessellation plan stands for.
#[derive(Debug, Clone, Copy, PartialEq, Eq, Structural)]
pub enum VertexRole {
    /// A corner of a straight corridor: left or right edge, near or far end,
    /// floor or wall top.
    Corner { right: bool, far: bool, top: bool },
    /// An edge vertex of a turn at boundary `step` of `steps`: inner or outer
    /// edge, floor or wall top, and whether the bank raises it.
    Arc { step: u32, steps: u32, outer: bool, top: bool, lifted: bool },
    /// A floor point of a `columns` by `rows` grid; only interior points are
    /// displaced.
    Grid { column: u32, row: u32, columns: u32, rows: u32, interior: bool },
}

/// Vertices and a triangle list over them, three indices per triangle.
pub struct MeshPlan {
    pub vertices: Vec<VertexRole>,
    pub indices: Vec<u32>,
}

/// Parameters that describe no physical piece.
#[derive(Debug, Clone, Copy, PartialEq, Eq, Structural)]
pub enum MeshError {
    InvalidParameter,
}

impl MeshPlan {
    /// Every index names a vertex of the plan, and the indices form whole
    /// triangles.
    pub open spec fn well_formed(&self) -> bool {
        &&& self.indices@.len() % 3 == 0
        &&& forall|j: int|
            0 <= j < self.indices@.len() ==> (#[trigger] self.indices@[j] as int)
                < self.vertices@.len()
    }
}

/// The `v`-th corner of a corridor: the floor corners go round from the near
/// left one, then the wall tops in the same order.
pub open spec fn box_corner(v: int) -> VertexRole {
    VertexRole::Corner { right: v % 4 == 1 || v % 4 == 2, far: v % 4 >= 2, top: v >= 4 }
}

/// Floor, left wall and right wall of a corridor, two triangles each.
pub open spec fn box_indices() -> Seq<u32> {
    seq![0u32, 2, 1, 0, 3, 2, 0, 4, 7, 0, 7, 3, 1, 6, 5, 1, 2, 6]
}

/// The plan shared by straight, slope and bumpy-wall corridors.
pub fn box_plan() -> (r: MeshPlan)
    ensures
        r.vertices@ == Seq::new(8, |v: int| box_corner(v)),
        r.indices@ == box_indices(),
        r.well_formed(),
{
    let vertices = vec![
        VertexRole::Corner { right: false, far: false, top: false },
        VertexRole::Corner { right: true, far: false, top: false },
        VertexRole::Corner { right: true, far: true, top: false },
        VertexRole::Corner { right: false, far: true, top: false },
        VertexRole::Corner { right: false, far: false, top: true },
        VertexRole::Corner { right: true, far: false, top: true },
        VertexRole::Corner { right: true, far: true, top: true },
        VertexRole::Corner { right: false, far: true, top: true },
    ];
    let indices: Vec<u32> = vec![0, 2, 1, 0, 3, 2, 0, 4, 7, 0, 7, 3, 1, 6, 5, 1, 2, 6];
    assert(vertices@ =~= Seq::new(8, |v: int| box_corner(v)));
    assert(indices@ =~= box_indices());
    MeshPlan { vertices, indices }
}


proof fn lemma_split(q: int, r: int, d: int)
    requires
        0 < d,
        0 <= r < d,
    ensures
        (q * d + r) / d == q,
        (q * d + r) % d == r,
{
    vstd::arithmetic::div_mod::lemma_fundamental_div_mod_converse(q * d + r, d, q, r);
}

/// Offsets, from the first vertex of an arc step, of the six triangles that
/// join it to the next step: floor, inner wall, outer wall.
pub open spec fn arc_pattern() -> Seq<u32> {
    seq![0u32, 4, 2, 2, 4, 6, 0, 1, 4, 1, 5, 4, 2, 6, 3, 3, 6, 7]
}

/// Each step boundary holds four vertices: inner floor, inner top, outer
/// floor, outer top. On a banked turn the inner ones strictly between the
/// two ends are lifted.
pub open spec fn arc_vertex(v: int, steps: int, banked: bool) -> VertexRole {
    let step = v / 4;
    let outer = v % 4 >= 2;
    VertexRole::Arc {
        step: step as u32,
        steps: steps as u32,
        outer,
        top: v % 2 == 1,
        lifted: banked && !outer && 0 < step < steps,
    }
}

pub open spec fn arc_index(j: int) -> u32 {
    (4 * (j / 18) + arc_pattern()[j % 18]) as u32
}

fn arc_offset(k: u32) -> (r: u32)
    requires
        k < 18,
    ensures
        r == arc_pattern()[k as int],
{
    match k {
        0 => 0,
        1 => 4,
        2 => 2,
        3 => 2,
        4 => 4,
        5 => 6,
        6 => 0,
        7 => 1,
        8 => 4,
        9 => 1,
        10 => 5,
        11 => 4,
        12 => 2,
        13 => 6,
        14 => 3,
        15 => 3,
        16 => 6,
        _ => 7,
    }
}

/// The plan of a turn cut into `steps` angular steps.
pub fn arc_plan(steps: u32, banked: bool) -> (r: MeshPlan)
    requires
        1 <= steps <= MAX_ARC_STEPS,
    ensures
        r.vertices@ == Seq::new((4 * (steps + 1)) as nat, |v: int| arc_vertex(v, steps as int, banked)),
        r.indices@ == Seq::new((18 * steps) as nat, |j: int| arc_index(j)),
        r.well_formed(),
{
    let mut vertices: Vec<VertexRole> = Vec::new();
    let mut indices: Vec<u32> = Vec::new();
    let mut i: u32 = 0;
    while i <= steps
        invariant
            1 <= steps <= MAX_ARC_STEPS,
            i <= steps + 1,
            vertices@ == Seq::new((4 * i) as nat, |v: int| arc_vertex(v, steps as int, banked)),
            indices@ == Seq::new((18 * (if i <= steps { i } else { steps })) as nat, |j: int| arc_index(j)),
        decreases steps + 1 - i,
    {
        let lifted = banked && 0 < i && i < steps;
        let mut k: u32 = 0;
        while k < 4
            invariant
                i <= steps <= MAX_ARC_STEPS,
                k <= 4,
                lifted == (banked && 0 < i < steps),
                vertices@ == Seq::new((4 * i + k) as nat, |v: int| arc_vertex(v, steps as int, banked)),
            decreases 4 - k,
        {
            proof {
                lemma_split(i as int, k as int, 4);
            }
            let outer = k >= 2;
            vertices.push(VertexRole::Arc {
                step: i,
                steps,
                outer,
                top: k % 2 == 1,
                lifted: lifted && !outer,
            });
            k += 1;
            assert(vertices@ =~= Seq::new((4 * i + k) as nat, |v: int| arc_vertex(v, steps as int, banked)));
        }
        if i < steps {
            let base = 4 * i;
            let mut k: u32 = 0;
            while k < 18
                invariant
                    i < steps <= MAX_ARC_STEPS,
                    base == 4 * i,
                    k <= 18,
                    indices@ == Seq::new((18 * i + k) as nat, |j: int| arc_index(j)),
                decreases 18 - k,
            {
                proof {
                    lemma_split(i as int, k as int, 18);
                }
                let off = arc_offset(k);
                indices.push(base + off);
                k += 1;
                assert(indices@ =~= Seq::new((18 * i + k) as nat, |j: int| arc_index(j)));
            }
        }
        i += 1;
    }
    let r = MeshPlan { vertices, indices };
    assert forall|j: int| 0 <= j < r.indices@.len() implies (#[trigger] r.indices@[j] as int) < r.vertices@.len() by {
        let q = j / 18;
        let m = j % 18;
        assert(0 <= q < steps) by (nonlinear_arith)
            requires
                0 <= j < 18 * steps,
                q == j / 18,
        ;
        assert(arc_pattern()[m] <= 7);
    }
    assert((18 * steps) % 3 == 0) by (nonlinear_arith);
    r
}


/// Grid points row by row (a row runs across the corridor), then the four
/// wall-top corners of the corridor.
pub open spec fn grid_vertex(v: int, columns: int, rows: int) -> VertexRole {
    if v < columns * rows {
        let row = v / columns;
        let column = v % columns;
        VertexRole::Grid {
            column: column as u32,
            row: row as u32,
            columns: columns as u32,
            rows: rows as u32,
            interior: 0 < column < columns - 1 && 0 < row < rows - 1,
        }
    } else {
        box_corner(v - columns * rows + 4)
    }
}

/// Corner `k` of the two triangles of grid cell `q` (cells run row by row).
pub open spec fn grid_cell_index(columns: int, q: int, k: int) -> int {
    let near = (q / (columns - 1)) * columns + q % (columns - 1);
    let far = near + columns;
    if k == 0 {
        near
    } else if k == 1 {
        far
    } else if k == 2 || k == 3 {
        near + 1
    } else if k == 4 {
        far
    } else {
        far + 1
    }
}

/// The two side walls of a bumpy piece, from the floor's edge points to the
/// wall-top corners.
pub open spec fn grid_wall_indices(columns: int, rows: int) -> Seq<int> {
    let n = columns * rows + 4;
    seq![
        0,
        n - 4,
        n - 1,
        0,
        n - 1,
        columns * (rows - 1),
        columns * rows - 1,
        n - 2,
        n - 3,
        columns - 1,
        columns * rows - 1,
        n - 3,
    ]
}

pub open spec fn grid_cells(columns: int, rows: int) -> int {
    (columns - 1) * (rows - 1)
}

pub open spec fn grid_index(j: int, columns: int, rows: int) -> u32 {
    if j < 6 * grid_cells(columns, rows) {
        grid_cell_index(columns, j / 6, j % 6) as u32
    } else {
        grid_wall_indices(columns, rows)[j - 6 * grid_cells(columns, rows)] as u32
    }
}


proof fn lemma_grid_point(row: int, column: int, columns: int, rows: int)
    requires
        0 <= row < rows,
        0 <= column < columns,
    ensures
        row * columns + column < columns * rows,
        (row * columns + column) / columns == row,
        (row * columns + column) % columns == column,
{
    assert(row * columns + column < columns * rows) by (nonlinear_arith)
        requires
            0 <= row < rows,
            0 <= column < columns,
    ;
    lemma_split(row, column, columns);
}

/// The plan of a bumpy floor sampled on a `columns` by `rows` grid, with its
/// two side walls.
pub fn grid_plan(columns: u32, rows: u32) -> (r: Result<MeshPlan, MeshError>)
    requires
        columns as int * rows as int + 4 <= u32::MAX,
    ensures
        r is Err <==> (columns < 2 || rows < 2),
        r is Err ==> r == Err::<MeshPlan, MeshError>(MeshError::InvalidParameter),
        r matches Ok(p) ==> {
            &&& p.vertices@ == Seq::new(
                (columns * rows + 4) as nat,
                |v: int| grid_vertex(v, columns as int, rows as int),
            )
            &&& p.indices@ == Seq::new(
                (6 * grid_cells(columns as int, rows as int) + 12) as nat,
                |j: int| grid_index(j, columns as int, rows as int),
            )
            &&& p.well_formed()
        },
{
    if columns < 2 || rows < 2 {
        return Err(MeshError::InvalidParameter);
    }
    let ghost c = columns as int;
    let ghost rs = rows as int;
    let points = columns * rows;
    let n = points + 4;
    let mut vertices: Vec<VertexRole> = Vec::new();
    let mut row: u32 = 0;
    while row < rows
        invariant
            2 <= columns,
            2 <= rows,
            points == c * rs,
            c * rs + 4 <= u32::MAX,
            c == columns,
            rs == rows,
            row <= rows,
            vertices@ == Seq::new((row * columns) as nat, |v: int| grid_vertex(v, c, rs)),
        decreases rows - row,
    {
        let mut column: u32 = 0;
        while column < columns
            invariant
                2 <= columns,
                2 <= rows,
                points == c * rs,
                c * rs + 4 <= u32::MAX,
                c == columns,
                rs == rows,
                row < rows,
                column <= columns,
                vertices@ == Seq::new((row * columns + column) as nat, |v: int| grid_vertex(v, c, rs)),
            decreases columns - column,
        {
            proof {
                lemma_grid_point(row as int, column as int, c, rs);
            }
            let interior = 0 < column && column < columns - 1 && 0 < row && row < rows - 1;
            vertices.push(VertexRole::Grid { column, row, columns, rows, interior });
            column += 1;
            assert(vertices@ =~= Seq::new((row * columns + column) as nat, |v: int| grid_vertex(v, c, rs)));
        }
        assert((row + 1) * columns == row * columns + columns) by (nonlinear_arith);
        row += 1;
    }
    assert(rows * columns == c * rs) by (nonlinear_arith)
        requires
            c == columns,
            rs == rows,
    ;
    vertices.push(VertexRole::Corner { right: false, far: false, top: true });
    vertices.push(VertexRole::Corner { right: true, far: false, top: true });
    vertices.push(VertexRole::Corner { right: true, far: true, top: true });
    vertices.push(VertexRole::Corner { right: false, far: true, top: true });
    assert forall|v: int| c * rs <= v < c * rs + 4 implies #[trigger] grid_vertex(v, c, rs)
        == vertices@[v] by {
        let t = v - c * rs;
        assert(t == 0 || t == 1 || t == 2 || t == 3);
    }
    assert(vertices@ =~= Seq::new((columns * rows + 4) as nat, |v: int| grid_vertex(v, c, rs)));

    let ghost cells = grid_cells(c, rs);
    let mut indices: Vec<u32> = Vec::new();
    let mut row: u32 = 0;
    while row < rows - 1
        invariant
            2 <= columns,
            2 <= rows,
            points == c * rs,
            n == points + 4,
            c * rs + 4 <= u32::MAX,
            c == columns,
            rs == rows,
            cells == (c - 1) * (rs - 1),
            row <= rows - 1,
            indices@ == Seq::new((6 * (row * (columns - 1))) as nat, |j: int| grid_index(j, c, rs)),
            forall|j: int| 0 <= j < indices@.len() ==> (#[trigger] indices@[j] as int) < n,
        decreases rows - 1 - row,
    {
        let mut column: u32 = 0;
        while column < columns - 1
            invariant
                2 <= columns,
                2 <= rows,
                points == c * rs,
                n == points + 4,
                c * rs + 4 <= u32::MAX,
                c == columns,
                rs == rows,
                cells == (c - 1) * (rs - 1),
                row < rows - 1,
                column <= columns - 1,
                indices@ == Seq::new(
                    (6 * (row * (columns - 1) + column)) as nat,
                    |j: int| grid_index(j, c, rs),
                ),
                forall|j: int| 0 <= j < indices@.len() ==> (#[trigger] indices@[j] as int) < n,
            decreases columns - 1 - column,
        {
            let ghost q = row * (c - 1) + column;
            proof {
                lemma_grid_point(row as int + 1, column as int + 1, c, rs);
                lemma_grid_point(row as int, column as int, c - 1, rs - 1);
                assert((row + 1) * c == row * c + c) by (nonlinear_arith);
            }
            let near = row * columns + column;
            let far = near + columns;
            let mut k: u32 = 0;
            while k < 6
                invariant
                    2 <= columns,
                    n == c * rs + 4,
                    c * rs + 4 <= u32::MAX,
                    c == columns,
                    cells == (c - 1) * (rs - 1),
                    0 <= q < cells,
                    q / (c - 1) == row,
                    q % (c - 1) == column,
                    near == row * c + column,
                    far == near + c,
                    far + 1 < c * rs,
                    k <= 6,
                    indices@ == Seq::new((6 * q + k) as nat, |j: int| grid_index(j, c, rs)),
                    forall|j: int| 0 <= j < indices@.len() ==> (#[trigger] indices@[j] as int) < n,
                decreases 6 - k,
            {
                proof {
                    lemma_split(q, k as int, 6);
                    assert(6 * q + k < 6 * cells);
                }
                let value = if k == 0 {
                    near
                } else if k == 1 || k == 4 {
                    far
                } else if k == 2 || k == 3 {
                    near + 1
                } else {
                    far + 1
                };
                indices.push(value);
                k += 1;
                assert(indices@ =~= Seq::new((6 * q + k) as nat, |j: int| grid_index(j, c, rs)));
            }
            column += 1;
        }
        assert((row + 1) * (columns - 1) == row * (columns - 1) + (columns - 1)) by (nonlinear_arith);
        row += 1;
    }
    assert(6 * cells == 6 * ((rows - 1) * (columns - 1))) by (nonlinear_arith)
        requires
            cells == (c - 1) * (rs - 1),
            c == columns,
            rs == rows,
    ;
    assert((rows - 1) * columns == c * (rs - 1)) by (nonlinear_arith)
        requires
            c == columns,
            rs == rows,
    ;
    assert((rows - 1) * columns < c * rs && c < c * rs) by (nonlinear_arith)
        requires
            2 <= c,
            2 <= rs,
            c == columns,
            rs == rows,
    ;
    let walls: Vec<u32> = vec![
        0,
        n - 4,
        n - 1,
        0,
        n - 1,
        (rows - 1) * columns,
        points - 1,
        n - 2,
        n - 3,
        columns - 1,
        points - 1,
        n - 3,
    ];
    let ghost start = 6 * cells;
    let mut w: usize = 0;
    while w < 12
        invariant
            walls@.len() == 12,
            forall|t: int| 0 <= t < 12 ==> walls@[t] as int == #[trigger] grid_wall_indices(c, rs)[t],
            forall|t: int| 0 <= t < 12 ==> (#[trigger] walls@[t] as int) < n,
            start == 6 * grid_cells(c, rs),
            start >= 0,
            w <= 12,
            n == c * rs + 4,
            2 <= c,
            2 <= rs,
            indices@ == Seq::new((start + w) as nat, |j: int| grid_index(j, c, rs)),
            forall|j: int| 0 <= j < indices@.len() ==> (#[trigger] indices@[j] as int) < n,
        decreases 12 - w,
    {
        indices.push(walls[w]);
        w += 1;
        assert(indices@ =~= Seq::new((start + w) as nat, |j: int| grid_index(j, c, rs)));
    }
    assert((6 * cells + 12) % 3 == 0) by (nonlinear_arith)
        requires
            cells == (c - 1) * (rs - 1),
    ;
    Ok(MeshPlan { vertices, indices })
}


/// A bank leaves both ends of a turn flat, so a banked turn meets its
/// neighbours at floor level.
pub proof fn lemma_bank_flat_at_ends(v: int, steps: int)
    requires
        0 <= v,
        v / 4 == 0 || v / 4 == steps,
    ensures
        !arc_vertex(v, steps, true)->Arc_lifted,
{
}

/// The border of a bumpy floor stays flat, so it meets its neighbours and its
/// walls seamlessly.
pub proof fn lemma_grid_border_flat(v: int, columns: int, rows: int)
    requires
        0 <= v < columns * rows,
        v % columns == 0 || v % columns == columns - 1 || v / columns == 0 || v / columns == rows
            - 1,
    ensures
        !grid_vertex(v, columns, rows)->Grid_interior,
{
}

/// Angular steps of a turn through `angle`: one per tenth of a radian begun,
/// and at least one.
pub open spec fn arc_steps_spec(angle: int) -> int {
    let step = ARC_STEP_MICRO as int;
    let begun = (abs_spec(angle) + step - 1) / step;
    if begun < 1 { 1 } else { begun }
}

pub fn arc_steps(angle: i32) -> (r: u32)
    ensures
        r == arc_steps_spec(angle as int),
        1 <= r <= MAX_ARC_STEPS,
{
    let a = angle as i64;
    let magnitude: i64 = if a < 0 { -a } else { a };
    let begun = (magnitude + ARC_STEP_MICRO - 1) / ARC_STEP_MICRO;
    if begun < 1 {
        1
    } else {
        begun as u32
    }
}

/// Whether a piece's parameters describe a physical piece: lengths are not
/// negative and turn radii are positive.
pub open spec fn block_valid(block: BlockType) -> bool {
    match block {
        BlockType::Straight { length } => length >= 0,
        BlockType::Turn { radius, .. } => radius > 0,
        BlockType::BankedTurn { radius, .. } => radius > 0,
        BlockType::Slope { length, .. } => length >= 0,
        BlockType::Bumpy { length, .. } => length >= 0,
    }
}

pub open spec fn block_vertex_count(block: BlockType) -> int {
    match block {
        BlockType::Turn { angle, .. } => 4 * (arc_steps_spec(angle as int) + 1),
        BlockType::BankedTurn { angle, .. } => 4 * (arc_steps_spec(angle as int) + 1),
        BlockType::Bumpy { .. } => BUMPY_RESOLUTION * BUMPY_RESOLUTION + 4,
        _ => 8,
    }
}

/// The `v`-th vertex of a piece's plan.
pub open spec fn block_vertex(block: BlockType, v: int) -> VertexRole {
    match block {
        BlockType::Turn { angle, .. } => arc_vertex(v, arc_steps_spec(angle as int), false),
        BlockType::BankedTurn { angle, .. } => arc_vertex(v, arc_steps_spec(angle as int), true),
        BlockType::Bumpy { .. } => grid_vertex(v, BUMPY_RESOLUTION as int, BUMPY_RESOLUTION as int),
        _ => box_corner(v),
    }
}

pub open spec fn block_index_count(block: BlockType) -> int {
    match block {
        BlockType::Turn { angle, .. } => 18 * arc_steps_spec(angle as int),
        BlockType::BankedTurn { angle, .. } => 18 * arc_steps_spec(angle as int),
        BlockType::Bumpy { .. } => 6 * grid_cells(BUMPY_RESOLUTION as int, BUMPY_RESOLUTION as int)
            + 12,
        _ => 18,
    }
}

/// The `j`-th entry of a piece's triangle list.
pub open spec fn block_index(block: BlockType, j: int) -> u32 {
    match block {
        BlockType::Turn { .. } => arc_index(j),
        BlockType::BankedTurn { .. } => arc_index(j),
        BlockType::Bumpy { .. } => grid_index(j, BUMPY_RESOLUTION as int, BUMPY_RESOLUTION as int),
        _ => box_indices()[j],
    }
}

/// The tessellation plan of one piece, or `InvalidParameter` where its
/// parameters describe no physical piece.
pub fn mesh_plan_for_block(block: BlockType) -> (r: Result<MeshPlan, MeshError>)
    ensures
        r is Ok <==> block_valid(block),
        r is Err ==> r == Err::<MeshPlan, MeshError>(MeshError::InvalidParameter),
        r matches Ok(p) ==> {
            &&& p.vertices@ == Seq::new(
                block_vertex_count(block) as nat,
                |v: int| block_vertex(block, v),
            )
            &&& p.indices@ == Seq::new(
                block_index_count(block) as nat,
                |j: int| block_index(block, j),
            )
            &&& p.well_formed()
        },
{
    match block {
        BlockType::Straight { length } | BlockType::Slope { length, .. } => {
            if length < 0 {
                return Err(MeshError::InvalidParameter);
            }
            let p = box_plan();
            assert(p.indices@ =~= Seq::new(18, |j: int| block_index(block, j)));
            Ok(p)
        },
        BlockType::Turn { angle, radius } => {
            if radius <= 0 {
                return Err(MeshError::InvalidParameter);
            }
            Ok(arc_plan(arc_steps(angle), false))
        },
        BlockType::BankedTurn { angle, radius, .. } => {
            if radius <= 0 {
                return Err(MeshError::InvalidParameter);
            }
            Ok(arc_plan(arc_steps(angle), true))
        },
        BlockType::Bumpy { length, .. } => {
            if length < 0 {
                return Err(MeshError::InvalidParameter);
            }
            grid_plan(BUMPY_RESOLUTION, BUMPY_RESOLUTION)
        },
    }
}

} // verus!
