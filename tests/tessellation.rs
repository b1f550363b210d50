use racetrack::mesh::{
    arc_plan, arc_steps, box_plan, grid_plan, mesh_plan_for_block, MeshError, MeshPlan,
    VertexRole, BUMPY_RESOLUTION,
};
use racetrack::piece::BlockType;

fn indices_in_range(p: &MeshPlan) -> bool {
    p.indices.len() % 3 == 0 && p.indices.iter().all(|&i| (i as usize) < p.vertices.len())
}

#[test]
fn corridor_plan() {
    let p = box_plan();
    assert_eq!(p.vertices.len(), 8);
    assert_eq!(p.indices, vec![0, 2, 1, 0, 3, 2, 0, 4, 7, 0, 7, 3, 1, 6, 5, 1, 2, 6]);
    assert_eq!(p.vertices[6], VertexRole::Corner { right: true, far: true, top: true });
}

#[test]
fn arc_step_counts() {
    assert_eq!(arc_steps(0), 1);
    assert_eq!(arc_steps(100_000), 1);
    assert_eq!(arc_steps(100_001), 2);
    assert_eq!(arc_steps(-3_441_593), 35);
    assert_eq!(arc_steps(i32::MIN), 21_475);
}

#[test]
fn arc_plan_layout() {
    let p = arc_plan(2, false);
    assert_eq!(p.vertices.len(), 12);
    assert_eq!(p.indices.len(), 36);
    assert_eq!(&p.indices[18..24], &[4, 8, 6, 6, 8, 10]);
    assert_eq!(
        p.vertices[7],
        VertexRole::Arc { step: 1, steps: 2, outer: true, top: true, lifted: false }
    );
    assert!(indices_in_range(&p));
}

#[test]
fn banked_plan_lifts_inner_middle_only() {
    let p = arc_plan(4, true);
    for (v, role) in p.vertices.iter().enumerate() {
        let step = (v / 4) as u32;
        let outer = v % 4 >= 2;
        let expected = !outer && step > 0 && step < 4;
        match role {
            VertexRole::Arc { lifted, .. } => assert_eq!(*lifted, expected),
            _ => panic!("not an arc vertex"),
        }
    }
}

#[test]
fn degenerate_turn_is_rejected() {
    let r = mesh_plan_for_block(BlockType::Turn { angle: 0, radius: 0 });
    assert_eq!(r.err(), Some(MeshError::InvalidParameter));
}

#[test]
fn negative_lengths_are_rejected() {
    for b in [
        BlockType::Straight { length: -1 },
        BlockType::Slope { length: -1, height_change: 0 },
        BlockType::Bumpy { length: -1, pertubation: 0 },
        BlockType::BankedTurn { angle: 100, radius: -5, bank_height: 0 },
    ] {
        assert_eq!(mesh_plan_for_block(b).err(), Some(MeshError::InvalidParameter));
    }
}

#[test]
fn grid_too_coarse_is_rejected() {
    assert_eq!(grid_plan(1, 5).err(), Some(MeshError::InvalidParameter));
    assert_eq!(grid_plan(5, 0).err(), Some(MeshError::InvalidParameter));
}

#[test]
fn smallest_grid() {
    let p = grid_plan(2, 2).ok().unwrap();
    assert_eq!(p.vertices.len(), 8);
    assert_eq!(
        p.indices,
        vec![0, 2, 1, 1, 2, 3, 0, 4, 7, 0, 7, 2, 3, 6, 5, 1, 3, 5]
    );
    assert!(indices_in_range(&p));
}

#[test]
fn grid_interior_points() {
    let p = grid_plan(4, 3).ok().unwrap();
    let interior: Vec<usize> = p
        .vertices
        .iter()
        .enumerate()
        .filter(|(_, r)| matches!(r, VertexRole::Grid { interior: true, .. }))
        .map(|(v, _)| v)
        .collect();
    assert_eq!(interior, vec![5, 6]);
    assert_eq!(
        p.vertices[12],
        VertexRole::Corner { right: false, far: false, top: true }
    );
}

#[test]
fn every_piece_plan_is_well_formed() {
    let blocks = [
        BlockType::Straight { length: 10_000 },
        BlockType::Turn { angle: 1_870_796, radius: 15_000 },
        BlockType::BankedTurn { angle: -3_441_593, radius: 30_000, bank_height: 4381 },
        BlockType::Slope { length: 15_000, height_change: -15_000 },
        BlockType::Bumpy { length: 15_000, pertubation: 400 },
    ];
    let expected_vertices = [8, 4 * 20, 4 * 36, 8, 404];
    let expected_indices = [18, 18 * 19, 18 * 35, 18, 6 * 19 * 19 + 12];
    for (k, b) in blocks.into_iter().enumerate() {
        let p = mesh_plan_for_block(b).ok().unwrap();
        assert_eq!(p.vertices.len(), expected_vertices[k]);
        assert_eq!(p.indices.len(), expected_indices[k]);
        assert!(indices_in_range(&p));
    }
    assert_eq!(BUMPY_RESOLUTION, 20);
}
