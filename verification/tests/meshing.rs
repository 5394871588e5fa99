use dwarf_map::chunk::ChunkData;
use dwarf_map::meshing::{generate_mesh, Neighbors};
use dwarf_map::temp_mesh::TriangleMesh;
use dwarf_map::tile::{Tile, TileVisibility};
use dwarf_map::tile_atlas::{Region, TileAtlas};
use dwarf_map::vector::{Coord3, Uv, Vec3i};

fn atlas() -> TileAtlas {
    TileAtlas::new(
        vec![
            Region { min_x: 0, min_y: 0, max_x: 32, max_y: 32 },
            Region { min_x: 32, min_y: 0, max_x: 64, max_y: 32 },
            Region { min_x: 0, min_y: 32, max_x: 32, max_y: 64 },
            Region { min_x: 32, min_y: 32, max_x: 64, max_y: 64 },
        ],
        64,
        64,
    )
}

fn solid(index: usize) -> Tile {
    Tile::new(TileVisibility::Solid, index)
}

fn glass(index: usize) -> Tile {
    Tile::new(TileVisibility::Transparent, index)
}

fn alone() -> Neighbors<'static> {
    Neighbors { right: None, left: None, front: None, back: None, top: None, bottom: None }
}

fn mesh_all(chunk: &ChunkData, around: &Neighbors) -> Vec<(TriangleMesh, TriangleMesh)> {
    let atlas = atlas();
    assert!(chunk.textured_by(
        around.right,
        around.left,
        around.front,
        around.back,
        around.top,
        around.bottom,
        &atlas
    ));
    let mut meshes = Vec::new();
    chunk.gen_meshes(
        around.right,
        around.left,
        around.front,
        around.back,
        around.top,
        around.bottom,
        &atlas,
        &mut meshes,
    );
    meshes
}

fn faces(mesh: &TriangleMesh) -> usize {
    assert_eq!(mesh.positions().len() % 4, 0);
    assert_eq!(mesh.normals().len(), mesh.positions().len());
    assert_eq!(mesh.uv().len(), mesh.positions().len());
    assert_eq!(mesh.indices().len() / 6 * 4, mesh.positions().len());
    assert_eq!(mesh.indices().len() % 6, 0);
    for (at, index) in mesh.indices().iter().enumerate() {
        let face = at / 6;
        assert!(4 * face <= *index as usize && (*index as usize) < 4 * face + 4);
    }
    mesh.positions().len() / 4
}

fn normals_of(mesh: &TriangleMesh) -> Vec<Vec3i> {
    mesh.normals().chunks(4).map(|quad| quad[0]).collect()
}

#[test]
fn single_solid_tile_emits_six_faces() {
    let mut chunk = ChunkData::default();
    chunk.set_tile_local(Coord3::new(5, 7, 9), solid(0));
    let meshes = mesh_all(&chunk, &alone());
    assert_eq!(meshes.len(), 16);
    for (layer, (floor_wall, ceiling)) in meshes.iter().enumerate() {
        if layer == 7 {
            assert_eq!(faces(ceiling), 1);
            assert_eq!(faces(floor_wall), 5);
        } else {
            assert_eq!(faces(ceiling), 0);
            assert_eq!(faces(floor_wall), 0);
        }
    }
    let (floor_wall, ceiling) = &meshes[7];
    assert_eq!(normals_of(ceiling), [Vec3i::new(0, 1, 0)]);
    assert_eq!(
        normals_of(floor_wall),
        [
            Vec3i::new(0, -1, 0),
            Vec3i::new(1, 0, 0),
            Vec3i::new(-1, 0, 0),
            Vec3i::new(0, 0, -1),
            Vec3i::new(0, 0, 1),
        ]
    );
    assert_eq!(
        ceiling.positions().as_slice(),
        [
            Vec3i::new(9, 1, 17),
            Vec3i::new(11, 1, 17),
            Vec3i::new(11, 1, 19),
            Vec3i::new(9, 1, 19),
        ]
    );
    assert_eq!(ceiling.indices().as_slice(), [0, 3, 1, 1, 3, 2]);
    assert_eq!(
        floor_wall.indices().as_slice(),
        [
            0, 1, 3, 1, 2, 3, 4, 7, 5, 5, 7, 6, 8, 9, 11, 9, 10, 11, 12, 13, 15, 13, 14, 15, 16, 19,
            17, 17, 19, 18,
        ]
    );
}

#[test]
fn single_layer_call_matches_the_whole_chunk_call() {
    let mut chunk = ChunkData::default();
    chunk.set_tile_local(Coord3::new(0, 3, 0), solid(1));
    chunk.set_tile_local(Coord3::new(1, 3, 0), glass(2));
    let around = alone();
    let atlas = atlas();
    assert!(chunk.layer_textured_by(&around, 3, &atlas));
    let (floor_wall, ceiling) = generate_mesh(&chunk, &around, 3, &atlas);
    let meshes = mesh_all(&chunk, &around);
    assert_eq!(floor_wall.positions(), meshes[3].0.positions());
    assert_eq!(floor_wall.indices(), meshes[3].0.indices());
    assert_eq!(floor_wall.uv(), meshes[3].0.uv());
    assert_eq!(ceiling.positions(), meshes[3].1.positions());
    assert_eq!(ceiling.indices(), meshes[3].1.indices());
}

#[test]
fn faces_carry_the_atlas_region_of_their_tile() {
    let mut chunk = ChunkData::default();
    chunk.set_tile_local(Coord3::new(2, 0, 2), solid(3));
    let meshes = mesh_all(&chunk, &alone());
    let corner = |u: u32, v: u32| Uv { u, v, width: 64, height: 64 };
    let expected = [corner(32, 32), corner(32, 64), corner(64, 64), corner(64, 32)];
    assert_eq!(meshes[0].1.uv().as_slice(), expected);
    for quad in meshes[0].0.uv().chunks(4) {
        assert_eq!(quad, expected);
    }
}

#[test]
fn solid_neighbours_hide_the_faces_between_them() {
    let mut chunk = ChunkData::default();
    chunk.set_tile_local(Coord3::new(4, 4, 4), solid(0));
    chunk.set_tile_local(Coord3::new(5, 4, 4), solid(0));
    let meshes = mesh_all(&chunk, &alone());
    let (floor_wall, ceiling) = &meshes[4];
    assert_eq!(faces(ceiling), 2);
    assert_eq!(faces(floor_wall), 8);
    assert_eq!(
        normals_of(floor_wall),
        [
            Vec3i::new(0, -1, 0),
            Vec3i::new(-1, 0, 0),
            Vec3i::new(0, 0, -1),
            Vec3i::new(0, 0, 1),
            Vec3i::new(0, -1, 0),
            Vec3i::new(1, 0, 0),
            Vec3i::new(0, 0, -1),
            Vec3i::new(0, 0, 1),
        ]
    );
}

#[test]
fn stacked_tiles_hide_ceiling_and_bottom_between_them() {
    let mut chunk = ChunkData::default();
    chunk.set_tile_local(Coord3::new(4, 4, 4), solid(0));
    chunk.set_tile_local(Coord3::new(4, 5, 4), solid(0));
    let meshes = mesh_all(&chunk, &alone());
    assert_eq!(faces(&meshes[4].1), 0);
    assert_eq!(faces(&meshes[4].0), 5);
    assert_eq!(faces(&meshes[5].1), 1);
    assert_eq!(faces(&meshes[5].0), 4);
    assert!(!normals_of(&meshes[5].0).contains(&Vec3i::new(0, -1, 0)));
}

#[test]
fn solid_draws_against_transparent_but_not_the_other_way() {
    let mut chunk = ChunkData::default();
    chunk.set_tile_local(Coord3::new(4, 4, 4), solid(0));
    chunk.set_tile_local(Coord3::new(5, 4, 4), glass(1));
    let meshes = mesh_all(&chunk, &alone());
    let (floor_wall, ceiling) = &meshes[4];
    assert_eq!(faces(ceiling), 2);
    assert_eq!(faces(floor_wall), 9);
    let normals = normals_of(floor_wall);
    assert_eq!(normals[..5].iter().filter(|n| **n == Vec3i::new(1, 0, 0)).count(), 1);
    assert_eq!(normals[5..].iter().filter(|n| **n == Vec3i::new(-1, 0, 0)).count(), 0);
    assert_eq!(normals[5..].len(), 4);
}

#[test]
fn transparent_tiles_hide_the_faces_between_them() {
    let mut chunk = ChunkData::default();
    chunk.set_tile_local(Coord3::new(4, 4, 4), glass(0));
    chunk.set_tile_local(Coord3::new(4, 4, 5), glass(0));
    let meshes = mesh_all(&chunk, &alone());
    assert_eq!(faces(&meshes[4].1), 2);
    assert_eq!(faces(&meshes[4].0), 8);
}

#[test]
fn empty_chunk_emits_nothing() {
    let meshes = mesh_all(&ChunkData::default(), &alone());
    assert_eq!(meshes.len(), 16);
    for (floor_wall, ceiling) in &meshes {
        assert_eq!(faces(floor_wall), 0);
        assert_eq!(faces(ceiling), 0);
    }
}

fn full(tile: Tile) -> ChunkData {
    let mut chunk = ChunkData::default();
    for x in 0..16 {
        for y in 0..16 {
            for z in 0..16 {
                chunk.set_tile_local(Coord3::new(x, y, z), tile);
            }
        }
    }
    chunk
}

#[test]
fn full_chunk_in_open_space_draws_its_hull() {
    let chunk = full(solid(0));
    let meshes = mesh_all(&chunk, &alone());
    for (layer, (floor_wall, ceiling)) in meshes.iter().enumerate() {
        let ceilings = if layer == 15 { 256 } else { 0 };
        let bottoms = if layer == 0 { 256 } else { 0 };
        assert_eq!(faces(ceiling), ceilings);
        assert_eq!(faces(floor_wall), bottoms + 4 * 16);
    }
}

#[test]
fn full_chunk_between_full_neighbours_draws_nothing() {
    let chunk = full(solid(0));
    let other = full(solid(1));
    let around = Neighbors {
        right: Some(&other),
        left: Some(&other),
        front: Some(&other),
        back: Some(&other),
        top: Some(&other),
        bottom: Some(&other),
    };
    for (floor_wall, ceiling) in &mesh_all(&chunk, &around) {
        assert_eq!(faces(floor_wall), 0);
        assert_eq!(faces(ceiling), 0);
    }
}

fn one_side_open(open: usize) -> Vec<(TriangleMesh, TriangleMesh)> {
    let chunk = full(solid(0));
    let other = full(solid(1));
    let side = |slot: usize| if slot == open { None } else { Some(&other) };
    let around = Neighbors {
        right: side(0),
        left: side(1),
        front: side(2),
        back: side(3),
        top: side(4),
        bottom: side(5),
    };
    mesh_all(&chunk, &around)
}

#[test]
fn a_missing_neighbour_opens_exactly_its_side() {
    let sides = [
        Vec3i::new(1, 0, 0),
        Vec3i::new(-1, 0, 0),
        Vec3i::new(0, 0, -1),
        Vec3i::new(0, 0, 1),
    ];
    for (open, normal) in sides.iter().enumerate() {
        for (floor_wall, ceiling) in &one_side_open(open) {
            assert_eq!(faces(ceiling), 0);
            assert_eq!(normals_of(floor_wall), vec![*normal; 16]);
        }
    }
    for (layer, (floor_wall, ceiling)) in one_side_open(4).iter().enumerate() {
        assert_eq!(faces(floor_wall), 0);
        assert_eq!(faces(ceiling), if layer == 15 { 256 } else { 0 });
    }
    for (layer, (floor_wall, ceiling)) in one_side_open(5).iter().enumerate() {
        assert_eq!(faces(ceiling), 0);
        assert_eq!(faces(floor_wall), if layer == 0 { 256 } else { 0 });
    }
}

#[test]
fn the_neighbour_tile_across_the_side_is_the_one_consulted() {
    let mut chunk = ChunkData::default();
    chunk.set_tile_local(Coord3::new(15, 2, 6), solid(0));
    let mut right = ChunkData::default();
    right.set_tile_local(Coord3::new(0, 2, 6), solid(0));
    let mut around = alone();
    around.right = Some(&right);
    let meshes = mesh_all(&chunk, &around);
    assert_eq!(faces(&meshes[2].0), 4);
    assert!(!normals_of(&meshes[2].0).contains(&Vec3i::new(1, 0, 0)));

    let mut elsewhere = ChunkData::default();
    elsewhere.set_tile_local(Coord3::new(15, 2, 6), solid(0));
    elsewhere.set_tile_local(Coord3::new(0, 2, 5), solid(0));
    elsewhere.set_tile_local(Coord3::new(0, 3, 6), solid(0));
    around.right = Some(&elsewhere);
    let meshes = mesh_all(&chunk, &around);
    assert_eq!(faces(&meshes[2].0), 5);
}

#[test]
fn vertical_neighbours_meet_at_their_touching_layers() {
    let mut chunk = ChunkData::default();
    chunk.set_tile_local(Coord3::new(3, 15, 3), solid(0));
    chunk.set_tile_local(Coord3::new(3, 0, 3), solid(0));
    let mut top = ChunkData::default();
    top.set_tile_local(Coord3::new(3, 0, 3), solid(0));
    let mut bottom = ChunkData::default();
    bottom.set_tile_local(Coord3::new(3, 15, 3), solid(0));
    let mut around = alone();
    around.top = Some(&top);
    let meshes = mesh_all(&chunk, &around);
    assert_eq!(faces(&meshes[15].1), 0);
    assert_eq!(faces(&meshes[15].0), 5);
    assert_eq!(faces(&meshes[0].1), 1);
    assert_eq!(faces(&meshes[0].0), 5);
    around.top = None;
    around.bottom = Some(&bottom);
    let meshes = mesh_all(&chunk, &around);
    assert_eq!(faces(&meshes[15].1), 1);
    assert_eq!(faces(&meshes[0].0), 4);
    assert!(!normals_of(&meshes[0].0).contains(&Vec3i::new(0, -1, 0)));
}

#[test]
fn front_and_back_neighbours_meet_at_their_touching_rows() {
    let mut chunk = ChunkData::default();
    chunk.set_tile_local(Coord3::new(3, 1, 0), solid(0));
    chunk.set_tile_local(Coord3::new(3, 1, 15), solid(0));
    let mut front = ChunkData::default();
    front.set_tile_local(Coord3::new(3, 1, 15), solid(0));
    let mut back = ChunkData::default();
    back.set_tile_local(Coord3::new(3, 1, 0), solid(0));
    let mut around = alone();
    around.front = Some(&front);
    around.back = Some(&back);
    let meshes = mesh_all(&chunk, &around);
    let normals = normals_of(&meshes[1].0);
    assert_eq!(normals.len(), 8);
    assert_eq!(normals[..4].iter().filter(|n| **n == Vec3i::new(0, 0, -1)).count(), 0);
    assert_eq!(normals[..4].iter().filter(|n| **n == Vec3i::new(0, 0, 1)).count(), 1);
    assert_eq!(normals[4..].iter().filter(|n| **n == Vec3i::new(0, 0, 1)).count(), 0);
    assert_eq!(normals[4..].iter().filter(|n| **n == Vec3i::new(0, 0, -1)).count(), 1);
}

#[test]
fn neighbour_visibilities_come_in_scan_order() {
    let mut chunk = ChunkData::default();
    chunk.set_tile_local(Coord3::new(5, 6, 5), solid(0));
    chunk.set_tile_local(Coord3::new(5, 4, 5), glass(0));
    chunk.set_tile_local(Coord3::new(6, 5, 5), solid(0));
    chunk.set_tile_local(Coord3::new(5, 5, 4), glass(0));
    let found = chunk.neighbor_visibilities(&alone(), 5, 5, 5);
    assert_eq!(
        found,
        [
            TileVisibility::Solid,
            TileVisibility::Transparent,
            TileVisibility::Solid,
            TileVisibility::Empty,
            TileVisibility::Transparent,
            TileVisibility::Empty,
        ]
    );
}

#[test]
fn tiles_are_scanned_row_by_row() {
    let mut chunk = ChunkData::default();
    chunk.set_tile_local(Coord3::new(1, 0, 0), solid(0));
    chunk.set_tile_local(Coord3::new(0, 0, 2), solid(0));
    let meshes = mesh_all(&chunk, &alone());
    let ceiling = &meshes[0].1;
    assert_eq!(faces(ceiling), 2);
    assert_eq!(ceiling.positions()[0], Vec3i::new(-1, 1, 3));
    assert_eq!(ceiling.positions()[4], Vec3i::new(1, 1, -1));
}

#[test]
fn a_drawn_tile_outside_the_atlas_is_reported() {
    let mut chunk = ChunkData::default();
    chunk.set_tile_local(Coord3::new(1, 2, 3), solid(4));
    let around = alone();
    let atlas = atlas();
    assert!(!chunk.textured_by(None, None, None, None, None, None, &atlas));
    assert!(!chunk.layer_textured_by(&around, 2, &atlas));
    assert!(chunk.layer_textured_by(&around, 1, &atlas));
}

#[test]
fn an_undrawn_tile_outside_the_atlas_does_no_harm() {
    let mut chunk = full(solid(0));
    chunk.set_tile_local(Coord3::new(8, 8, 8), solid(99));
    chunk.set_tile_local(Coord3::new(0, 0, 0), Tile::new(TileVisibility::Empty, 99));
    let meshes = mesh_all(&chunk, &alone());
    assert_eq!(faces(&meshes[8].0), 4 * 16);
}

#[test]
fn meshes_are_appended_after_what_was_there() {
    let mut chunk = ChunkData::default();
    chunk.set_tile_local(Coord3::new(0, 0, 0), solid(0));
    let atlas = atlas();
    let mut meshes = Vec::new();
    chunk.gen_meshes(None, None, None, None, None, None, &atlas, &mut meshes);
    ChunkData::default().gen_meshes(None, None, None, None, None, None, &atlas, &mut meshes);
    assert_eq!(meshes.len(), 32);
    assert_eq!(faces(&meshes[0].0), 5);
    assert_eq!(faces(&meshes[16].0), 0);
}

#[test]
fn neighbours_in_registry_order_land_on_their_sides() {
    let chunks: Vec<ChunkData> = (0..6).map(|_| ChunkData::default()).collect();
    let around = Neighbors::from_slots([
        Some(&chunks[0]),
        Some(&chunks[1]),
        Some(&chunks[2]),
        Some(&chunks[3]),
        Some(&chunks[4]),
        Some(&chunks[5]),
    ]);
    let same = |side: Option<&ChunkData>, chunk: &ChunkData| std::ptr::eq(side.unwrap(), chunk);
    assert!(same(around.right, &chunks[0]));
    assert!(same(around.left, &chunks[1]));
    assert!(same(around.back, &chunks[2]));
    assert!(same(around.front, &chunks[3]));
    assert!(same(around.top, &chunks[4]));
    assert!(same(around.bottom, &chunks[5]));
}

#[test]
fn a_neighbour_in_the_plus_z_slot_closes_the_far_side() {
    let chunk = full(solid(0));
    let other = full(solid(1));
    let around = Neighbors::from_slots([None, None, Some(&other), None, None, None]);
    let meshes = mesh_all(&chunk, &around);
    for (floor_wall, _) in &meshes {
        let normals = normals_of(floor_wall);
        assert!(!normals.contains(&Vec3i::new(0, 0, 1)));
        assert_eq!(normals.iter().filter(|n| **n == Vec3i::new(0, 0, -1)).count(), 16);
    }
}

#[test]
fn no_neighbours_means_open_space_on_every_side() {
    let around = Neighbors::none();
    assert!(around.right.is_none() && around.left.is_none());
    assert!(around.front.is_none() && around.back.is_none());
    assert!(around.top.is_none() && around.bottom.is_none());
}
