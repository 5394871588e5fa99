use dwarf_map::chunk::{ChunkData, CHUNK_SIZE, CHUNK_VOLUME};
use dwarf_map::tile::{Tile, TileVisibility, RANDOM_ATLAS_REGIONS};
use dwarf_map::vector::Coord3;

#[test]
fn visibility_table_matches_every_pair() {
    let empty = TileVisibility::Empty;
    let solid = TileVisibility::Solid;
    let glass = TileVisibility::Transparent;
    assert!(!empty.visible(&empty));
    assert!(!empty.visible(&solid));
    assert!(!empty.visible(&glass));
    assert!(solid.visible(&empty));
    assert!(!solid.visible(&solid));
    assert!(solid.visible(&glass));
    assert!(glass.visible(&empty));
    assert!(!glass.visible(&solid));
    assert!(!glass.visible(&glass));
}

#[test]
fn visibility_is_not_symmetric_between_solid_and_transparent() {
    let solid = TileVisibility::Solid;
    let glass = TileVisibility::Transparent;
    assert_ne!(solid.visible(&glass), glass.visible(&solid));
}

#[test]
fn default_tile_is_empty_with_region_zero() {
    let tile = Tile::default();
    assert_eq!(tile.visibility, TileVisibility::Empty);
    assert_eq!(tile.index, 0);
}

#[test]
fn tile_from_sample_picks_the_class() {
    assert_eq!(Tile::from_sample(0, 3), Tile::new(TileVisibility::Solid, 3));
    assert_eq!(Tile::from_sample(1, 2), Tile::new(TileVisibility::Transparent, 2));
}

#[test]
fn random_tile_is_never_empty_and_stays_in_the_atlas_range() {
    let mut seen_solid = false;
    let mut seen_transparent = false;
    for _ in 0..2000 {
        let tile = Tile::random();
        assert_ne!(tile.visibility, TileVisibility::Empty);
        assert!(tile.index < RANDOM_ATLAS_REGIONS);
        seen_solid |= tile.visibility == TileVisibility::Solid;
        seen_transparent |= tile.visibility == TileVisibility::Transparent;
    }
    assert!(seen_solid);
    assert!(seen_transparent);
}

#[test]
fn chunk_constants_agree() {
    assert_eq!(CHUNK_SIZE, 16);
    assert_eq!(CHUNK_VOLUME, CHUNK_SIZE * CHUNK_SIZE * CHUNK_SIZE);
}

#[test]
fn default_chunk_is_all_empty() {
    let chunk = ChunkData::default();
    for x in 0..16 {
        for y in 0..16 {
            for z in 0..16 {
                assert_eq!(*chunk.get_tile_local(Coord3::new(x, y, z)), Tile::default());
            }
        }
    }
}

#[test]
fn set_tile_changes_that_tile_only() {
    let mut chunk = ChunkData::default();
    let stone = Tile::new(TileVisibility::Solid, 2);
    chunk.set_tile_local(Coord3::new(3, 4, 5), stone);
    for x in 0..16 {
        for y in 0..16 {
            for z in 0..16 {
                let expected = if (x, y, z) == (3, 4, 5) { stone } else { Tile::default() };
                assert_eq!(*chunk.get_tile_local(Coord3::new(x, y, z)), expected);
            }
        }
    }
}

#[test]
fn set_tile_reaches_the_corners() {
    let mut chunk = ChunkData::default();
    let first = Tile::new(TileVisibility::Solid, 1);
    let last = Tile::new(TileVisibility::Transparent, 3);
    chunk.set_tile_local(Coord3::new(0, 0, 0), first);
    chunk.set_tile_local(Coord3::new(15, 15, 15), last);
    assert_eq!(*chunk.get_tile_local(Coord3::new(0, 0, 0)), first);
    assert_eq!(*chunk.get_tile_local(Coord3::new(15, 15, 15)), last);
    assert_eq!(*chunk.get_tile_local(Coord3::new(15, 15, 14)), Tile::default());
}

#[test]
fn tile_changed_in_place_is_read_back() {
    let mut chunk = ChunkData::default();
    {
        let tile = chunk.get_tile_local_mut(Coord3::new(7, 0, 9));
        tile.visibility = TileVisibility::Transparent;
        tile.index = 1;
    }
    assert_eq!(
        *chunk.get_tile_local(Coord3::new(7, 0, 9)),
        Tile::new(TileVisibility::Transparent, 1)
    );
    assert_eq!(*chunk.get_tile_local(Coord3::new(9, 0, 7)), Tile::default());
}

#[test]
fn cloned_chunk_holds_the_same_tiles() {
    let mut chunk = ChunkData::default();
    chunk.set_tile_local(Coord3::new(1, 2, 3), Tile::new(TileVisibility::Solid, 1));
    let copy = chunk.clone();
    assert_eq!(
        *copy.get_tile_local(Coord3::new(1, 2, 3)),
        Tile::new(TileVisibility::Solid, 1)
    );
    assert_eq!(*copy.get_tile_local(Coord3::new(3, 2, 1)), Tile::default());
}

#[test]
fn random_chunk_has_no_empty_tile() {
    let chunk = ChunkData::random();
    let mut regions_seen = [false; 4];
    for x in 0..16 {
        for y in 0..16 {
            for z in 0..16 {
                let tile = chunk.get_tile_local(Coord3::new(x, y, z));
                assert_ne!(tile.visibility, TileVisibility::Empty);
                assert!(tile.index < RANDOM_ATLAS_REGIONS);
                regions_seen[tile.index] = true;
            }
        }
    }
    assert_eq!(regions_seen, [true; 4]);
}
