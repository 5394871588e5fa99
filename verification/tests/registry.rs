use dwarf_map::cache::{ChunkCache, ChunkCord, ChunkHandle, TileAddress, NEIGHBOR_SLOTS};
use dwarf_map::layers::{layer_elevation, world_layer, CurrentMapLayer, DEFAULT_MAP_LAYER};
use dwarf_map::vector::Coord3;

#[test]
fn new_cache_holds_nothing() {
    let cache = ChunkCache::default();
    assert_eq!(cache.get(&Coord3::new(0, 0, 0)), None);
    assert_eq!(cache.get_neighbors(Coord3::new(1, 1, 1)), [None; 6]);
}

#[test]
fn inserted_chunk_is_found_again() {
    let mut cache = ChunkCache::default();
    cache.insert(Coord3::new(1, 2, 3), ChunkHandle(77));
    assert_eq!(cache.get(&Coord3::new(1, 2, 3)), Some(ChunkHandle(77)));
    assert_eq!(cache.get(&Coord3::new(3, 2, 1)), None);
    assert_eq!(cache.get(&Coord3::new(1, 2, 4)), None);
}

#[test]
fn insert_replaces_what_was_registered() {
    let mut cache = ChunkCache::default();
    cache.insert(Coord3::new(1, 2, 3), ChunkHandle(77));
    cache.insert(Coord3::new(4, 5, 6), ChunkHandle(78));
    cache.insert(Coord3::new(1, 2, 3), ChunkHandle(79));
    assert_eq!(cache.get(&Coord3::new(1, 2, 3)), Some(ChunkHandle(79)));
    assert_eq!(cache.get(&Coord3::new(4, 5, 6)), Some(ChunkHandle(78)));
}

#[test]
fn neighbours_of_the_origin_chunk() {
    let mut cache = ChunkCache::default();
    cache.insert(Coord3::new(0, 0, 0), ChunkHandle(1));
    cache.insert(Coord3::new(1, 0, 0), ChunkHandle(2));
    let found = cache.get_neighbors(Coord3::new(0, 0, 0));
    assert_eq!(found[0], Some(ChunkHandle(2)));
    assert_eq!(found[1], None);
    assert_eq!(found, [Some(ChunkHandle(2)), None, None, None, None, None]);
    let found = cache.get_neighbors(Coord3::new(1, 0, 0));
    assert_eq!(found, [None, Some(ChunkHandle(1)), None, None, None, None]);
}

#[test]
fn coordinates_do_not_wrap_at_the_low_end() {
    let mut cache = ChunkCache::default();
    cache.insert(Coord3::new(u32::MAX, 0, 0), ChunkHandle(1));
    cache.insert(Coord3::new(0, u32::MAX, 0), ChunkHandle(2));
    cache.insert(Coord3::new(0, 0, u32::MAX), ChunkHandle(3));
    assert_eq!(cache.get_neighbors(Coord3::new(0, 0, 0)), [None; 6]);
}

#[test]
fn coordinates_do_not_wrap_at_the_high_end() {
    let mut cache = ChunkCache::default();
    cache.insert(Coord3::new(0, 5, 5), ChunkHandle(1));
    cache.insert(Coord3::new(5, 0, 5), ChunkHandle(2));
    cache.insert(Coord3::new(5, 5, 0), ChunkHandle(3));
    assert_eq!(cache.get_neighbors(Coord3::new(u32::MAX, 5, 5))[0], None);
    assert_eq!(cache.get_neighbors(Coord3::new(5, u32::MAX, 5))[4], None);
    assert_eq!(cache.get_neighbors(Coord3::new(5, 5, u32::MAX))[2], None);
}

#[test]
fn neighbours_come_in_the_fixed_order() {
    assert_eq!(NEIGHBOR_SLOTS, 6);
    let mut cache = ChunkCache::default();
    cache.insert(Coord3::new(6, 5, 5), ChunkHandle(10));
    cache.insert(Coord3::new(4, 5, 5), ChunkHandle(11));
    cache.insert(Coord3::new(5, 5, 6), ChunkHandle(12));
    cache.insert(Coord3::new(5, 5, 4), ChunkHandle(13));
    cache.insert(Coord3::new(5, 6, 5), ChunkHandle(14));
    cache.insert(Coord3::new(5, 4, 5), ChunkHandle(15));
    cache.insert(Coord3::new(5, 5, 5), ChunkHandle(16));
    assert_eq!(
        cache.get_neighbors(Coord3::new(5, 5, 5)),
        [
            Some(ChunkHandle(10)),
            Some(ChunkHandle(11)),
            Some(ChunkHandle(12)),
            Some(ChunkHandle(13)),
            Some(ChunkHandle(14)),
            Some(ChunkHandle(15)),
        ]
    );
}

#[test]
fn world_tile_resolves_to_chunk_and_local_place() {
    let mut cache = ChunkCache::default();
    cache.insert(Coord3::new(1, 0, 2), ChunkHandle(5));
    assert_eq!(
        cache.get_tile(Coord3::new(17, 3, 40)),
        Some(TileAddress {
            tile: Coord3::new(17, 3, 40),
            local_tile: Coord3::new(1, 3, 8),
            chunk: ChunkHandle(5),
        })
    );
    assert_eq!(cache.get_tile(Coord3::new(31, 15, 47)).map(|a| a.local_tile), Some(Coord3::new(15, 15, 15)));
    assert_eq!(cache.get_tile(Coord3::new(32, 3, 40)), None);
    assert_eq!(cache.get_tile(Coord3::new(17, 16, 40)), None);
}

#[test]
fn chunk_cord_wraps_a_lattice_place() {
    let cord = ChunkCord(Coord3::new(1, 2, 3));
    assert_eq!(cord.0.y, 2);
    assert_eq!(cord, ChunkCord(Coord3 { x: 1, y: 2, z: 3 }));
}

#[test]
fn layers_are_numbered_through_the_chunks() {
    assert_eq!(world_layer(0, 0), 0);
    assert_eq!(world_layer(0, 15), 15);
    assert_eq!(world_layer(2, 3), 35);
}

#[test]
fn layers_are_placed_around_the_chunk_centre() {
    assert_eq!(layer_elevation(0), -8);
    assert_eq!(layer_elevation(8), 0);
    assert_eq!(layer_elevation(15), 7);
}

#[test]
fn inspected_layer_decides_what_shows() {
    let current = CurrentMapLayer::default();
    assert_eq!(current.0, 8);
    assert_eq!(DEFAULT_MAP_LAYER, 8);
    assert!(current.shows_floor_wall(0));
    assert!(current.shows_floor_wall(8));
    assert!(!current.shows_floor_wall(9));
    assert!(current.shows_ceiling(8));
    assert!(!current.shows_ceiling(7));
    assert!(!current.shows_ceiling(9));
}
