// Tests for procedural zone generation.

use geekcraft::game::zone::{ExitDirection, SurfaceType, Zone, ZONE_SIZE};

#[test]
fn test_zone_generation() {
    let zone = Zone::generate("test_zone".to_string(), 12345);

    // Verify zone properties
    assert_eq!(zone.id, "test_zone");
    assert_eq!(zone.tiles.len(), ZONE_SIZE);
    assert_eq!(zone.tiles[0].len(), ZONE_SIZE);
    assert!(zone.exits.len() >= 2 && zone.exits.len() <= 4);
}

#[test]
fn test_deterministic_generation() {
    let zone1 = Zone::generate("zone1".to_string(), 12345);
    let zone2 = Zone::generate("zone1".to_string(), 12345);

    // Same seed should produce same zone
    assert_eq!(zone1.tiles[0][0].surface_type, zone2.tiles[0][0].surface_type);
    assert_eq!(zone1.tiles[15][15].surface_type, zone2.tiles[15][15].surface_type);
    assert_eq!(zone1.exits.len(), zone2.exits.len());
}

#[test]
fn test_different_seeds() {
    let zone1 = Zone::generate("zone1".to_string(), 12345);
    let zone2 = Zone::generate("zone1".to_string(), 54321);

    // Different seeds should produce different zones
    let same_tiles = zone1
        .tiles
        .iter()
        .zip(zone2.tiles.iter())
        .flat_map(|(row1, row2)| row1.iter().zip(row2.iter()))
        .filter(|(t1, t2)| t1.surface_type == t2.surface_type)
        .count();

    // Not all tiles should be the same
    assert!(same_tiles < ZONE_SIZE * ZONE_SIZE);
}

#[test]
fn test_exit_count() {
    for seed in 0..100 {
        let zone = Zone::generate(format!("zone_{}", seed), seed);
        assert!(
            zone.exits.len() >= 2 && zone.exits.len() <= 4,
            "Zone should have 2-4 exits, got {}",
            zone.exits.len()
        );
    }
}

#[test]
fn test_get_tile() {
    let zone = Zone::generate("test_zone".to_string(), 12345);

    // Valid coordinates
    assert!(zone.get_tile(0, 0).is_some());
    assert!(zone.get_tile(29, 29).is_some());

    // Invalid coordinates
    assert!(zone.get_tile(30, 0).is_none());
    assert!(zone.get_tile(0, 30).is_none());
}

#[test]
fn test_surface_type_distribution() {
    let zone = Zone::generate("test_zone".to_string(), 12345);

    let plains = zone.count_surface_type(SurfaceType::Plain);
    let swamps = zone.count_surface_type(SurfaceType::Swamp);
    let obstacles = zone.count_surface_type(SurfaceType::Obstacle);

    // Total should equal zone size
    assert_eq!(plains + swamps + obstacles, ZONE_SIZE * ZONE_SIZE);

    // Each type should be present
    assert!(plains > 0, "Should have some plains");
    assert!(swamps > 0, "Should have some swamps");
    assert!(obstacles > 0, "Should have some obstacles");
}

#[test]
fn test_exits_on_matching_edges() {
    for seed in 0..25 {
        let zone = Zone::generate(format!("edge_{}", seed), seed * 7 + 1);
        for exit in &zone.exits {
            match exit.direction {
                ExitDirection::North => assert_eq!(exit.y, 0),
                ExitDirection::South => assert_eq!(exit.y, ZONE_SIZE - 1),
                ExitDirection::East => assert_eq!(exit.x, ZONE_SIZE - 1),
                ExitDirection::West => assert_eq!(exit.x, 0),
            }
            assert!(exit.x < ZONE_SIZE && exit.y < ZONE_SIZE);
        }
        // Directions are pairwise distinct
        for i in 0..zone.exits.len() {
            for j in (i + 1)..zone.exits.len() {
                assert_ne!(zone.exits[i].direction, zone.exits[j].direction);
            }
        }
    }
}
