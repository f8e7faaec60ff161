//! Maps, their files, and ways across them.

use std::collections::{BTreeMap, BTreeSet};

use tibia_bot::navigation::astar::{
    find_path, find_path_with_limit, heuristic, simplify_path, FLOOR_CHANGE_PENALTY,
};
use tibia_bot::navigation::map_files::{wants_floor, MapFileError};
use tibia_bot::navigation::overrides::Overrides;
use tibia_bot::navigation::storage::GridError;
use tibia_bot::navigation::walkability::WalkabilityGrid;


fn open_grid(size: i32) -> WalkabilityGrid {
    let mut g = WalkabilityGrid::new();
    for x in 0..size {
        for y in 0..size {
            g.set_tile(x, y, 7, 100);
        }
    }
    g
}

#[test]
fn same_start_and_goal_returns_single_tile() {
    let g = open_grid(5);
    let p = find_path((2, 2, 7), (2, 2, 7), &g).unwrap();
    assert_eq!(p.tiles, vec![(2, 2, 7)]);
    assert_eq!(p.total_cost, 0);
}

#[test]
fn straight_line_path_in_open_grid() {
    let g = open_grid(10);
    let p = find_path((0, 0, 7), (0, 5, 7), &g).unwrap();
    assert_eq!(p.tiles.first(), Some(&(0, 0, 7)));
    assert_eq!(p.tiles.last(), Some(&(0, 5, 7)));
    assert_eq!(p.total_cost, 500);
    assert_eq!(p.tiles.len(), 6);
}

#[test]
fn diagonal_path_uses_manhattan_steps() {
    let g = open_grid(10);
    let p = find_path((0, 0, 7), (3, 3, 7), &g).unwrap();
    assert_eq!(p.tiles.len(), 7);
    assert_eq!(p.total_cost, 600);
}

#[test]
fn wall_forces_detour() {
    let mut g = open_grid(10);
    for y in 0..8 {
        g.set_tile(5, y, 7, 255);
    }
    let p = find_path((0, 0, 7), (9, 0, 7), &g).unwrap();
    assert_eq!(p.tiles.first(), Some(&(0, 0, 7)));
    assert_eq!(p.tiles.last(), Some(&(9, 0, 7)));
    for tile in &p.tiles {
        if tile.0 == 5 && tile.1 < 8 {
            panic!("path crosses wall at {:?}", tile);
        }
    }
}

#[test]
fn unreachable_goal_returns_none() {
    let mut g = open_grid(5);
    g.set_tile(4, 3, 7, 255);
    g.set_tile(3, 4, 7, 255);
    g.set_tile(4, 5, 7, 255);
    g.set_tile(5, 4, 7, 255);
    let p = find_path((0, 0, 7), (4, 4, 7), &g);
    assert!(p.is_none());
}

#[test]
fn start_not_walkable_returns_none() {
    let mut g = open_grid(5);
    g.set_tile(0, 0, 7, 255);
    let p = find_path((0, 0, 7), (3, 3, 7), &g);
    assert!(p.is_none());
}

#[test]
fn goal_on_nonexistent_floor_returns_none() {
    let g = open_grid(5);
    let p = find_path((0, 0, 7), (2, 2, 8), &g);
    assert!(p.is_none());
}

#[test]
fn different_floor_without_transition_returns_none() {
    let mut g = WalkabilityGrid::new();
    for x in 0..5 {
        for y in 0..5 {
            g.set_tile(x, y, 7, 100);
            g.set_tile(x, y, 6, 100);
        }
    }
    let p = find_path((0, 0, 7), (4, 4, 6), &g);
    assert!(p.is_none());
}

#[test]
fn multi_floor_path_via_single_stair() {
    let mut g = WalkabilityGrid::new();
    for x in 0..5 {
        for y in 0..5 {
            g.set_tile(x, y, 7, 100);
            g.set_tile(x, y, 6, 100);
        }
    }
    g.add_transition(2, 2, 7);
    g.add_transition(2, 2, 6);

    let p = find_path((0, 0, 7), (4, 4, 6), &g).unwrap();
    assert_eq!(p.tiles.first(), Some(&(0, 0, 7)));
    assert_eq!(p.tiles.last(), Some(&(4, 4, 6)));
    assert!(p.tiles.contains(&(2, 2, 7)));
    assert!(p.tiles.contains(&(2, 2, 6)));
    assert!(p.total_cost >= FLOOR_CHANGE_PENALTY);
}

#[test]
fn multi_floor_with_auto_detect_transitions() {
    let mut g = WalkabilityGrid::new();
    for x in 0..3 {
        for y in 0..3 {
            g.set_tile(x, y, 7, 100);
            g.set_tile(x, y, 6, 100);
        }
    }
    let n = g.detect_transitions();
    assert_eq!(n, 9);

    let p = find_path((0, 0, 7), (2, 2, 6), &g).unwrap();
    assert_eq!(p.tiles.first(), Some(&(0, 0, 7)));
    assert_eq!(p.tiles.last(), Some(&(2, 2, 6)));
}

#[test]
fn floor_penalty_discourages_unnecessary_floor_change() {
    let mut g = WalkabilityGrid::new();
    for x in 0..=5 {
        g.set_tile(x, 0, 7, 100);
        g.set_tile(x, 0, 6, 100);
    }
    g.add_transition(0, 0, 7);
    g.add_transition(0, 0, 6);
    g.add_transition(5, 0, 7);
    g.add_transition(5, 0, 6);

    let p = find_path((0, 0, 7), (5, 0, 7), &g).unwrap();
    assert_eq!(p.total_cost, 500);
    for tile in &p.tiles {
        assert_eq!(tile.2, 7);
    }
}

#[test]
fn floor_penalty_accepted_when_necessary() {
    let mut g = WalkabilityGrid::new();
    g.set_tile(0, 0, 7, 100);
    g.set_tile(1, 0, 7, 255);
    g.set_tile(2, 0, 7, 100);
    g.set_tile(0, 0, 6, 100);
    g.set_tile(1, 0, 6, 100);
    g.set_tile(2, 0, 6, 100);

    g.add_transition(0, 0, 7);
    g.add_transition(0, 0, 6);
    g.add_transition(2, 0, 7);
    g.add_transition(2, 0, 6);

    let p = find_path((0, 0, 7), (2, 0, 7), &g).unwrap();
    assert_eq!(p.tiles.first(), Some(&(0, 0, 7)));
    assert_eq!(p.tiles.last(), Some(&(2, 0, 7)));
    assert!(p.tiles.contains(&(0, 0, 6)));
    assert!(p.tiles.contains(&(2, 0, 6)));
}

#[test]
fn floor_transition_requires_both_endpoints_marked() {
    let mut g = WalkabilityGrid::new();
    for x in 0..3 {
        for y in 0..3 {
            g.set_tile(x, y, 7, 100);
            g.set_tile(x, y, 6, 100);
        }
    }
    g.add_transition(1, 1, 7);

    let p = find_path((0, 0, 7), (2, 2, 6), &g);
    assert!(p.is_none());
}

#[test]
fn simplify_detects_z_changes_as_corners() {
    let path = vec![
        (0, 0, 7),
        (0, 1, 7),
        (0, 2, 7),
        (0, 2, 6),
        (0, 3, 6),
        (0, 4, 6),
    ];
    let s = simplify_path(&path);
    assert_eq!(s, vec![(0, 0, 7), (0, 2, 7), (0, 2, 6), (0, 4, 6)]);
}

#[test]
fn prefers_cheaper_tiles() {
    let mut g = WalkabilityGrid::new();
    for y in 0..3 {
        g.set_tile(0, y, 7, 90);
        g.set_tile(2, y, 7, 90);
    }
    g.set_tile(1, 0, 7, 213);
    g.set_tile(1, 1, 7, 213);
    g.set_tile(1, 2, 7, 213);

    let p = find_path((0, 0, 7), (2, 0, 7), &g).unwrap();
    assert_eq!(p.total_cost, 303);
}

#[test]
fn simplify_straight_line() {
    let path = vec![(0, 0, 7), (0, 1, 7), (0, 2, 7), (0, 3, 7)];
    let s = simplify_path(&path);
    assert_eq!(s, vec![(0, 0, 7), (0, 3, 7)]);
}

#[test]
fn simplify_l_shape() {
    let path = vec![
        (0, 0, 7),
        (0, 1, 7),
        (0, 2, 7),
        (0, 3, 7),
        (1, 3, 7),
        (2, 3, 7),
    ];
    let s = simplify_path(&path);
    assert_eq!(s, vec![(0, 0, 7), (0, 3, 7), (2, 3, 7)]);
}

#[test]
fn simplify_zigzag() {
    let path = vec![
        (0, 0, 7),
        (1, 0, 7),
        (1, 1, 7),
        (2, 1, 7),
        (2, 2, 7),
    ];
    let s = simplify_path(&path);
    assert_eq!(s.len(), 5);
}

#[test]
fn simplify_short_path_unchanged() {
    let p1 = vec![(0, 0, 7)];
    assert_eq!(simplify_path(&p1), p1);

    let p2 = vec![(0, 0, 7), (0, 1, 7)];
    assert_eq!(simplify_path(&p2), p2);
}

#[test]
fn max_iters_limit_enforced() {
    let g = open_grid(100);
    let p = find_path_with_limit((0, 0, 7), (99, 99, 7), &g, 5);
    assert!(p.is_none());
}

#[test]
fn a_search_may_look_at_as_many_tiles_as_its_limit() {
    let g = open_grid(2);
    let p = find_path_with_limit((0, 0, 7), (1, 0, 7), &g, 1).unwrap();
    assert_eq!(p.nodes_expanded, 1);
    assert_eq!(p.tiles, vec![(0, 0, 7), (1, 0, 7)]);
    assert!(find_path_with_limit((0, 0, 7), (1, 0, 7), &g, 0).is_none());
}

#[test]
fn parse_valid_filename() {
    let r = WalkabilityGrid::parse_filename("Minimap_WaypointCost_32000_31488_7.png");
    assert_eq!(r, Some((32000, 31488, 7)));
}

#[test]
fn parse_invalid_filename() {
    assert_eq!(WalkabilityGrid::parse_filename("random.png"), None);
    assert_eq!(
        WalkabilityGrid::parse_filename("Minimap_Color_32000_31488_7.png"),
        None
    );
    assert_eq!(WalkabilityGrid::parse_filename("not_a_png.txt"), None);
}

#[test]
fn walkability_api() {
    let mut g = WalkabilityGrid::new();
    assert!(g.is_empty());

    g.set_tile(10, 10, 7, 100);
    g.set_tile(11, 10, 7, 255);

    assert_eq!(g.len(), 2);
    assert!(g.is_walkable(10, 10, 7));
    assert!(!g.is_walkable(11, 10, 7));
    assert!(!g.is_walkable(12, 10, 7));
    assert_eq!(g.cost(10, 10, 7), Some(100));
    assert_eq!(g.cost(99, 99, 7), None);
}




#[test]
fn detect_transitions_marks_stacked_walkable() {
    let mut g = WalkabilityGrid::new();
    g.set_tile(10, 10, 7, 100);
    g.set_tile(10, 10, 6, 100);
    g.set_tile(20, 20, 7, 100);
    g.set_tile(30, 30, 7, 100);
    g.set_tile(30, 30, 6, 255);

    let n = g.detect_transitions();
    assert_eq!(n, 1);
    assert!(g.is_transition(10, 10, 7));
    assert!(g.is_transition(10, 10, 6));
    assert!(!g.is_transition(20, 20, 7));
    assert!(!g.is_transition(30, 30, 7));
    assert!(!g.is_transition(30, 30, 6));
}

#[test]
fn remove_transition_corrects_false_positive() {
    let mut g = WalkabilityGrid::new();
    g.set_tile(50, 50, 7, 100);
    g.set_tile(50, 50, 6, 100);
    g.detect_transitions();
    assert!(g.is_transition(50, 50, 7));

    assert!(g.remove_transition(50, 50, 7));
    assert!(!g.is_transition(50, 50, 7));
    assert!(!g.remove_transition(50, 50, 7));
}

#[test]
fn add_transition_supports_manual_rope_entry() {
    let mut g = WalkabilityGrid::new();
    g.set_tile(100, 100, 7, 100);
    g.set_tile(100, 100, 6, 100);
    g.add_transition(100, 100, 7);
    g.add_transition(100, 100, 6);
    assert!(g.is_transition(100, 100, 7));
    assert!(g.is_transition(100, 100, 6));
}

#[test]
fn save_and_load_roundtrip() {
    let mut g = WalkabilityGrid::new();
    g.set_tile(100, 200, 7, 90);
    g.set_tile(101, 200, 7, 150);
    g.set_tile(102, 200, 7, 255);
    g.add_transition(100, 200, 7);
    g.add_transition(100, 200, 6);
    g.set_files_loaded(3);

    let bytes = g.to_bytes();
    assert_eq!(&bytes[..5], b"TBWG\x01");
    let loaded = WalkabilityGrid::from_bytes(&bytes).unwrap();
    assert_eq!(loaded.len(), 3);
    assert_eq!(loaded.files_loaded(), 3);
    assert_eq!(loaded.cost(100, 200, 7), Some(90));
    assert_eq!(loaded.cost(101, 200, 7), Some(150));
    assert_eq!(loaded.cost(102, 200, 7), Some(255));
    assert!(loaded.is_transition(100, 200, 7));
    assert!(loaded.is_transition(100, 200, 6));
    assert_eq!(loaded.transitions_count(), 2);
}

#[test]
fn load_accepts_legacy_bincode() {
    let mut tiles: BTreeMap<(i32, i32, i32), u8> = BTreeMap::new();
    tiles.insert((50, 60, 7), 50);
    tiles.insert((51, 60, 7), 200);
    let mut transitions: BTreeSet<(i32, i32, i32)> = BTreeSet::new();
    transitions.insert((50, 60, 7));
    let legacy_bytes = bincode::serialize(&(tiles, transitions, 1u32)).unwrap();

    let loaded = WalkabilityGrid::from_bytes(&legacy_bytes).unwrap();
    assert_eq!(loaded.len(), 2);
    assert_eq!(loaded.cost(50, 60, 7), Some(50));
    assert_eq!(loaded.cost(51, 60, 7), Some(200));
    assert!(loaded.is_transition(50, 60, 7));
    assert_eq!(loaded.files_loaded(), 1);
}

#[test]
fn bytes_that_are_no_grid_are_refused() {
    let newer = WalkabilityGrid::from_bytes(b"TBWG\x02rest");
    assert!(matches!(newer, Err(GridError::UnsupportedVersion(2))));
    let cut = WalkabilityGrid::from_bytes(b"TBWG\x01\xff");
    assert!(matches!(cut, Err(GridError::Corrupt)));
    let other = WalkabilityGrid::from_bytes(b"abc");
    assert!(matches!(other, Err(GridError::NotAGrid)));
}

fn tile_of(v: &toml::Value) -> (i32, i32, i32) {
    let a = v.as_array().unwrap();
    let n = |i: usize| a[i].as_integer().unwrap() as i32;
    (n(0), n(1), n(2))
}

#[test]
fn parse_and_apply_toml() {
    let toml_str = r#"
        add = [
            [100, 200, 7],
            [100, 200, 6],
        ]
        remove = [
            [50, 50, 7],
        ]
    "#;
    let v: toml::Value = toml::from_str(toml_str).unwrap();
    let list = |key: &str| v[key].as_array().unwrap().iter().map(tile_of).collect::<Vec<_>>();
    let o = Overrides { add: list("add"), remove: list("remove") };
    assert_eq!(o.add.len(), 2);
    assert_eq!(o.remove.len(), 1);

    let mut g = WalkabilityGrid::new();
    g.set_tile(100, 200, 7, 100);
    g.set_tile(100, 200, 6, 100);
    g.set_tile(50, 50, 7, 100);
    g.add_transition(50, 50, 7);

    let (added, removed) = o.apply(&mut g);
    assert_eq!(added, 2);
    assert_eq!(removed, 1);
    assert!(g.is_transition(100, 200, 7));
    assert!(g.is_transition(100, 200, 6));
    assert!(!g.is_transition(50, 50, 7));
}

#[test]
fn no_overrides_change_nothing() {
    let o = Overrides::default();
    assert!(o.add.is_empty());
    assert!(o.remove.is_empty());
    let mut g = WalkabilityGrid::new();
    g.add_transition(1, 2, 3);
    assert_eq!(o.apply(&mut g), (0, 0));
    assert_eq!(g.transition_list(), vec![(1, 2, 3)]);
}

fn png_of(width: u32, height: u32, color: impl Fn(u32, u32) -> [u8; 4]) -> Vec<u8> {
    let picture = image::RgbaImage::from_fn(width, height, |x, y| image::Rgba(color(x, y)));
    let mut out = std::io::Cursor::new(Vec::new());
    picture.write_to(&mut out, image::ImageFormat::Png).unwrap();
    out.into_inner()
}

#[test]
fn a_map_file_gives_the_cost_of_each_tile() {
    let png = png_of(256, 256, |x, y| match x {
        0 => [255, 255, 0, 255],
        1 => [100, 100, 100, 0],
        2 => [214, 214, 214, 255],
        _ => {
            let v = (90 + (y % 100)) as u8;
            [v, v, v, 255]
        }
    });
    let mut g = WalkabilityGrid::new();
    let count = g.load_png(&png, 32000, 31488, 7).unwrap();
    assert_eq!(count as usize, g.len());
    assert_eq!(count, 254 * 256);
    assert_eq!(g.files_loaded(), 1);
    assert_eq!(g.cost(32000, 31488, 7), Some(255));
    assert_eq!(g.cost(32001, 31488, 7), None);
    assert_eq!(g.cost(32002, 31488, 7), None);
    assert_eq!(g.cost(32003, 31488, 7), Some(90));
    assert_eq!(g.cost(32003, 31498, 7), Some(100));
    assert!(!g.is_walkable(32000, 31488, 7));
    assert!(g.is_walkable(32255, 31743, 7));
    assert_eq!(g.cost(32256, 31488, 7), None);
}

#[test]
fn a_map_file_of_another_size_is_refused() {
    let mut g = WalkabilityGrid::new();
    let small = g.load_png(&png_of(16, 8, |_, _| [100, 100, 100, 255]), 0, 0, 7);
    assert!(matches!(small, Err(MapFileError::WrongSize { width: 16, height: 8 })));
    let broken = g.load_png(b"no picture", 0, 0, 7);
    assert!(matches!(broken, Err(MapFileError::Unreadable)));
    assert!(g.is_empty());
}

#[test]
fn an_empty_list_of_floors_wants_them_all() {
    assert!(wants_floor(&[], 3));
    assert!(wants_floor(&[6, 7], 7));
    assert!(!wants_floor(&[6, 7], 8));
}

#[test]
fn the_estimate_counts_tiles_and_floors() {
    assert_eq!(heuristic((0, 0, 7), (0, 0, 7)), 0);
    assert_eq!(heuristic((0, 0, 7), (3, -2, 7)), 5 * 90);
    assert_eq!(heuristic((0, 0, 7), (0, 0, 5)), 2 * (90 + FLOOR_CHANGE_PENALTY));
}

#[test]
fn the_way_back_costs_as_much_but_for_its_last_tile() {
    let mut g = open_grid(6);
    g.set_tile(0, 0, 7, 90);
    g.set_tile(4, 3, 7, 200);
    g.set_tile(2, 2, 7, 255);
    let there = find_path((0, 0, 7), (4, 3, 7), &g).unwrap();
    let back = find_path((4, 3, 7), (0, 0, 7), &g).unwrap();
    assert_eq!(there.total_cost, 800);
    assert_eq!(there.total_cost + 90, back.total_cost + 200);
}

#[test]
fn more_room_to_search_changes_nothing_once_a_way_is_found() {
    let g = open_grid(12);
    let least = (0..500)
        .find(|n| find_path_with_limit((0, 0, 7), (9, 4, 7), &g, *n).is_some())
        .unwrap();
    let p = find_path_with_limit((0, 0, 7), (9, 4, 7), &g, least).unwrap();
    assert!(p.nodes_expanded <= least);
    for more in [least + 1, least + 50, 100_000] {
        let again = find_path_with_limit((0, 0, 7), (9, 4, 7), &g, more).unwrap();
        assert_eq!(again.tiles, p.tiles);
        assert_eq!(again.total_cost, p.total_cost);
        assert_eq!(again.nodes_expanded, p.nodes_expanded);
    }
}

#[test]
fn transitions_are_found_once() {
    let mut g = WalkabilityGrid::new();
    g.set_tile(1, 1, 7, 100);
    g.set_tile(1, 1, 6, 100);
    g.set_tile(2, 1, 7, 100);
    g.set_tile(2, 1, 6, 255);
    g.add_transition(9, 9, 9);
    assert_eq!(g.detect_transitions(), 1);
    assert_eq!(g.detect_transitions(), 1);
    assert_eq!(g.transitions_count(), 3);
    assert!(g.is_transition(9, 9, 9));
    assert!(!g.is_transition(2, 1, 7));
}

#[test]
fn pixels_beyond_the_last_coordinate_are_no_tiles() {
    let mut g = WalkabilityGrid::new();
    let gray = [100u8, 100, 100, 255].repeat(256 * 256);
    assert_eq!(g.add_pixels(&gray, i32::MAX - 1, 0, 7), 65_536);
    assert_eq!(g.len(), 512);
    assert_eq!(g.cost(i32::MAX, 255, 7), Some(100));
    assert_eq!(g.files_loaded(), 1);
}
