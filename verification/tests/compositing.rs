//! The compositor: composed frame dimensions, panel placement, map content,
//! log lines and side-panel text.

use zbuffer_game::game_renderer::GameRenderer;
use zbuffer_game::game_renderer::CURSOR_GLYPH;
use zbuffer_game::game_renderer::MAP_BACKGROUND_GLYPH;
use zbuffer_game::game_renderer::UI_BACKGROUND_GLYPH;
use zbuffer_game::scene::Location;
use zbuffer_game::scene::LogEntry;
use zbuffer_game::scene::SceneData;
use zbuffer_game::scene::VisibleObject;
use zbuffer_game::text::format_coords;
use zbuffer_game::text::format_game_time;

#[test]
fn composed_size_equals_the_requested_size() {
    let mut renderer = GameRenderer::new(100, 40);
    let scene = SceneData::new();
    renderer.update(&scene);
    let root = renderer.borrow_root();
    assert_eq!(root.width(), 100);
    assert_eq!(root.height(), 40);
}

#[test]
fn panels_tile_the_root_exactly() {
    // map (80 x 32) + side panel (20 wide) = 100; + bottom panel (8 tall) = 40
    let (map_w, map_h) = GameRenderer::calculate_map_viewport_size((100, 40)).unwrap();
    assert_eq!(map_w + 20, 100);
    assert_eq!(map_h + 8, 40);
}

#[test]
fn map_shows_cursor_topmost_object_and_background() {
    let mut scene = SceneData::new();
    // cursor at the origin sits at the map's centre cell (40, 16) of 80 x 32
    scene.update(Location { x: 0, y: 0 }, vec![], 0);
    let loc = Location { x: 1, y: 0 };
    scene.add_object_to_location(loc, VisibleObject::Soil, 1);
    scene.add_object_to_location(loc, VisibleObject::Grass, 2);

    let mut renderer = GameRenderer::new(100, 40);
    renderer.update(&scene);
    let root = renderer.borrow_root();
    // the cursor marker is drawn last at the centre
    assert_eq!(root.get(40, 16), CURSOR_GLYPH);
    // one cell right of the cursor: the topmost object is Grass (z 2) -> '"'
    assert_eq!(root.get(41, 16), '"' as u32);
    // an empty cell shows the map background
    assert_eq!(root.get(0, 0), MAP_BACKGROUND_GLYPH);
}

#[test]
fn bottom_panel_prints_newest_log_lines_first() {
    let mut scene = SceneData::new();
    scene.update(
        Location { x: 0, y: 0 },
        vec![
            LogEntry::new(vec!['o', 'l', 'd']),
            LogEntry::new(vec!['n', 'e', 'w']),
        ],
        0,
    );
    let mut renderer = GameRenderer::new(100, 40);
    renderer.update(&scene);
    let root = renderer.borrow_root();
    // the bottom panel starts at row 32; its first row holds the newest entry
    assert_eq!(root.get(0, 32), 'n' as u32);
    assert_eq!(root.get(1, 32), 'e' as u32);
    assert_eq!(root.get(2, 32), 'w' as u32);
    assert_eq!(root.get(0, 33), 'o' as u32);
    assert_eq!(root.get(3, 32), UI_BACKGROUND_GLYPH);
}

#[test]
fn side_panel_prints_time_coordinates_and_object_listing() {
    let mut scene = SceneData::new();
    scene.add_object_to_location(Location { x: 2, y: -3 }, VisibleObject::Soil, 0);
    scene.update(Location { x: 2, y: -3 }, vec![], 12034);
    let mut renderer = GameRenderer::new(100, 40);
    renderer.update(&scene);
    let root = renderer.borrow_root();
    // the side panel starts at column 80; row 0 holds the time "12.034"
    let time = format_game_time(12034);
    assert_eq!(time, vec!['1', '2', '.', '0', '3', '4']);
    for (i, c) in time.iter().enumerate() {
        assert_eq!(root.get(80 + i as u32, 0), *c as u32);
    }
    // row 1 holds the cursor coordinates "[   2:  -3]"
    let coords = format_coords(2, -3);
    assert_eq!(
        coords,
        vec!['[', ' ', ' ', ' ', '2', ':', ' ', ' ', '-', '3', ']']
    );
    for (i, c) in coords.iter().enumerate() {
        assert_eq!(root.get(80 + i as u32, 1), *c as u32);
    }
    // row 2 lists the object at the cursor's location
    for (i, c) in ['S', 'o', 'i', 'l'].iter().enumerate() {
        assert_eq!(root.get(80 + i as u32, 2), *c as u32);
    }
    assert_eq!(root.get(80 + 4, 2), UI_BACKGROUND_GLYPH);
}

#[test]
fn format_game_time_pads_milliseconds() {
    assert_eq!(format_game_time(0), vec!['0', '.', '0', '0', '0']);
    assert_eq!(format_game_time(999), vec!['0', '.', '9', '9', '9']);
    assert_eq!(format_game_time(1000), vec!['1', '.', '0', '0', '0']);
    assert_eq!(
        format_game_time(75008),
        vec!['7', '5', '.', '0', '0', '8']
    );
}

#[test]
fn format_coords_pads_both_numbers_to_four() {
    assert_eq!(
        format_coords(3, -12),
        vec!['[', ' ', ' ', ' ', '3', ':', ' ', '-', '1', '2', ']']
    );
    assert_eq!(
        format_coords(-2147483648, 2147483647),
        vec![
            '[', '-', '2', '1', '4', '7', '4', '8', '3', '6', '4', '8', ':', '2', '1', '4', '7',
            '4', '8', '3', '6', '4', '7', ']'
        ]
    );
}
