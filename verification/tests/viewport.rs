//! Viewport sizing: the map viewport honours the minimum size constraints
//! for every requested total size.

use zbuffer_game::game_renderer::GameRenderer;
use zbuffer_game::game_renderer::BOTTOM_PANEL_HEIGHT;
use zbuffer_game::game_renderer::MAP_MIN_HEIGHT;
use zbuffer_game::game_renderer::MAP_MIN_WIDTH;
use zbuffer_game::game_renderer::SIDE_PANEL_WIDTH;

// 4K display & 8 pixel glyphs, times 2
const MAX_X: u32 = 3840 / 8 * 2;
const MAX_Y: u32 = 2160 / 8 * 2;

#[test]
fn map_dimensions_are_never_less_than_minimum_requirements() {
    let (map_min_width, map_min_height) = (MAP_MIN_WIDTH, MAP_MIN_HEIGHT);
    let min_width = map_min_width + SIDE_PANEL_WIDTH;
    let min_height = map_min_height + BOTTOM_PANEL_HEIGHT;

    for b in 0..MAX_Y {
        for a in 0..MAX_X {
            match GameRenderer::calculate_map_viewport_size((a, b)) {
                Some((w, h)) => {
                    assert!(
                        w >= map_min_width,
                        "Map width {} is calculated as less than minimum required!",
                        w
                    );
                    assert_eq!(a, w + SIDE_PANEL_WIDTH);
                    assert!(
                        h >= map_min_height,
                        "Map height {} is calculated as less than minimum required!",
                        h
                    );
                    assert_eq!(b, h + BOTTOM_PANEL_HEIGHT);
                }
                None => assert!(a < min_width || b < min_height),
            }
        }
    }
}

#[test]
fn viewport_success_example() {
    // width=100, height=40 with side panel 20, bottom panel 8, minimum (50, 20)
    assert_eq!(
        GameRenderer::calculate_map_viewport_size((100, 40)),
        Some((80, 32))
    );
}

#[test]
fn viewport_failure_example() {
    // width 60 leaves a 40-wide map (< 50); height 25 leaves 17 (< 20)
    assert_eq!(GameRenderer::calculate_map_viewport_size((60, 25)), None);
}

#[test]
fn viewport_exact_minimum() {
    assert_eq!(
        GameRenderer::calculate_map_viewport_size((
            MAP_MIN_WIDTH + SIDE_PANEL_WIDTH,
            MAP_MIN_HEIGHT + BOTTOM_PANEL_HEIGHT
        )),
        Some((MAP_MIN_WIDTH, MAP_MIN_HEIGHT))
    );
}

#[test]
fn viewport_one_short_fails() {
    assert_eq!(
        GameRenderer::calculate_map_viewport_size((
            MAP_MIN_WIDTH + SIDE_PANEL_WIDTH - 1,
            MAP_MIN_HEIGHT + BOTTOM_PANEL_HEIGHT
        )),
        None
    );
    assert_eq!(
        GameRenderer::calculate_map_viewport_size((
            MAP_MIN_WIDTH + SIDE_PANEL_WIDTH,
            MAP_MIN_HEIGHT + BOTTOM_PANEL_HEIGHT - 1
        )),
        None
    );
    assert_eq!(GameRenderer::calculate_map_viewport_size((0, 0)), None);
}
