//! The stage state machine and the renderer cache.

use zbuffer_game::game_renderer::UI_BACKGROUND_GLYPH;
use zbuffer_game::input::Event;
use zbuffer_game::input::Modifiers;
use zbuffer_game::input::CODE_DOWN;
use zbuffer_game::input::CODE_ENTER;
use zbuffer_game::input::CODE_RIGHT;
use zbuffer_game::input::CODE_UP;
use zbuffer_game::scene::Location;
use zbuffer_game::stage::Stage;
use zbuffer_game::stage::StageKind;
use zbuffer_game::stage::StageTransition;
use zbuffer_game::ui::UI;

fn no_mods() -> Modifiers {
    Modifiers {
        shift: false,
        alt: false,
        ctrl: false,
    }
}

fn key_down(code: u16) -> Event {
    Event::KeyDown(code, None, no_mods())
}

#[test]
fn stage_starts_as_main_menu() {
    let stage = Stage::new();
    assert_eq!(stage.kind(), StageKind::MainMenu);
}

#[test]
fn menu_continues_without_enter() {
    let mut stage = Stage::new();
    let t = stage.tick(16, &vec![key_down(CODE_UP), Event::Mouse]);
    assert!(matches!(t, StageTransition::Continue));
    assert_eq!(stage.kind(), StageKind::MainMenu);
}

#[test]
fn menu_switches_to_a_fresh_game_on_enter() {
    let mut stage = Stage::new();
    let t = stage.tick(16, &vec![key_down(CODE_ENTER)]);
    match t {
        StageTransition::SwitchTo(s) => assert_eq!(s.kind(), StageKind::Game),
        StageTransition::Continue => panic!("expected a switch"),
    }
}

#[test]
fn advance_frame_applies_the_switch_atomically() {
    let mut stage = Stage::new();
    stage.advance_frame(16, &vec![key_down(CODE_ENTER)]);
    assert_eq!(stage.kind(), StageKind::Game);
    // a fresh game: cursor at the origin, nothing inherited from the menu
    match &mut stage {
        Stage::Game(g) => {
            g.apply_scene_pass(&vec![], vec![]);
            assert_eq!(g.scene().cursor_location(), Location { x: 0, y: 0 });
        }
        Stage::MainMenu(_) => panic!("expected the game stage"),
    }
}

#[test]
fn game_tick_moves_the_cursor_by_arrow_keys_in_order() {
    let mut stage = Stage::new();
    stage.advance_frame(0, &vec![key_down(CODE_ENTER)]);
    let t = stage.tick(
        16,
        &vec![key_down(CODE_RIGHT), key_down(CODE_RIGHT), key_down(CODE_DOWN)],
    );
    assert!(matches!(t, StageTransition::Continue));
    match &mut stage {
        Stage::Game(g) => {
            g.apply_scene_pass(&vec![], vec![]);
            assert_eq!(g.scene().cursor_location(), Location { x: 2, y: 1 });
            // the elapsed time was stamped into the scene
            assert_eq!(g.scene().t_millis(), 16);
        }
        Stage::MainMenu(_) => panic!("expected the game stage"),
    }
}

#[test]
fn renderer_is_rebuilt_exactly_on_variant_switches() {
    let menu = Stage::new();
    let mut game = Stage::new();
    game.advance_frame(0, &vec![key_down(CODE_ENTER)]);

    let mut ui = UI::new(100, 40);
    // before any frame a renderer must be built
    assert!(ui.is_stage_changed(&menu));
    ui.draw(&menu);
    // a repeated frame of the same variant: no rebuild
    assert!(!ui.is_stage_changed(&menu));
    ui.draw(&menu);
    assert!(!ui.is_stage_changed(&menu));
    // switching the variant: exactly one rebuild, then none
    assert!(ui.is_stage_changed(&game));
    ui.draw(&game);
    assert!(!ui.is_stage_changed(&game));
    ui.draw(&game);
    assert!(!ui.is_stage_changed(&game));
    // and back
    assert!(ui.is_stage_changed(&menu));
}

#[test]
fn try_new_rejects_sizes_below_the_minimum() {
    assert!(UI::try_new(100, 40).is_some());
    assert!(UI::try_new(69, 40).is_none());
    assert!(UI::try_new(100, 27).is_none());
    assert!(UI::try_new(5000, 40).is_none());
}

#[test]
fn menu_frame_shows_the_centered_title() {
    let menu = Stage::new();
    let mut ui = UI::new(100, 40);
    assert!(ui.current_root().is_none());
    ui.draw(&menu);
    let root = ui.current_root().unwrap();
    assert_eq!(root.width(), 100);
    assert_eq!(root.height(), 40);
    // "New Game" (8 characters) centered on row 20 of a 100-wide buffer
    for (i, c) in ['N', 'e', 'w', ' ', 'G', 'a', 'm', 'e'].iter().enumerate() {
        assert_eq!(root.get(46 + i as u32, 20), *c as u32);
    }
    assert_eq!(root.get(0, 0), UI_BACKGROUND_GLYPH);
    assert_eq!(root.get(45, 20), UI_BACKGROUND_GLYPH);
    assert_eq!(root.get(54, 20), UI_BACKGROUND_GLYPH);
}

#[test]
fn game_frame_is_composed_after_draw() {
    let mut stage = Stage::new();
    stage.advance_frame(0, &vec![key_down(CODE_ENTER)]);
    match &mut stage {
        Stage::Game(g) => g.apply_scene_pass(&vec![], vec![]),
        Stage::MainMenu(_) => panic!("expected the game stage"),
    }
    let mut ui = UI::new(100, 40);
    ui.draw(&stage);
    let root = ui.current_root().unwrap();
    assert_eq!(root.width(), 100);
    assert_eq!(root.height(), 40);
    // the cursor marker at the map centre proves the play renderer drew
    assert_eq!(root.get(40, 16), 'X' as u32);
}
