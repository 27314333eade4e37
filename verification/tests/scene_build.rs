//! The scene builder: full rebuild each frame, stable z-ordering, the
//! bounded log and the scene getters.

use zbuffer_game::rendering::RenderingSystem;
use zbuffer_game::scene::Location;
use zbuffer_game::scene::LogEntry;
use zbuffer_game::scene::SceneData;
use zbuffer_game::scene::SceneEntry;
use zbuffer_game::scene::VisibleObject;
use zbuffer_game::scene::MAX_LOG_ENTRIES;

fn entry(x: i32, y: i32, object: VisibleObject, z_index: i32) -> SceneEntry {
    SceneEntry {
        location: Location { x, y },
        object,
        z_index,
    }
}

#[test]
fn objects_are_ordered_by_z_index_ascending_and_stable() {
    let mut scene = SceneData::new();
    let loc = Location { x: 2, y: 3 };
    scene.add_object_to_location(loc, VisibleObject::Soil, 5);
    scene.add_object_to_location(loc, VisibleObject::Grass, 1);
    scene.add_object_to_location(loc, VisibleObject::Grass, 5);
    assert_eq!(
        scene.objects_with_z_at(&loc),
        vec![
            (VisibleObject::Grass, 1),
            (VisibleObject::Soil, 5),
            (VisibleObject::Grass, 5),
        ]
    );
    assert_eq!(
        scene.get_objects_for_location(&loc),
        vec![
            VisibleObject::Grass,
            VisibleObject::Soil,
            VisibleObject::Grass,
        ]
    );
    // topmost: highest z-index, latest contribution among equals
    assert_eq!(scene.top_object_at(&loc), Some(VisibleObject::Grass));
}

#[test]
fn other_locations_stay_empty() {
    let mut scene = SceneData::new();
    scene.add_object_to_location(Location { x: 0, y: 0 }, VisibleObject::Soil, 0);
    assert_eq!(scene.get_objects_for_location(&Location { x: 1, y: 0 }), vec![]);
    assert_eq!(scene.top_object_at(&Location { x: 1, y: 0 }), None);
}

#[test]
fn rebuild_leaves_no_stale_objects() {
    // what a prior frame contributed is gone after the next builder pass
    let mut scene = SceneData::new();
    let old_loc = Location { x: 7, y: 7 };
    scene.add_object_to_location(old_loc, VisibleObject::Soil, 1);

    let mut sys = RenderingSystem::new();
    let new_loc = Location { x: -3, y: 4 };
    let entries = vec![entry(-3, 4, VisibleObject::Grass, 2)];
    sys.run_with(&mut scene, &entries, Location { x: 0, y: 0 }, vec![], 100);

    assert_eq!(scene.get_objects_for_location(&old_loc), vec![]);
    assert_eq!(
        scene.get_objects_for_location(&new_loc),
        vec![VisibleObject::Grass]
    );
}

#[test]
fn builder_pass_sets_cursor_log_and_time() {
    let mut scene = SceneData::new();
    let mut sys = RenderingSystem::new();
    sys.run_with(
        &mut scene,
        &vec![],
        Location { x: 5, y: -6 },
        vec![LogEntry::new(vec!['h', 'i'])],
        1234,
    );
    assert_eq!(scene.cursor_location(), Location { x: 5, y: -6 });
    assert_eq!(scene.t_millis(), 1234);
    assert_eq!(scene.log_len(), 1);
    assert_eq!(scene.log_entry(0).contents(), &vec!['h', 'i']);
}

#[test]
fn log_entries_are_appended_and_oldest_evicted_first() {
    let mut scene = SceneData::new();
    for i in 0..(MAX_LOG_ENTRIES + 3) {
        let digit = char::from_digit((i % 10) as u32, 10).unwrap();
        scene.update(Location { x: 0, y: 0 }, vec![LogEntry::new(vec![digit])], 0);
    }
    assert_eq!(scene.log_len(), MAX_LOG_ENTRIES);
    // the three oldest entries ('0', '1', '2') were evicted
    assert_eq!(scene.log_entry(0).contents(), &vec!['3']);
    let newest = scene.log_entry(MAX_LOG_ENTRIES - 1);
    let last_digit = char::from_digit(((MAX_LOG_ENTRIES + 2) % 10) as u32, 10).unwrap();
    assert_eq!(newest.contents(), &vec![last_digit]);
}

#[test]
fn clear_objects_empties_the_mapping_only() {
    let mut scene = SceneData::new();
    let loc = Location { x: 1, y: 1 };
    scene.add_object_to_location(loc, VisibleObject::Soil, 0);
    scene.update(Location { x: 9, y: 9 }, vec![LogEntry::new(vec!['x'])], 55);
    scene.clear_objects();
    assert_eq!(scene.get_objects_for_location(&loc), vec![]);
    assert_eq!(scene.cursor_location(), Location { x: 9, y: 9 });
    assert_eq!(scene.t_millis(), 55);
    assert_eq!(scene.log_len(), 1);
}
