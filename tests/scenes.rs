use silksong_autosplit::scenes::{is_junk_name, is_opening_scene};
use silksong_autosplit::{is_debug_save_state_scene, is_menu, SceneStore, StringListOffsets};

fn tick(ss: &mut SceneStore, curr: &str, activation: bool, next: &str) -> bool {
    ss.transition_now(curr.to_string(), false, activation, next.to_string())
}

#[test]
fn menu_like_names() {
    assert!(is_menu(""));
    assert!(is_menu("Menu_Title"));
    assert!(is_menu("Quit_To_Menu"));
    assert!(is_menu("PermaDeath"));
    assert!(!is_menu("Tut_01"));
}

#[test]
fn special_scene_names() {
    assert!(is_debug_save_state_scene("Demo Start"));
    assert!(!is_debug_save_state_scene("Tut_01"));
    assert!(is_opening_scene("Opening_Sequence"));
    assert!(is_junk_name("Untagged"));
    assert!(is_junk_name("material"));
    assert!(!is_junk_name("Bonetown"));
}

#[test]
fn string_offsets() {
    let o = StringListOffsets::new();
    assert_eq!(o.string_len, 0x10);
    assert_eq!(o.string_contents, 0x14);
}

#[test]
fn menu_into_first_room_is_one_transition() {
    let mut ss = SceneStore::new();
    assert!(tick(&mut ss, "Menu_Title", false, ""));
    let fired = tick(&mut ss, "Menu_Title", true, "Tut_01");
    assert!(fired);
    let p = ss.pair();
    assert_eq!(p.old, "Menu_Title");
    assert_eq!(p.current, "Tut_01");
    assert!(!tick(&mut ss, "Menu_Title", true, "Tut_01"));
}

#[test]
fn steady_readings_fire_once() {
    let mut ss = SceneStore::new();
    assert!(tick(&mut ss, "Bone_05", false, ""));
    assert!(tick(&mut ss, "Bone_05", true, "Mosstown_01"));
    assert!(!tick(&mut ss, "Bone_05", true, "Mosstown_01"));
    assert!(!tick(&mut ss, "Bone_05", true, "Mosstown_01"));
}

#[test]
fn next_location_ignored_during_load() {
    let mut ss = SceneStore::new();
    assert!(tick(&mut ss, "Bone_05", false, ""));
    assert!(!tick(&mut ss, "Bone_05", false, "Mosstown_01"));
    assert_eq!(ss.next_scene_name, "");
    assert!(ss.transition_now("Bone_05".to_string(), true, false, "Mosstown_01".to_string()));
    assert_eq!(ss.next_scene_name, "Mosstown_01");
}

#[test]
fn junk_and_empty_readings_ignored() {
    let mut ss = SceneStore::new();
    assert!(tick(&mut ss, "Bone_05", false, ""));
    assert!(!tick(&mut ss, "Untagged", true, "position"));
    assert!(!tick(&mut ss, "", true, ""));
    assert_eq!(ss.curr_scene_name, "Bone_05");
}

#[test]
fn spurious_current_near_menu_is_dropped() {
    let mut ss = SceneStore::new();
    assert!(tick(&mut ss, "Bone_05", false, ""));
    assert!(tick(&mut ss, "Bone_05", true, "Menu_Title"));
    // the current location moves while the next one is a menu and neither
    // the old nor the new current location is one
    assert!(!tick(&mut ss, "Bone_06", false, "Menu_Title"));
    assert_eq!(ss.curr_scene_name, "Bone_06");
    assert_eq!(ss.prev_scene_name, "Bone_05");
}

#[test]
fn transition_reopens_window() {
    let mut ss = SceneStore::new();
    ss.split_this_transition = true;
    assert!(tick(&mut ss, "Bone_05", false, ""));
    assert!(!ss.split_this_transition);
    let p = ss.pair();
    assert_eq!(p.old, "");
    assert_eq!(p.current, "Bone_05");
}
