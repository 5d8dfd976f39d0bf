use silksong_autosplit::pipeline::is_non_menu_game_state;
use silksong_autosplit::{splits, Pair, SceneStore, Snapshot, SplitTable, SplitterAction, Store, Tier, TimerState};

struct Fixed {
    continuous: SplitterAction,
    once: SplitterAction,
    menu: SplitterAction,
    transition: SplitterAction,
    asked: Vec<&'static str>,
}

impl SplitTable for Fixed {
    fn continuous(&mut self, _: u64, _: &mut Store) -> SplitterAction {
        self.asked.push("continuous");
        self.continuous
    }
    fn transition_once(&mut self, _: u64, _: &Pair<&str>) -> SplitterAction {
        self.asked.push("once");
        self.once
    }
    fn menu(&mut self, _: u64, _: &Pair<&str>, _: &mut Store) -> SplitterAction {
        self.asked.push("menu");
        self.menu
    }
    fn transition(&mut self, _: u64, _: &Pair<&str>) -> SplitterAction {
        self.asked.push("transition");
        self.transition
    }
}

fn fixed(c: SplitterAction, o: SplitterAction, m: SplitterAction, t: SplitterAction) -> Fixed {
    Fixed { continuous: c, once: o, menu: m, transition: t, asked: Vec::new() }
}

fn store() -> Store {
    Store::new(&Snapshot {
        timer_state: Some(TimerState::Running),
        split_index: None,
        bools: Vec::new(),
        i32s: Vec::new(),
        strings: Vec::new(),
        tools_version: None,
        segments_splitted: Vec::new(),
    })
}

fn in_room(old: &str, new: &str) -> SceneStore {
    let mut ss = SceneStore::new();
    ss.transition_now(old.to_string(), false, false, String::new());
    ss.transition_now(old.to_string(), true, false, new.to_string());
    ss
}

const PLAYING: i32 = 4;
const MAIN_MENU: i32 = 1;

#[test]
fn non_menu_states() {
    assert!(is_non_menu_game_state(4));
    assert!(is_non_menu_game_state(7));
    assert!(!is_non_menu_game_state(1));
}

#[test]
fn continuous_tier_wins_first() {
    let mut t = fixed(SplitterAction::Split, SplitterAction::Skip, SplitterAction::Pass, SplitterAction::Pass);
    let mut ss = in_room("Bone_05", "Mosstown_01");
    let mut st = store();
    let v = splits(&mut t, 1, PLAYING, true, &mut ss, &mut st);
    assert_eq!(v.action, SplitterAction::Split);
    assert_eq!(v.tier, Some(Tier::Continuous));
    assert_eq!(t.asked, vec!["continuous"]);
    assert_eq!(v.consulted, vec![(Tier::Continuous, SplitterAction::Split)]);
    assert!(ss.split_this_transition);
}

#[test]
fn continuous_tier_skipped_in_menu_state() {
    let mut t = fixed(SplitterAction::Split, SplitterAction::Pass, SplitterAction::Pass, SplitterAction::Pass);
    let mut ss = in_room("Bone_05", "Mosstown_01");
    let mut st = store();
    let v = splits(&mut t, 1, MAIN_MENU, false, &mut ss, &mut st);
    assert_eq!(v.action, SplitterAction::Pass);
    assert_eq!(v.tier, None);
    assert_eq!(t.asked, vec!["once"]);
    assert!(!ss.split_this_transition);
}

#[test]
fn menu_transitions_route_to_menu_set() {
    let mut t = fixed(SplitterAction::Pass, SplitterAction::Pass, SplitterAction::Split, SplitterAction::Skip);
    let mut ss = in_room("Bone_05", "Menu_Title");
    let mut st = store();
    let v = splits(&mut t, 1, PLAYING, true, &mut ss, &mut st);
    assert_eq!(v.action, SplitterAction::Split);
    assert_eq!(v.tier, Some(Tier::Menu));
    assert_eq!(t.asked, vec!["continuous", "once", "menu"]);
    assert_eq!(v.consulted, vec![
        (Tier::Continuous, SplitterAction::Pass),
        (Tier::TransitionOnce, SplitterAction::Pass),
        (Tier::Menu, SplitterAction::Split),
    ]);
}

#[test]
fn other_transitions_route_to_transition_set() {
    let mut t = fixed(SplitterAction::Pass, SplitterAction::Pass, SplitterAction::Split, SplitterAction::Skip);
    let mut ss = in_room("Bone_05", "Mosstown_01");
    let mut st = store();
    let v = splits(&mut t, 1, PLAYING, true, &mut ss, &mut st);
    assert_eq!(v.action, SplitterAction::Skip);
    assert_eq!(v.tier, Some(Tier::Transition));
}

#[test]
fn transition_tiers_act_once_per_window() {
    let mut t = fixed(SplitterAction::Pass, SplitterAction::Split, SplitterAction::Split, SplitterAction::Split);
    let mut ss = in_room("Bone_05", "Mosstown_01");
    let mut st = store();
    let first = splits(&mut t, 1, PLAYING, true, &mut ss, &mut st);
    assert_eq!(first.action, SplitterAction::Split);
    assert_eq!(first.tier, Some(Tier::TransitionOnce));
    for _ in 0..3 {
        let again = splits(&mut t, 2, PLAYING, false, &mut ss, &mut st);
        assert_eq!(again.action, SplitterAction::Pass);
    }
}

#[test]
fn continuous_tier_stays_live_after_commit() {
    let mut t = fixed(SplitterAction::Pass, SplitterAction::Split, SplitterAction::Pass, SplitterAction::Pass);
    let mut ss = in_room("Bone_05", "Mosstown_01");
    let mut st = store();
    splits(&mut t, 1, PLAYING, false, &mut ss, &mut st);
    t.continuous = SplitterAction::Split;
    let v = splits(&mut t, 2, PLAYING, false, &mut ss, &mut st);
    assert_eq!(v.tier, Some(Tier::Continuous));
}
