use silksong_autosplit::catalog::{
    has_prefix, is_discontinuity_scene, ones, Bits, Flag, Number, Text,
};
use silksong_autosplit::{
    continuous_splits, menu_splits, transition_once_splits, transition_splits, Catalog,
    GameMemory, Pair, SceneStore, Snapshot, Split, SplitTable, SplitterAction, Store, TimerState,
};

#[derive(Default)]
struct Fake {
    flags: Vec<(Flag, bool)>,
    numbers: Vec<(Number, i32)>,
    bits: Vec<(Bits, u64)>,
    gate: String,
    game_state: Option<i32>,
    tools: Vec<&'static str>,
    snap: Option<Snapshot>,
}

impl GameMemory for Fake {
    fn flag(&self, f: Flag) -> Option<bool> {
        self.flags.iter().find(|x| x.0 == f).map(|x| x.1)
    }
    fn number(&self, n: Number) -> Option<i32> {
        self.numbers.iter().find(|x| x.0 == n).map(|x| x.1)
    }
    fn bits(&self, b: Bits) -> Option<u64> {
        self.bits.iter().find(|x| x.0 == b).map(|x| x.1)
    }
    fn text(&self, t: Text) -> String {
        match t {
            Text::EntryGateName => self.gate.clone(),
            Text::CurrentCrestId => String::new(),
        }
    }
    fn game_state(&self) -> Option<i32> {
        self.game_state
    }
    fn has_tool(&self, _: &mut Store, tool: &str) -> bool {
        self.tools.contains(&tool)
    }
    fn snapshot(&self) -> &Snapshot {
        self.snap.as_ref().unwrap()
    }
}

fn empty_snapshot() -> Snapshot {
    Snapshot {
        timer_state: Some(TimerState::Running),
        split_index: None,
        bools: Vec::new(),
        i32s: Vec::new(),
        strings: Vec::new(),
        tools_version: None,
        segments_splitted: Vec::new(),
    }
}

fn store() -> Store {
    Store::new(&empty_snapshot())
}

fn scenes<'a>(old: &'a str, current: &'a str) -> Pair<&'a str> {
    Pair { old, current }
}

#[test]
fn flag_predicates() {
    let mut st = store();
    let mut m = Fake::default();
    assert_eq!(continuous_splits(&Split::MossMother, &m, &mut st), SplitterAction::Pass);
    m.flags.push((Flag::DefeatedMossMother, true));
    assert_eq!(continuous_splits(&Split::MossMother, &m, &mut st), SplitterAction::Split);
    assert_eq!(transition_splits(&Split::MossMotherTrans, &scenes("a", "b"), &m), SplitterAction::Split);
}

#[test]
fn manual_split_predicate() {
    let mut st = store();
    let m = Fake::default();
    assert_eq!(continuous_splits(&Split::ManualSplit, &m, &mut st), SplitterAction::ManualSplit);
}

#[test]
fn mask_shard_counts() {
    let mut st = store();
    let mut m = Fake::default();
    m.numbers.push((Number::MaxHealthBase, 6));
    m.numbers.push((Number::HeartPieces, 1));
    // one full extra mask and one shard of the next
    assert_eq!(continuous_splits(&Split::MaskShard5, &m, &mut st), SplitterAction::Split);
    assert_eq!(continuous_splits(&Split::MaskShard1, &m, &mut st), SplitterAction::Pass);
}

#[test]
fn spool_fragment_counts() {
    let mut st = store();
    let mut m = Fake::default();
    m.numbers.push((Number::SilkMax, 10));
    m.numbers.push((Number::SilkSpoolParts, 0));
    assert_eq!(continuous_splits(&Split::Spool1, &m, &mut st), SplitterAction::Split);
    assert_eq!(continuous_splits(&Split::SpoolFragment1, &m, &mut st), SplitterAction::Pass);
}

#[test]
fn tool_predicates() {
    let mut st = store();
    let mut m = Fake::default();
    assert_eq!(continuous_splits(&Split::Tacks, &m, &mut st), SplitterAction::Pass);
    m.tools.push("Tack");
    assert_eq!(continuous_splits(&Split::Tacks, &m, &mut st), SplitterAction::Split);
}

#[test]
fn orb_count_needs_twelve() {
    let mut st = store();
    let mut m = Fake::default();
    m.flags.push((Flag::Orbs02c, true));
    m.flags.push((Flag::Orbs03, true));
    m.bits.push((Bits::Orbs18A, 0b1111));
    m.bits.push((Bits::Orbs19, 0b11111));
    assert_eq!(continuous_splits(&Split::VerdaniaOrbsCollected, &m, &mut st), SplitterAction::Pass);
    m.bits.push((Bits::Orbs18B, 0b1));
    assert_eq!(continuous_splits(&Split::VerdaniaOrbsCollected, &m, &mut st), SplitterAction::Split);
}

#[test]
fn bench_predicate_fires_on_arrival() {
    let mut st = store();
    let mut m = Fake::default();
    let mut s = empty_snapshot();
    s.bools.push(("playerData.atBench".to_string(), false));
    m.snap = Some(s);
    assert_eq!(continuous_splits(&Split::BenchAny, &m, &mut st), SplitterAction::Pass);
    let mut s = empty_snapshot();
    s.bools.push(("playerData.atBench".to_string(), true));
    st.update_all(&s);
    m.snap = Some(s);
    assert_eq!(continuous_splits(&Split::BenchAny, &m, &mut st), SplitterAction::Split);
}

#[test]
fn scene_predicates() {
    let m = Fake::default();
    assert_eq!(
        transition_splits(&Split::StartNewGame, &scenes("Opening_Sequence", "Tut_01"), &m),
        SplitterAction::Split
    );
    assert_eq!(
        transition_splits(&Split::EnterMosshome, &scenes("Bone_05", "Mosstown_01"), &m),
        SplitterAction::Split
    );
    assert_eq!(
        transition_splits(&Split::EnterMosshome, &scenes("Bone_04", "Mosstown_01"), &m),
        SplitterAction::Pass
    );
    assert_eq!(
        transition_splits(&Split::EndingSplit, &scenes("Abyss_05", "Cinematic_Ending_B"), &m),
        SplitterAction::Split
    );
    assert_eq!(transition_splits(&Split::AnyTransition, &scenes("a", "b"), &m), SplitterAction::Split);
}

#[test]
fn discontinuities_excluded() {
    let m = Fake::default();
    let s = Split::TransitionExcludingDiscontinuities;
    assert_eq!(transition_splits(&s, &scenes("Bone_05", "Bone_06"), &m), SplitterAction::Split);
    assert_eq!(transition_splits(&s, &scenes("Demo Start", "Bone_06"), &m), SplitterAction::Pass);
    let mut dead = Fake::default();
    dead.numbers.push((Number::Health, 0));
    assert_eq!(transition_splits(&s, &scenes("Bone_05", "Bone_06"), &dead), SplitterAction::Pass);
}

#[test]
fn act_one_start_once() {
    let mut m = Fake::default();
    m.flags.push((Flag::DisablePause, false));
    m.game_state = Some(4);
    m.gate = "Death Respawn Marker Init".to_string();
    assert_eq!(
        transition_once_splits(&Split::Act1Start, &scenes("Menu_Title", "Tut_01"), &m),
        SplitterAction::Split
    );
    m.gate = "left1".to_string();
    assert_eq!(
        transition_once_splits(&Split::Act1Start, &scenes("Menu_Title", "Tut_01"), &m),
        SplitterAction::Pass
    );
}

#[test]
fn menu_predicate() {
    let mut st = store();
    let m = Fake::default();
    assert_eq!(menu_splits(&Split::Menu, &scenes("Bone_05", "Menu_Title"), &m, &mut st), SplitterAction::Split);
    assert_eq!(menu_splits(&Split::Menu, &scenes("Menu_Title", "Tut_01"), &m, &mut st), SplitterAction::Pass);
}

#[test]
fn catalog_evaluates_by_index() {
    let m = Fake::default();
    let list = [Split::StartNewGame, Split::EndingSplit];
    let mut c = Catalog { splits: &list, memory: &m };
    assert_eq!(c.get(1), Some(Split::EndingSplit));
    assert_eq!(c.get(2), None);
    assert_eq!(c.transition(0, &scenes("Opening_Sequence", "Tut_01")), SplitterAction::Split);
    assert_eq!(c.transition(1, &scenes("Opening_Sequence", "Tut_01")), SplitterAction::Pass);
    assert_eq!(c.transition(5, &scenes("Opening_Sequence", "Tut_01")), SplitterAction::Pass);
}

#[test]
fn start_new_game_through_pipeline() {
    let m = Fake::default();
    let list = [Split::StartNewGame, Split::EndingSplit];
    let mut c = Catalog { splits: &list, memory: &m };
    let mut ss = SceneStore::new();
    ss.transition_now("Opening_Sequence".to_string(), false, false, String::new());
    let fired = ss.transition_now("Opening_Sequence".to_string(), true, false, "Tut_01".to_string());
    let mut st = store();
    let v = silksong_autosplit::splits(&mut c, 0, 4, fired, &mut ss, &mut st);
    assert_eq!(v.action, SplitterAction::Split);
}

#[test]
fn text_helpers() {
    assert!(has_prefix("Cinematic_Ending_A", "Cinematic_Ending"));
    assert!(!has_prefix("Cinematic", "Cinematic_Ending"));
    assert!(has_prefix("abc", ""));
    assert!(is_discontinuity_scene("Menu_Title"));
    assert!(is_discontinuity_scene("Cinematic_Stag_travel"));
    assert!(!is_discontinuity_scene("Bone_05"));
    assert_eq!(ones(0), 0);
    assert_eq!(ones(u64::MAX), 64);
    assert_eq!(ones(0b1011), 3);
}
