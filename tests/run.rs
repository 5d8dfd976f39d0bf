use silksong_autosplit::{
    update_comparison_hits, AutoSplitterState, HitReading, LoadReading, Pair, SceneStore, Shown,
    Snapshot, SplitTable, SplitterAction, Store, TimerCommand, TimerState, Variable,
};

fn snap(state: TimerState, index: Option<Option<u64>>) -> Snapshot {
    Snapshot {
        timer_state: Some(state),
        split_index: index,
        bools: Vec::new(),
        i32s: Vec::new(),
        strings: Vec::new(),
        tools_version: None,
        segments_splitted: Vec::new(),
    }
}

fn hit(recoil: bool) -> HitReading {
    HitReading {
        timer_state: TimerState::Running,
        recoil,
        hazard_death: false,
        health: Some(5),
        game_state: 4,
    }
}

fn shows(out: &[TimerCommand], v: Variable, s: Shown) -> bool {
    out.iter().any(|c| *c == TimerCommand::Show(v, s.clone()))
}

/// Fires milestone 0 on the way from the title screen into the first room.
struct OpeningTable;

impl SplitTable for OpeningTable {
    fn continuous(&mut self, _: u64, _: &mut Store) -> SplitterAction {
        SplitterAction::Pass
    }
    fn transition_once(&mut self, _: u64, _: &Pair<&str>) -> SplitterAction {
        SplitterAction::Pass
    }
    fn menu(&mut self, i: u64, s: &Pair<&str>, _: &mut Store) -> SplitterAction {
        if i == 0 && s.old == "Menu_Title" && s.current == "Tut_01" {
            SplitterAction::Split
        } else {
            SplitterAction::Pass
        }
    }
    fn transition(&mut self, _: u64, _: &Pair<&str>) -> SplitterAction {
        SplitterAction::Pass
    }
}

/// Answers every evaluation with one action.
struct Always(SplitterAction);

impl SplitTable for Always {
    fn continuous(&mut self, _: u64, _: &mut Store) -> SplitterAction {
        self.0
    }
    fn transition_once(&mut self, _: u64, _: &Pair<&str>) -> SplitterAction {
        SplitterAction::Pass
    }
    fn menu(&mut self, _: u64, _: &Pair<&str>, _: &mut Store) -> SplitterAction {
        SplitterAction::Pass
    }
    fn transition(&mut self, _: u64, _: &Pair<&str>) -> SplitterAction {
        SplitterAction::Pass
    }
}

fn running_at_zero() -> AutoSplitterState {
    let mut s = AutoSplitterState::new(&snap(TimerState::NotRunning, None), Vec::new());
    let mut out = Vec::new();
    s.start_run(true, &mut out);
    s
}

#[test]
fn opening_transition_starts_the_run() {
    let mut ss = SceneStore::new();
    ss.transition_now("Menu_Title".to_string(), false, false, String::new());
    let fired = ss.transition_now("Menu_Title".to_string(), false, true, "Tut_01".to_string());
    assert!(fired);
    let mut state = AutoSplitterState::new(&snap(TimerState::NotRunning, None), Vec::new());
    assert_eq!(state.timer_state, TimerState::NotRunning);
    let out = state.handle_splits(&mut OpeningTable, true, 3, 4, fired, &mut ss);
    assert_eq!(out.commands[0], TimerCommand::Start);
    assert_eq!(out.evaluated, vec![(0, SplitterAction::Split)]);
    assert!(ss.split_this_transition);
    assert_eq!(state.timer_state, TimerState::Running);
    assert_eq!(state.split_index, Some(0));
    assert_eq!(state.segment_hits, vec![0]);
}

#[test]
fn external_undo_merges_segments() {
    let s = snap(TimerState::Running, Some(Some(2)));
    let mut state = AutoSplitterState::new(&s, Vec::new());
    state.segments_splitted = vec![true, true];
    state.segment_hits = vec![3, 1, 0];
    state.cumulative_hits = vec![3, 4];
    state.hits = 4;
    state.update(true, 5, &s);
    let mut back = snap(TimerState::Running, Some(Some(1)));
    back.segments_splitted = vec![true, true];
    state.update(true, 5, &back);
    assert_eq!(state.split_index, Some(1));
    assert_eq!(state.segments_splitted, vec![true]);
    assert_eq!(state.segment_hits, vec![3, 1]);
    assert_eq!(state.cumulative_hits, vec![3]);
}

#[test]
fn undo_walks_back_over_skipped_segments() {
    let s = snap(TimerState::Running, Some(Some(3)));
    let mut state = AutoSplitterState::new(&s, Vec::new());
    state.segments_splitted = vec![true, false, false];
    state.segment_hits = vec![1, 0, 2, 1];
    state.cumulative_hits = vec![1, 1, 1];
    state.hits = 4;
    let out = state.update(true, 6, &snap(TimerState::Running, Some(Some(2))));
    assert_eq!(state.segment_hits, vec![1, 0, 3]);
    assert_eq!(state.cumulative_hits, vec![1]);
    assert_eq!(state.segments_splitted, vec![true, false]);
    assert!(shows(&out, Variable::SegmentHits, Shown::Count(3)));
}

#[test]
fn external_advance_replays_splits_and_skips() {
    let mut state = AutoSplitterState::new(&snap(TimerState::Running, Some(Some(0))), Vec::new());
    state.segment_hits = vec![2];
    state.hits = 2;
    let mut s = snap(TimerState::Running, Some(Some(2)));
    s.segments_splitted = vec![false, true];
    state.update(true, 6, &s);
    assert_eq!(state.split_index, Some(2));
    assert_eq!(state.segments_splitted, vec![false, true]);
    assert_eq!(state.segment_hits, vec![0, 2, 0]);
    assert_eq!(state.cumulative_hits, vec![2, 2]);
}

#[test]
fn three_hits_in_first_segment() {
    let mut state = running_at_zero();
    let mut last = Vec::new();
    for _ in 0..3 {
        state.handle_hits(true, hit(false));
        last = state.handle_hits(true, hit(true));
    }
    assert_eq!(state.hits, 3);
    assert_eq!(state.segment_hits[0], 3);
    assert!(shows(&last, Variable::Hits, Shown::Count(3)));
    assert!(shows(&last, Variable::SegmentHits, Shown::Count(3)));
    assert!(shows(&last, Variable::DeltaHits, Shown::Dash));
}

#[test]
fn held_recoil_counts_once() {
    let mut state = running_at_zero();
    for _ in 0..4 {
        state.handle_hits(true, hit(true));
    }
    assert_eq!(state.hits, 1);
}

#[test]
fn hits_need_counter_and_running_timer() {
    let mut state = running_at_zero();
    assert!(state.handle_hits(false, hit(true)).is_empty());
    let mut paused = hit(true);
    paused.timer_state = TimerState::Paused;
    assert!(state.handle_hits(true, paused).is_empty());
    assert_eq!(state.hits, 0);
    let mut idle = AutoSplitterState::new(&snap(TimerState::NotRunning, None), Vec::new());
    let mut out = Vec::new();
    idle.add_hit(&mut out);
    assert_eq!(idle.hits, 0);
    assert!(out.is_empty());
}

#[test]
fn hit_delta_against_record() {
    let mut state = AutoSplitterState::new(&snap(TimerState::NotRunning, None), vec![0, 2]);
    let mut out = Vec::new();
    state.start_run(true, &mut out);
    assert!(shows(&out, Variable::ComparisonHits, Shown::Count(0)));
    assert!(shows(&out, Variable::DeltaHits, Shown::Text("0".to_string())));
    let mut out = Vec::new();
    state.add_hit(&mut out);
    assert!(shows(&out, Variable::DeltaHits, Shown::Text("+1".to_string())));
}

#[test]
fn split_and_skip_bookkeeping() {
    let mut state = running_at_zero();
    let mut out = Vec::new();
    state.add_hit(&mut out);
    state.split_run(true, &mut out);
    assert_eq!(state.split_index, Some(1));
    assert_eq!(state.segment_hits, vec![1, 0]);
    assert_eq!(state.cumulative_hits, vec![1]);
    state.add_hit(&mut out);
    let mut out = Vec::new();
    state.skip_run(true, &mut out);
    assert_eq!(out[0], TimerCommand::SkipSplit);
    assert_eq!(state.split_index, Some(2));
    assert_eq!(state.segments_splitted, vec![true, false]);
    assert_eq!(state.segment_hits, vec![1, 0, 1]);
    assert_eq!(state.segment_hits.len() as u64, state.split_index.unwrap() + 1);
}

#[test]
fn reset_folds_record() {
    let mut state = AutoSplitterState::new(&snap(TimerState::NotRunning, None), vec![2, 5]);
    let mut out = Vec::new();
    state.start_run(true, &mut out);
    state.add_hit(&mut out);
    state.split_run(true, &mut out);
    state.add_hit(&mut out);
    state.add_hit(&mut out);
    state.split_run(true, &mut out);
    state.split_run(true, &mut out);
    assert_eq!(state.cumulative_hits, vec![1, 3, 3]);
    let mut out = Vec::new();
    state.reset_run(true, &mut out);
    assert_eq!(state.comparison_hits, vec![1, 3, 3]);
    assert_eq!(out[0], TimerCommand::SaveComparison(vec![1, 3, 3]));
    assert_eq!(state.timer_state, TimerState::NotRunning);
    assert_eq!(state.split_index, None);
    assert!(state.segment_hits.is_empty());
    assert_eq!(state.hits, 0);
    assert!(shows(&out, Variable::Hits, Shown::Count(0)));
    assert!(shows(&out, Variable::Percent, Shown::Dash));
}

#[test]
fn reset_without_counter_keeps_record() {
    let mut state = running_at_zero();
    state.comparison_hits = vec![4];
    let mut out = Vec::new();
    state.split_run(false, &mut out);
    let mut out = Vec::new();
    state.reset_run(false, &mut out);
    assert_eq!(state.comparison_hits, vec![4]);
    assert!(shows(&out, Variable::Hits, Shown::Dash));
}

#[test]
fn comparison_update_takes_minimum() {
    let mut c = vec![5, 1];
    update_comparison_hits(&mut c, &[3, 4, 6]);
    assert_eq!(c, vec![3, 1, 6]);
    let mut d = vec![2, 2, 2];
    update_comparison_hits(&mut d, &[]);
    assert_eq!(d, vec![2, 2, 2]);
}

#[test]
fn pipeline_reset_then_next_evaluated() {
    let mut state = running_at_zero();
    let mut ss = SceneStore::new();
    let out = state.handle_splits(&mut Always(SplitterAction::Reset), true, 4, 4, false, &mut ss);
    assert_eq!(out.commands[0], TimerCommand::Reset);
    // after the reset, milestone 0 is evaluated on the same tick
    assert_eq!(out.evaluated, vec![(1, SplitterAction::Reset), (0, SplitterAction::Reset)]);
    assert_eq!(state.timer_state, TimerState::NotRunning);
}

#[test]
fn pipeline_skips_until_last_milestone() {
    let mut state = running_at_zero();
    let mut ss = SceneStore::new();
    let out = state.handle_splits(&mut Always(SplitterAction::Skip), true, 4, 4, false, &mut ss);
    let skips = out.commands.iter().filter(|c| **c == TimerCommand::SkipSplit).count();
    assert_eq!(skips, 3);
    let indices: Vec<u64> = out.evaluated.iter().map(|e| e.0).collect();
    assert_eq!(indices, vec![1, 2, 3]);
    assert_eq!(state.split_index, Some(3));
}

#[test]
fn manual_split_needs_no_index_tracking() {
    let mut state = running_at_zero();
    let mut ss = SceneStore::new();
    let out = state.handle_splits(&mut Always(SplitterAction::ManualSplit), true, 4, 4, false, &mut ss);
    assert_eq!(state.split_index, Some(1));
    assert!(!out.commands.contains(&TimerCommand::Split));
    // counted like a split
    assert_eq!(state.segments_splitted, vec![true]);
    assert_eq!(state.segment_hits, vec![0, 0]);
    assert_eq!(state.cumulative_hits, vec![0]);
    // no milestone left after the next one
    state.handle_splits(&mut Always(SplitterAction::ManualSplit), true, 4, 4, false, &mut ss);
    state.handle_splits(&mut Always(SplitterAction::ManualSplit), true, 4, 4, false, &mut ss);
    assert_eq!(state.split_index, Some(2));
    let mut with_index = AutoSplitterState::new(&snap(TimerState::Running, Some(Some(0))), Vec::new());
    with_index.handle_splits(&mut Always(SplitterAction::ManualSplit), true, 4, 4, false, &mut ss);
    assert_eq!(with_index.split_index, Some(0));
}

#[test]
fn external_reset_and_start() {
    let mut state = running_at_zero();
    let mut out = Vec::new();
    state.add_hit(&mut out);
    let s = snap(TimerState::Running, None);
    state.update(true, 3, &s);
    let out = state.update(true, 3, &snap(TimerState::NotRunning, None));
    assert_eq!(state.timer_state, TimerState::NotRunning);
    assert_eq!(state.hits, 0);
    assert!(matches!(out[0], TimerCommand::SaveComparison(_)));
    let out = state.update(true, 3, &snap(TimerState::Running, None));
    assert_eq!(state.timer_state, TimerState::Running);
    assert_eq!(state.split_index, Some(0));
    assert_eq!(state.segment_hits, vec![0]);
    assert!(shows(&out, Variable::SegmentHits, Shown::Count(0)));
}

#[test]
fn external_end_freezes_counts() {
    let mut state = running_at_zero();
    let mut out = Vec::new();
    state.add_hit(&mut out);
    state.split_run(true, &mut out);
    state.add_hit(&mut out);
    state.update(true, 3, &snap(TimerState::Running, None));
    let out = state.update(true, 3, &snap(TimerState::Ended, None));
    assert_eq!(state.timer_state, TimerState::Ended);
    assert_eq!(state.split_index, Some(2));
    assert_eq!(state.cumulative_hits, vec![1, 2]);
    // the run ended on the last milestone: the best count is published now
    assert!(shows(&out, Variable::PbHits, Shown::Count(2)));
    let out = state.update(true, 3, &snap(TimerState::NotRunning, None));
    assert!(!shows(&out, Variable::PbHits, Shown::Count(2)));
    assert_eq!(state.comparison_hits, vec![1, 2]);
}

#[test]
fn own_actions_are_not_resynchronised() {
    let mut state = running_at_zero();
    let s = snap(TimerState::Running, Some(Some(0)));
    assert!(state.update(true, 3, &s).is_empty());
    let mut out = Vec::new();
    state.split_run(true, &mut out);
    let s1 = snap(TimerState::Running, Some(Some(1)));
    assert!(state.update(true, 3, &s1).is_empty());
    assert_eq!(state.segment_hits, vec![0, 0]);
}

#[test]
fn attach_during_run_sizes_segments() {
    let state = AutoSplitterState::new(&snap(TimerState::Paused, Some(Some(2))), vec![1]);
    assert_eq!(state.split_index, Some(2));
    assert_eq!(state.segment_hits, vec![0, 0, 0]);
    assert_eq!(state.segments_splitted, vec![false, false]);
    assert_eq!(state.comparison_hits, vec![1]);
}

fn load(game_state: i32, ui_state: i32, scene: &str, next: &str) -> LoadReading {
    LoadReading {
        timer_state: TimerState::Running,
        ui_state,
        scene_name: scene.to_string(),
        next_scene_name: next.to_string(),
        game_state,
        accepting_input: true,
        hero_transition_state: 0,
        scene_load_null: false,
        scene_load_activation_allowed: false,
    }
}

#[test]
fn load_removal_decisions() {
    let mut state = running_at_zero();
    assert_eq!(state.load_removal(&load(4, 4, "Bone_05", "Bone_05")), Some(false));
    assert_eq!(state.load_removal(&load(2, 4, "Bone_05", "Bone_06")), Some(true));
    assert_eq!(state.last_game_state, 2);
    let mut waiting = load(4, 4, "Bone_05", "Bone_05");
    waiting.hero_transition_state = 2;
    assert_eq!(state.load_removal(&waiting), Some(true));
    let mut stopped = load(2, 4, "Bone_05", "Bone_05");
    stopped.timer_state = TimerState::Paused;
    assert_eq!(state.load_removal(&stopped), None);
    assert_eq!(state.last_game_state, 4);
}

#[test]
fn teleport_from_menu_pauses() {
    let mut state = running_at_zero();
    state.load_removal(&load(1, 4, "Menu_Title", "Menu_Title"));
    assert_eq!(state.load_removal(&load(4, 4, "Bone_05", "Bone_05")), Some(true));
    assert!(state.look_for_teleporting);
    assert_eq!(state.load_removal(&load(6, 4, "Bone_05", "Bone_05")), Some(false));
    assert!(!state.look_for_teleporting);
}

#[test]
fn variable_names() {
    assert_eq!(Variable::Hits.name(), "hits");
    assert_eq!(Variable::SegmentHits.name(), "segment hits");
    assert_eq!(Variable::PbHits.name(), "pb hits");
    assert_eq!(Variable::DeltaHits.name(), "delta hits");
}

#[test]
fn end_keeps_whole_record() {
    let mut state = AutoSplitterState::new(&snap(TimerState::NotRunning, None), vec![0, 1, 2, 3]);
    let mut out = Vec::new();
    state.start_run(true, &mut out);
    state.update(true, 5, &snap(TimerState::Running, None));
    let out = state.update(true, 5, &snap(TimerState::Ended, None));
    assert_eq!(state.comparison_hits, vec![0, 1, 2, 3]);
    assert_eq!(state.split_index, Some(4));
    // folded with the run's zeros: the best count at the finish is 0
    assert!(shows(&out, Variable::PbHits, Shown::Count(0)));
}

#[test]
fn end_before_finish_publishes_no_best() {
    let mut state = AutoSplitterState::new(&snap(TimerState::Running, Some(Some(0))), vec![5, 5, 5]);
    let out = state.update(true, 4, &snap(TimerState::Ended, Some(Some(1))));
    assert_eq!(state.timer_state, TimerState::Ended);
    assert!(!out.iter().any(|c| matches!(c, TimerCommand::Show(Variable::PbHits, _))));
}

#[test]
fn hit_commands_per_hit() {
    let mut state = running_at_zero();
    let mut r = hit(true);
    r.hazard_death = true;
    let out = state.handle_hits(true, r);
    assert_eq!(state.hits, 2);
    let hits: Vec<&TimerCommand> = out
        .iter()
        .filter(|c| matches!(c, TimerCommand::Show(Variable::Hits, _)))
        .collect();
    assert_eq!(hits, vec![
        &TimerCommand::Show(Variable::Hits, Shown::Count(1)),
        &TimerCommand::Show(Variable::Hits, Shown::Count(2)),
    ]);
}

#[test]
fn attach_flags_cleared() {
    let state = AutoSplitterState::new(&snap(TimerState::NotRunning, Some(Some(3))), Vec::new());
    assert_eq!(state.segments_splitted, vec![false, false, false]);
    assert!(!state.look_for_teleporting);
    assert_eq!(state.last_game_state, 0);
    assert!(!state.last_recoil && !state.last_hazard && !state.last_health_0 && !state.mms_room_dupe);
}

#[test]
fn verdict_step_bookkeeping() {
    let mut state = running_at_zero();
    let mut out = Vec::new();
    assert!(state.apply_verdict(SplitterAction::Skip, true, 5, false, &mut out));
    assert_eq!(state.split_index, Some(1));
    assert!(!state.apply_verdict(SplitterAction::Pass, true, 5, false, &mut out));
    assert_eq!(state.split_index, Some(1));
    assert!(!state.apply_verdict(SplitterAction::ManualSplit, true, 5, true, &mut out));
    assert_eq!(state.split_index, Some(1));
    assert!(!state.apply_verdict(SplitterAction::Split, true, 5, false, &mut out));
    assert_eq!(state.split_index, Some(2));
    assert!(state.apply_verdict(SplitterAction::Reset, true, 5, false, &mut out));
    assert_eq!(state.timer_state, TimerState::NotRunning);
    assert!(!state.apply_verdict(SplitterAction::Skip, true, 5, false, &mut out));
    assert_eq!(state.timer_state, TimerState::NotRunning);
}
