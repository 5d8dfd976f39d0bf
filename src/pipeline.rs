use vstd::prelude::*;

use crate::scenes::{is_menu, menu_like, scene_pair, transition_step, SceneStore, SceneView};
use crate::store::{Pair, Store};
use crate::timer::SplitterAction;

verus! {

pub const GAME_STATE_PLAYING: i32 = 4;

pub const GAME_STATE_CUTSCENE: i32 = 7;

/// Game states outside any menu: playing, or in a cutscene.
pub open spec fn non_menu_game_state(gs: i32) -> bool {
    gs == GAME_STATE_PLAYING || gs == GAME_STATE_CUTSCENE
}

pub fn is_non_menu_game_state(gs: i32) -> (r: bool)
    ensures
        r == non_menu_game_state(gs),
{
    gs == GAME_STATE_PLAYING || gs == GAME_STATE_CUTSCENE
}

/// The evaluation tiers of a milestone predicate.
#[derive(Clone, Copy, Debug, PartialEq, Eq, Structural)]
pub enum Tier {
    /// Checked on every tick outside menus.
    Continuous,
    /// Checked once per transition window, until something is committed.
    TransitionOnce,
    /// Checked on the tick of a transition into or out of a menu.
    Menu,
    /// Checked on the tick of any other transition.
    Transition,
}

/// The configured milestone predicates, by milestone index and tier.
pub trait SplitTable {
    fn continuous(&mut self, index: u64, store: &mut Store) -> SplitterAction;

    fn transition_once(&mut self, index: u64, scenes: &Pair<&str>) -> SplitterAction;

    fn menu(&mut self, index: u64, scenes: &Pair<&str>, store: &mut Store) -> SplitterAction;

    fn transition(&mut self, index: u64, scenes: &Pair<&str>) -> SplitterAction;
}

/// What one evaluation decided, the tier it came from, and each tier
/// consulted with what it returned, in order.
#[derive(Clone, Debug)]
pub struct Verdict {
    pub action: SplitterAction,
    pub tier: Option<Tier>,
    pub consulted: Vec<(Tier, SplitterAction)>,
}

/// The tiers that an evaluation may consult, in order: the continuous tier
/// outside menus, the once-per-transition tier while the window is open, and
/// on a transition tick the menu or the transition tier, by whether either
/// side of the transition is menu-like.
pub open spec fn tier_order(before: SceneView, game_state: i32, trans_now: bool) -> Seq<Tier> {
    let scenes = scene_pair(before);
    (if non_menu_game_state(game_state) {
        seq![Tier::Continuous]
    } else {
        Seq::empty()
    }) + (if !before.split_this_transition {
        seq![Tier::TransitionOnce]
    } else {
        Seq::empty()
    }) + (if trans_now {
        if menu_like(scenes.0) || menu_like(scenes.1) {
            seq![Tier::Menu]
        } else {
            seq![Tier::Transition]
        }
    } else {
        Seq::empty()
    })
}

/// The tiers were consulted in `order`, each one only while all before it
/// passed, and the consulting stopped early only on an action.
pub open spec fn consulted_in_order(c: Seq<(Tier, SplitterAction)>, order: Seq<Tier>) -> bool {
    &&& c.len() <= order.len()
    &&& forall|i: int| 0 <= i < c.len() ==> #[trigger] c[i].0 == order[i]
    &&& forall|i: int| 0 <= i < c.len() - 1 ==> #[trigger] c[i].1 == SplitterAction::Pass
    &&& c.len() < order.len() ==> c.len() > 0 && c.last().1 != SplitterAction::Pass
}

/// The first action among the consulted results: the last one consulted,
/// unless it passed.
pub open spec fn first_action(c: Seq<(Tier, SplitterAction)>) -> SplitterAction {
    if c.len() > 0 && c.last().1 != SplitterAction::Pass {
        c.last().1
    } else {
        SplitterAction::Pass
    }
}

/// The tiers 2 and 3: once per transition, and on the transition tick.
pub open spec fn transition_tier(t: Option<Tier>) -> bool {
    t == Some(Tier::TransitionOnce) || t == Some(Tier::Menu) || t == Some(Tier::Transition)
}

/// One evaluation of the pipeline on detector state `before`, with the
/// game in state `game_state` and `trans_now` telling whether a transition
/// was committed this tick, gave `v` and left the detector in `after`.
pub open spec fn evaluated(
    before: SceneView,
    game_state: i32,
    trans_now: bool,
    v: Verdict,
    after: SceneView,
) -> bool {
    let scenes = scene_pair(before);
    &&& consulted_in_order(v.consulted@, tier_order(before, game_state, trans_now))
    &&& v.action == first_action(v.consulted@)
    &&& v.tier == if v.action == SplitterAction::Pass {
        None
    } else {
        Some(v.consulted@.last().0)
    }
    &&& (v.tier is None) == (v.action == SplitterAction::Pass)
    &&& v.tier == Some(Tier::Continuous) ==> non_menu_game_state(game_state)
    &&& v.tier == Some(Tier::TransitionOnce) ==> !before.split_this_transition
    &&& v.tier == Some(Tier::Menu) ==> trans_now && (menu_like(scenes.0) || menu_like(scenes.1))
    &&& v.tier == Some(Tier::Transition) ==> trans_now && !menu_like(scenes.0) && !menu_like(
        scenes.1,
    )
    &&& after == SceneView {
        split_this_transition: before.split_this_transition || v.action != SplitterAction::Pass,
        ..before
    }
}

/// Evaluates the predicate of milestone `index`: the first tier that does
/// not pass decides, and any action closes the transition window for the
/// once-per-transition tiers.
pub fn splits<T: SplitTable>(
    table: &mut T,
    index: u64,
    game_state: i32,
    trans_now: bool,
    ss: &mut SceneStore,
    store: &mut Store,
) -> (r: Verdict)
    ensures
        evaluated(old(ss)@, game_state, trans_now, r, final(ss)@),
{
    let ghost order = tier_order(ss@, game_state, trans_now);
    let ghost scenes_v = scene_pair(ss@);
    let mut consulted: Vec<(Tier, SplitterAction)> = Vec::new();
    let mut action = SplitterAction::Pass;
    let mut tier: Option<Tier> = None;
    let non_menu = is_non_menu_game_state(game_state);
    if non_menu {
        let a = table.continuous(index, store);
        consulted.push((Tier::Continuous, a));
        if a != SplitterAction::Pass {
            action = a;
            tier = Some(Tier::Continuous);
        }
    }
    let ghost k1 = consulted@.len();
    assert(order.subrange(0, k1 as int) =~= consulted@.map_values(|x: (Tier, SplitterAction)| x.0));
    if action == SplitterAction::Pass {
        let scenes = ss.pair();
        if !ss.split_this_transition {
            let a = table.transition_once(index, &scenes);
            consulted.push((Tier::TransitionOnce, a));
            if a != SplitterAction::Pass {
                action = a;
                tier = Some(Tier::TransitionOnce);
            }
        }
        if action == SplitterAction::Pass && trans_now {
            if is_menu(scenes.old) || is_menu(scenes.current) {
                let a = table.menu(index, &scenes, store);
                consulted.push((Tier::Menu, a));
                if a != SplitterAction::Pass {
                    action = a;
                    tier = Some(Tier::Menu);
                }
            } else {
                let a = table.transition(index, &scenes);
                consulted.push((Tier::Transition, a));
                if a != SplitterAction::Pass {
                    action = a;
                    tier = Some(Tier::Transition);
                }
            }
        }
    }
    if action != SplitterAction::Pass {
        ss.split_this_transition = true;
    }
    Verdict { action, tier, consulted }
}

/// At most one action per transition: once a transition tier has acted, no
/// later tick without a new transition acts from those tiers again.
pub proof fn lemma_one_transition_action_per_window(
    s0: SceneView,
    gs1: i32,
    trans1: bool,
    v1: Verdict,
    s1: SceneView,
    csn: Seq<char>,
    next_readable: bool,
    nsn: Seq<char>,
    s2: SceneView,
    gs2: i32,
    v2: Verdict,
    s3: SceneView,
)
    requires
        evaluated(s0, gs1, trans1, v1, s1),
        transition_step(s1, csn, next_readable, nsn) == (s2, false),
        evaluated(s2, gs2, false, v2, s3),
    ensures
        !(transition_tier(v1.tier) && transition_tier(v2.tier)),
{
}

} // verus!
