use vstd::prelude::*;

use crate::hits::{
    counts, folded, lemma_total_insert_zero, lemma_total_nonneg, lemma_total_prefix,
    lemma_total_push, lemma_total_split, lemma_total_update, rising_to, total,
};
use crate::pipeline::{splits, SplitTable};
use crate::scenes::{is_opening_scene, SceneStore, SceneView, MENU_TITLE, OPENING_SEQUENCE, QUIT_TO_MENU};
use crate::store::{current_of, observe, refreshed_store, Pair, Sample, Snapshot, Store};
use crate::hits::update_comparison_hits;
use crate::text::{delta_string, delta_text, same_text};
use crate::pipeline::{GAME_STATE_CUTSCENE, GAME_STATE_PLAYING};
use crate::timer::{in_run, SplitterAction, TimerState};

verus! {

pub const GAME_STATE_INACTIVE: i32 = 0;

/// The values that the timer displays.
#[derive(Clone, Copy, Debug, PartialEq, Eq, Structural)]
pub enum Variable {
    Hits,
    SegmentHits,
    PbHits,
    ComparisonHits,
    DeltaHits,
    Percent,
}

/// The name under which the timer shows a value.
pub open spec fn variable_name(v: Variable) -> Seq<char> {
    match v {
        Variable::Hits => "hits"@,
        Variable::SegmentHits => "segment hits"@,
        Variable::PbHits => "pb hits"@,
        Variable::ComparisonHits => "comparison hits"@,
        Variable::DeltaHits => "delta hits"@,
        Variable::Percent => "percent"@,
    }
}

impl Variable {
    /// The name under which the timer shows the value.
    pub fn name(&self) -> (r: &'static str)
        ensures
            r@ == variable_name(*self),
    {
        match self {
            Variable::Hits => "hits",
            Variable::SegmentHits => "segment hits",
            Variable::PbHits => "pb hits",
            Variable::ComparisonHits => "comparison hits",
            Variable::DeltaHits => "delta hits",
            Variable::Percent => "percent",
        }
    }
}

/// What a displayed value shows.
#[derive(Clone, Debug, PartialEq)]
pub enum Shown {
    Count(i64),
    Text(String),
    Dash,
}

pub enum ShownView {
    Count(i64),
    Text(Seq<char>),
    Dash,
}

impl View for Shown {
    type V = ShownView;

    open spec fn view(&self) -> ShownView {
        match self {
            Shown::Count(n) => ShownView::Count(*n),
            Shown::Text(t) => ShownView::Text(t@),
            Shown::Dash => ShownView::Dash,
        }
    }
}

/// A call on the timer or the settings store, for the host to carry out.
#[derive(Clone, Debug, PartialEq)]
pub enum TimerCommand {
    Start,
    Split,
    SkipSplit,
    Reset,
    Show(Variable, Shown),
    /// Persist the comparison record.
    SaveComparison(Vec<i64>),
}

pub enum CommandView {
    Start,
    Split,
    SkipSplit,
    Reset,
    Show(Variable, ShownView),
    SaveComparison(Seq<i64>),
}

impl View for TimerCommand {
    type V = CommandView;

    open spec fn view(&self) -> CommandView {
        match self {
            TimerCommand::Start => CommandView::Start,
            TimerCommand::Split => CommandView::Split,
            TimerCommand::SkipSplit => CommandView::SkipSplit,
            TimerCommand::Reset => CommandView::Reset,
            TimerCommand::Show(v, s) => CommandView::Show(*v, s@),
            TimerCommand::SaveComparison(c) => CommandView::SaveComparison(c@),
        }
    }
}

/// The commands of a list, by view.
pub open spec fn commands(c: Seq<TimerCommand>) -> Seq<CommandView> {
    c.map_values(|x: TimerCommand| x@)
}

/// The difference between the hits of this run and the record, as shown:
/// dashed where it does not fit in 64 bits.
pub open spec fn delta_shown(hits: i64, c: i64) -> ShownView {
    if i64::MIN <= hits - c <= i64::MAX {
        ShownView::Text(delta_text(hits - c))
    } else {
        ShownView::Dash
    }
}

/// The state of a run, as far as the reconciler keeps it.
pub struct RunView {
    pub timer_state: TimerState,
    pub split_index: Option<u64>,
    pub segments_splitted: Seq<bool>,
    pub hits: i64,
    pub segment_hits: Seq<i64>,
    pub cumulative_hits: Seq<i64>,
    pub comparison_hits: Seq<i64>,
}

/// The display of segment `i`: its hits, the record at its end and the
/// difference to it.
pub open spec fn segment_report(v: RunView, i: int) -> Seq<CommandView> {
    seq![CommandView::Show(Variable::SegmentHits, ShownView::Count(v.segment_hits[i]))] + if i
        < v.comparison_hits.len() {
        seq![
            CommandView::Show(Variable::ComparisonHits, ShownView::Count(v.comparison_hits[i])),
            CommandView::Show(Variable::DeltaHits, delta_shown(v.hits, v.comparison_hits[i])),
        ]
    } else {
        seq![
            CommandView::Show(Variable::ComparisonHits, ShownView::Dash),
            CommandView::Show(Variable::DeltaHits, ShownView::Dash),
        ]
    }
}

/// Segment display, where hit counting is on.
pub open spec fn counted_report(v: RunView, i: int, hit_counter: bool) -> Seq<CommandView> {
    if hit_counter {
        segment_report(v, i)
    } else {
        Seq::empty()
    }
}

/// The run after it started at milestone 0.
pub open spec fn started(v: RunView) -> RunView {
    RunView {
        timer_state: TimerState::Running,
        split_index: Some(0),
        segment_hits: if v.segment_hits.len() >= 1 {
            v.segment_hits.subrange(0, 1)
        } else {
            seq![0i64]
        },
        ..v
    }
}

/// The current milestone index of a run in progress.
pub open spec fn index_of(v: RunView) -> int {
    match v.split_index {
        Some(i) => i as int,
        None => 0,
    }
}

/// The cumulative counts after a split at boundary `n`: cut to `n`, or
/// filled up to `n` with the hits so far.
pub open spec fn frozen_at(cum: Seq<i64>, n: int, hits: i64) -> Seq<i64> {
    if n <= cum.len() {
        cum.subrange(0, n)
    } else {
        cum + Seq::new((n - cum.len()) as nat, |j: int| hits)
    }
}

/// The run after the current segment was split.
pub open spec fn split_done(v: RunView) -> RunView {
    let i = index_of(v);
    RunView {
        split_index: Some((i + 1) as u64),
        segments_splitted: v.segments_splitted.push(true),
        segment_hits: v.segment_hits.push(0),
        cumulative_hits: frozen_at(v.cumulative_hits, i + 1, v.hits),
        ..v
    }
}

/// The run after the current segment was skipped: it counts as not
/// achieved, and a zero enters before the running segment's count.
pub open spec fn skip_done(v: RunView) -> RunView {
    let i = index_of(v);
    RunView {
        split_index: Some((i + 1) as u64),
        segments_splitted: v.segments_splitted.push(false),
        segment_hits: v.segment_hits.insert(i, 0),
        ..v
    }
}

/// The run after a reset: the record folded in where hits are counted,
/// everything of the run cleared.
pub open spec fn reset_done(v: RunView, hit_counter: bool) -> RunView {
    RunView {
        timer_state: TimerState::NotRunning,
        split_index: None,
        segments_splitted: Seq::empty(),
        hits: 0,
        segment_hits: Seq::empty(),
        cumulative_hits: Seq::empty(),
        comparison_hits: if hit_counter {
            folded(v.comparison_hits, v.cumulative_hits)
        } else {
            v.comparison_hits
        },
    }
}

/// What a reset publishes: the record and cleared values.
pub open spec fn reset_report(v: RunView, hit_counter: bool) -> Seq<CommandView> {
    let c = folded(v.comparison_hits, v.cumulative_hits);
    let zero = if hit_counter {
        ShownView::Count(0)
    } else {
        ShownView::Dash
    };
    (if hit_counter {
        seq![CommandView::SaveComparison(c)]
    } else {
        Seq::empty()
    }) + seq![
        CommandView::Show(Variable::Hits, zero),
        CommandView::Show(Variable::SegmentHits, zero),
        CommandView::Show(Variable::ComparisonHits, ShownView::Dash),
        CommandView::Show(Variable::DeltaHits, ShownView::Dash),
        CommandView::Show(Variable::Percent, ShownView::Dash),
    ]
}

/// The run after one more hit in the current segment.
pub open spec fn hit_done(v: RunView) -> RunView {
    let i = index_of(v);
    RunView {
        hits: (v.hits + 1) as i64,
        segment_hits: v.segment_hits.update(i, (v.segment_hits[i] + 1) as i64),
        ..v
    }
}

/// What a hit publishes.
pub open spec fn hit_report(v: RunView) -> Seq<CommandView> {
    let i = index_of(v);
    seq![
        CommandView::Show(Variable::Hits, ShownView::Count(v.hits)),
        CommandView::Show(Variable::SegmentHits, ShownView::Count(v.segment_hits[i])),
        if i < v.comparison_hits.len() {
            CommandView::Show(Variable::DeltaHits, delta_shown(v.hits, v.comparison_hits[i]))
        } else {
            CommandView::Show(Variable::DeltaHits, ShownView::Dash)
        },
    ]
}

/// The run state reconciler.
pub struct AutoSplitterState {
    pub store: Store,
    pub timer_state: TimerState,
    /// `None` between runs; the index of the current milestone during one.
    pub split_index: Option<u64>,
    pub segments_splitted: Vec<bool>,
    pub look_for_teleporting: bool,
    pub last_game_state: i32,
    pub hits: i64,
    pub segment_hits: Vec<i64>,
    pub cumulative_hits: Vec<i64>,
    pub comparison_hits: Vec<i64>,
    pub last_recoil: bool,
    pub last_hazard: bool,
    pub last_health_0: bool,
    pub mms_room_dupe: bool,
}

impl View for AutoSplitterState {
    type V = RunView;

    open spec fn view(&self) -> RunView {
        RunView {
            timer_state: self.timer_state,
            split_index: self.split_index,
            segments_splitted: self.segments_splitted@,
            hits: self.hits,
            segment_hits: self.segment_hits@,
            cumulative_hits: self.cumulative_hits@,
            comparison_hits: self.comparison_hits@,
        }
    }
}

/// The invariant of the run state: during a run there is one hit count
/// per segment up to the current one; counts are never negative and add up
/// to at most the total; the cumulative counts never decrease.
pub open spec fn run_inv(v: RunView) -> bool {
    &&& in_run(v.timer_state) ==> v.split_index is Some && v.segment_hits.len() == index_of(v) + 1
    &&& 0 <= v.hits
    &&& counts(v.segment_hits)
    &&& total(v.segment_hits) <= v.hits
    &&& rising_to(v.cumulative_hits, v.hits)
}

/// Same state, but for the run's bookkeeping.
pub open spec fn same_but_run(a: &AutoSplitterState, b: &AutoSplitterState) -> bool {
    &&& a.store == b.store
    &&& a.look_for_teleporting == b.look_for_teleporting
    &&& a.last_game_state == b.last_game_state
    &&& a.last_recoil == b.last_recoil
    &&& a.last_hazard == b.last_hazard
    &&& a.last_health_0 == b.last_health_0
    &&& a.mms_room_dupe == b.mms_room_dupe
}

impl AutoSplitterState {
    pub open spec fn inv(&self) -> bool {
        run_inv(self@)
    }

    /// The shown difference between the hits so far and a record count.
    fn delta_of(&self, c: i64) -> (r: Shown)
        ensures
            r@ == delta_shown(self.hits, c),
    {
        match self.hits.checked_sub(c) {
            Some(d) => Shown::Text(delta_string(d)),
            None => Shown::Dash,
        }
    }

    /// Publishes the display of segment `i`.
    fn report_segment(&self, i: usize, out: &mut Vec<TimerCommand>)
        requires
            i < self.segment_hits@.len(),
        ensures
            commands(final(out)@) == commands(old(out)@) + segment_report(self@, i as int),
    {
        let ghost o = commands(out@);
        out.push(TimerCommand::Show(Variable::SegmentHits, Shown::Count(self.segment_hits[i])));
        if i < self.comparison_hits.len() {
            let c = self.comparison_hits[i];
            out.push(TimerCommand::Show(Variable::ComparisonHits, Shown::Count(c)));
            out.push(TimerCommand::Show(Variable::DeltaHits, self.delta_of(c)));
        } else {
            out.push(TimerCommand::Show(Variable::ComparisonHits, Shown::Dash));
            out.push(TimerCommand::Show(Variable::DeltaHits, Shown::Dash));
        }
        assert(commands(out@) =~= o + segment_report(self@, i as int));
    }

    /// Publishes the display of segment `i` where hits are counted.
    fn report_counted(&self, i: usize, hit_counter: bool, out: &mut Vec<TimerCommand>)
        requires
            i < self.segment_hits@.len(),
        ensures
            commands(final(out)@) == commands(old(out)@) + counted_report(self@, i as int, hit_counter),
    {
        if hit_counter {
            self.report_segment(i, out);
        } else {
            assert(commands(out@) =~= commands(out@) + counted_report(self@, i as int, hit_counter));
        }
    }

    /// Starts a run at milestone 0.
    pub fn start_run(&mut self, hit_counter: bool, out: &mut Vec<TimerCommand>)
        requires
            old(self).inv(),
            !in_run(old(self).timer_state),
        ensures
            final(self).inv(),
            final(self)@ == started(old(self)@),
            same_but_run(final(self), old(self)),
            commands(final(out)@) == commands(old(out)@) + seq![CommandView::Start]
                + counted_report(started(old(self)@), 0, hit_counter),
    {
        let ghost o = commands(out@);
        out.push(TimerCommand::Start);
        self.timer_state = TimerState::Running;
        self.split_index = Some(0);
        if self.segment_hits.len() >= 1 {
            proof {
                lemma_total_prefix(self.segment_hits@, 1);
            }
            self.segment_hits.truncate(1);
        } else {
            self.segment_hits.push(0);
            proof {
                assert(self.segment_hits@ =~= seq![0i64]);
                lemma_total_push(Seq::<i64>::empty(), 0);
            }
        }
        assert(self@ == started(old(self)@));
        self.report_counted(0, hit_counter, out);
        assert(commands(out@) =~= o + seq![CommandView::Start] + counted_report(
            started(old(self)@),
            0,
            hit_counter,
        ));
    }

    /// Publishes one more hit in the current segment while the timer runs.
    /// The count stays put at its largest value.
    pub fn add_hit(&mut self, out: &mut Vec<TimerCommand>)
        requires
            old(self).inv(),
        ensures
            final(self).inv(),
            same_but_run(final(self), old(self)),
            old(self).timer_state == TimerState::Running && old(self).hits < i64::MAX ==> {
                &&& final(self)@ == hit_done(old(self)@)
                &&& commands(final(out)@) == commands(old(out)@) + hit_report(final(self)@)
            },
            !(old(self).timer_state == TimerState::Running && old(self).hits < i64::MAX) ==> {
                &&& final(self)@ == old(self)@
                &&& final(out)@ == old(out)@
            },
    {
        if self.timer_state != TimerState::Running || self.hits == i64::MAX {
            return;
        }
        let ghost o = commands(out@);
        let ghost v0 = self@;
        let i = self.segment_hits.len() - 1;
        proof {
            lemma_total_update(self.segment_hits@, i as int, 0);
            assert(counts(self.segment_hits@.update(i as int, 0)));
            lemma_total_nonneg(self.segment_hits@.update(i as int, 0));
            lemma_total_update(self.segment_hits@, i as int, (self.segment_hits@[i as int] + 1) as i64);
        }
        self.hits = self.hits + 1;
        let n = self.segment_hits[i] + 1;
        self.segment_hits.set(i, n);
        assert(self@ == hit_done(v0));
        out.push(TimerCommand::Show(Variable::Hits, Shown::Count(self.hits)));
        out.push(TimerCommand::Show(Variable::SegmentHits, Shown::Count(n)));
        if i < self.comparison_hits.len() {
            let c = self.comparison_hits[i];
            let d = self.delta_of(c);
            out.push(TimerCommand::Show(Variable::DeltaHits, d));
        } else {
            out.push(TimerCommand::Show(Variable::DeltaHits, Shown::Dash));
        }
        assert(commands(out@) =~= o + hit_report(self@));
    }

    /// Splits the current segment.
    pub fn split_run(&mut self, hit_counter: bool, out: &mut Vec<TimerCommand>)
        requires
            old(self).inv(),
            in_run(old(self).timer_state),
        ensures
            final(self).inv(),
            final(self)@ == split_done(old(self)@),
            same_but_run(final(self), old(self)),
            commands(final(out)@) == commands(old(out)@) + seq![CommandView::Split]
                + counted_report(split_done(old(self)@), index_of(old(self)@) + 1, hit_counter),
    {
        let ghost o = commands(out@);
        let ghost v0 = self@;
        out.push(TimerCommand::Split);
        self.split_bookkeeping();
        self.report_counted(self.segment_hits.len() - 1, hit_counter, out);
        assert(commands(out@) =~= o + seq![CommandView::Split] + counted_report(
            split_done(v0),
            index_of(v0) + 1,
            hit_counter,
        ));
    }

    /// Skips the current segment.
    pub fn skip_run(&mut self, hit_counter: bool, out: &mut Vec<TimerCommand>)
        requires
            old(self).inv(),
            in_run(old(self).timer_state),
        ensures
            final(self).inv(),
            final(self)@ == skip_done(old(self)@),
            same_but_run(final(self), old(self)),
            commands(final(out)@) == commands(old(out)@) + seq![CommandView::SkipSplit]
                + counted_report(skip_done(old(self)@), index_of(old(self)@) + 1, hit_counter),
    {
        let ghost o = commands(out@);
        out.push(TimerCommand::SkipSplit);
        self.skip_bookkeeping();
        self.report_counted(self.segment_hits.len() - 1, hit_counter, out);
        assert(commands(out@) =~= o + seq![CommandView::SkipSplit] + counted_report(
            skip_done(old(self)@),
            index_of(old(self)@) + 1,
            hit_counter,
        ));
    }

    fn split_bookkeeping(&mut self)
        requires
            old(self).inv(),
            in_run(old(self).timer_state),
        ensures
            final(self).inv(),
            final(self)@ == split_done(old(self)@),
            same_but_run(final(self), old(self)),
    {
        let ghost v0 = self@;
        let len = self.segment_hits.len();
        self.split_index = Some(len as u64);
        self.segments_splitted.push(true);
        proof {
            lemma_total_push(self.segment_hits@, 0);
        }
        self.segment_hits.push(0);
        freeze(&mut self.cumulative_hits, len, self.hits);
        assert(self@ == split_done(v0));
    }

    fn skip_bookkeeping(&mut self)
        requires
            old(self).inv(),
            in_run(old(self).timer_state),
        ensures
            final(self).inv(),
            final(self)@ == skip_done(old(self)@),
            same_but_run(final(self), old(self)),
    {
        let ghost v0 = self@;
        let len = self.segment_hits.len();
        self.split_index = Some(len as u64);
        self.segments_splitted.push(false);
        proof {
            lemma_total_insert_zero(self.segment_hits@, len - 1);
        }
        self.segment_hits.insert(len - 1, 0);
        assert(self@ == skip_done(v0));
    }

    /// A split that the runner made by hand: counted like a split, with no
    /// call on the timer, and only where the timer reports no split index
    /// (`tracking` is false) and a milestone remains after the next one.
    pub fn manual_split(
        &mut self,
        hit_counter: bool,
        splits_len: usize,
        tracking: bool,
        out: &mut Vec<TimerCommand>,
    )
        requires
            old(self).inv(),
            in_run(old(self).timer_state),
        ensures
            final(self).inv(),
            same_but_run(final(self), old(self)),
            manual_allowed(old(self)@, tracking, splits_len as int) ==> {
                &&& final(self)@ == split_done(old(self)@)
                &&& commands(final(out)@) == commands(old(out)@) + counted_report(
                    split_done(old(self)@),
                    index_of(old(self)@) + 1,
                    hit_counter,
                )
            },
            !manual_allowed(old(self)@, tracking, splits_len as int) ==> {
                &&& final(self)@ == old(self)@
                &&& final(out)@ == old(out)@
            },
    {
        if tracking {
            return;
        }
        let len = self.segment_hits.len();
        if len >= splits_len || splits_len - len < 2 {
            return;
        }
        self.split_bookkeeping();
        self.report_counted(len, hit_counter, out);
    }

    /// Clears the run, folding its counts into the record where hits are
    /// counted.
    pub fn reset_run(&mut self, hit_counter: bool, out: &mut Vec<TimerCommand>)
        requires
            old(self).inv(),
        ensures
            final(self).inv(),
            final(self)@ == reset_done(old(self)@, hit_counter),
            final(self).store == old(self).store,
            !final(self).look_for_teleporting,
            final(self).last_game_state == GAME_STATE_INACTIVE,
            final(self).last_recoil == old(self).last_recoil,
            final(self).last_hazard == old(self).last_hazard,
            final(self).last_health_0 == old(self).last_health_0,
            final(self).mms_room_dupe == old(self).mms_room_dupe,
            commands(final(out)@) == commands(old(out)@) + reset_report(old(self)@, hit_counter),
    {
        let ghost o = commands(out@);
        let ghost v0 = self@;
        if hit_counter {
            update_comparison_hits(&mut self.comparison_hits, self.cumulative_hits.as_slice());
            out.push(TimerCommand::SaveComparison(self.comparison_hits.clone()));
        }
        self.timer_state = TimerState::NotRunning;
        self.split_index = None;
        self.segments_splitted.clear();
        self.hits = 0;
        self.segment_hits.clear();
        self.cumulative_hits.clear();
        if hit_counter {
            out.push(TimerCommand::Show(Variable::Hits, Shown::Count(0)));
            out.push(TimerCommand::Show(Variable::SegmentHits, Shown::Count(0)));
        } else {
            out.push(TimerCommand::Show(Variable::Hits, Shown::Dash));
            out.push(TimerCommand::Show(Variable::SegmentHits, Shown::Dash));
        }
        out.push(TimerCommand::Show(Variable::ComparisonHits, Shown::Dash));
        out.push(TimerCommand::Show(Variable::DeltaHits, Shown::Dash));
        out.push(TimerCommand::Show(Variable::Percent, Shown::Dash));
        self.look_for_teleporting = false;
        self.last_game_state = GAME_STATE_INACTIVE;
        assert(self@ == reset_done(v0, hit_counter));
        assert(commands(out@) =~= o + reset_report(v0, hit_counter));
    }
}

/// Going back from boundary `i` over the segments that were not split.
pub open spec fn walk_back(flags: Seq<bool>, i: int) -> int
    decreases i,
{
    if i >= 1 && !(i - 1 < flags.len() && flags[i - 1]) {
        walk_back(flags, i - 1)
    } else {
        i
    }
}

/// The run after the runner undid splits back to milestone `n`: the hits
/// of the undone segments merge into segment `n`, and the cumulative counts
/// and split flags are cut back to that boundary.
pub open spec fn undone(v: RunView, n: int) -> RunView {
    let seg = v.segment_hits;
    RunView {
        split_index: Some(n as u64),
        segment_hits: seg.subrange(0, n + 1).update(
            n,
            (seg[n] + total(seg.subrange(n + 1, seg.len() as int))) as i64,
        ),
        cumulative_hits: if n < v.cumulative_hits.len() {
            v.cumulative_hits.subrange(0, walk_back(v.segments_splitted, n))
        } else {
            v.cumulative_hits
        },
        segments_splitted: if n <= v.segments_splitted.len() {
            v.segments_splitted.subrange(0, n)
        } else {
            v.segments_splitted
        },
        ..v
    }
}

/// The timer's answer for segment `i`; no answer counts as not split.
pub open spec fn answer(a: Seq<bool>, i: int) -> bool {
    0 <= i < a.len() && a[i]
}

/// Bookkeeping of one segment `i` that the runner split or skipped.
pub open spec fn advance_one(v: RunView, i: int, splitted: bool) -> RunView {
    if splitted {
        RunView {
            segments_splitted: v.segments_splitted.push(true),
            segment_hits: v.segment_hits.push(0),
            cumulative_hits: frozen_at(v.cumulative_hits, i + 1, v.hits),
            ..v
        }
    } else {
        RunView {
            segments_splitted: v.segments_splitted.push(false),
            segment_hits: v.segment_hits.insert(i, 0),
            ..v
        }
    }
}

/// Bookkeeping of the segments `o` to `m - 1`, each by the timer's answer.
pub open spec fn advanced(v: RunView, o: int, m: int, a: Seq<bool>) -> RunView
    decreases m - o,
{
    if m <= o {
        v
    } else {
        advance_one(advanced(v, o, m - 1, a), m - 1, answer(a, m - 1))
    }
}

/// An index that the vectors can reach.
pub open spec fn fits(i: u64) -> bool {
    i < usize::MAX
}

pub open spec fn or_zero(i: Option<u64>) -> int {
    match i {
        Some(k) => k as int,
        None => 0,
    }
}

/// The run after the runner moved it to milestone `n` by hand.
pub open spec fn moved(v: RunView, n: Option<u64>, a: Seq<bool>) -> RunView {
    match n {
        Some(k) => if !fits(k) || k as int == index_of(v) {
            v
        } else if (k as int) < index_of(v) {
            undone(v, k as int)
        } else {
            RunView { split_index: Some(k), ..advanced(v, index_of(v), k as int, a) }
        },
        None => v,
    }
}

/// The milestone at which a run that the timer started stands.
pub open spec fn start_index(ip: Option<(Option<u64>, Option<u64>)>) -> u64 {
    let k = match ip {
        Some(p) => or_zero(p.1),
        None => 0,
    };
    if fits(k as u64) {
        k as u64
    } else {
        0
    }
}

/// The run after the timer started it at milestone `k`.
pub open spec fn started_at(v: RunView, ns: TimerState, k: int) -> RunView {
    let seg = v.segment_hits;
    RunView {
        timer_state: ns,
        split_index: Some(k as u64),
        segment_hits: if k + 1 <= seg.len() {
            seg.subrange(0, k + 1)
        } else {
            seg + Seq::new((k + 1 - seg.len()) as nat, |j: int| 0i64)
        },
        ..v
    }
}

pub open spec fn opt_less(a: Option<u64>, b: Option<u64>) -> bool {
    match (a, b) {
        (None, Some(_)) => true,
        (Some(x), Some(y)) => x < y,
        _ => false,
    }
}

/// The final milestone of a run that ended: the timer's index if it moved
/// forward, else one past the previous; without an index from the timer, the
/// last configured milestone.
pub open spec fn end_index(v: RunView, ip: Option<(Option<u64>, Option<u64>)>, splits_len: int) -> Option<u64> {
    match ip {
        Some(p) => if opt_less(p.0, p.1) {
            p.1
        } else if or_zero(p.0) < u64::MAX {
            Some((or_zero(p.0) + 1) as u64)
        } else {
            Some(u64::MAX)
        },
        None => if index_of(v) < splits_len {
            Some((splits_len - 1) as u64)
        } else {
            v.split_index
        },
    }
}

/// The run after it ended at milestone `e`: where hits are counted, the
/// cumulative counts are frozen at `e`.
pub open spec fn ended(v: RunView, hit_counter: bool, e: Option<u64>) -> RunView {
    let base = RunView { timer_state: TimerState::Ended, split_index: e, ..v };
    match e {
        Some(i) => if hit_counter && fits(i) {
            RunView {
                cumulative_hits: frozen_at(v.cumulative_hits, i as int, v.hits),
                ..base
            }
        } else {
            base
        },
        None => base,
    }
}

/// Between runs, the split index is the timer's, where it reports one.
pub open spec fn adopt(v: RunView, ip: Option<(Option<u64>, Option<u64>)>) -> RunView {
    match ip {
        Some(p) => RunView { split_index: p.1, ..v },
        None => v,
    }
}

/// Nothing happened that this component did not already account for.
pub open spec fn quiet(
    v: RunView,
    sp: (TimerState, TimerState),
    ip: Option<(Option<u64>, Option<u64>)>,
) -> bool {
    let index_still = match ip {
        Some(p) => p.0 == p.1,
        None => true,
    };
    let index_known = match ip {
        Some(p) => p.1 == v.split_index,
        None => true,
    };
    (sp.0 == sp.1 && index_still) || (sp.1 == v.timer_state && index_known)
}

/// The run after reconciling it with the timer's state pair `sp` and index
/// pair `ip`; `a` holds the timer's per-segment answers.
pub open spec fn reconciled(
    v: RunView,
    hit_counter: bool,
    splits_len: int,
    sp: Option<(TimerState, TimerState)>,
    ip: Option<(Option<u64>, Option<u64>)>,
    a: Seq<bool>,
) -> RunView {
    match sp {
        None => v,
        Some(s) => {
            let ns = s.1;
            let os = v.timer_state;
            if quiet(v, s, ip) {
                v
            } else if ns == TimerState::NotRunning && (in_run(os) || os == TimerState::Ended) {
                adopt(reset_done(v, hit_counter), ip)
            } else if in_run(ns) && !in_run(os) {
                started_at(v, ns, start_index(ip) as int)
            } else if ns == TimerState::Ended && in_run(os) {
                adopt(ended(v, hit_counter, end_index(v, ip, splits_len)), ip)
            } else if in_run(ns) && in_run(os) {
                RunView {
                    timer_state: ns,
                    ..moved(
                        v,
                        match ip {
                            Some(p) => p.1,
                            None => None,
                        },
                        a,
                    )
                }
            } else {
                adopt(RunView { timer_state: ns, ..v }, ip)
            }
        },
    }
}

impl AutoSplitterState {
    /// Undoes splits back to milestone `n`.
    fn undo_to(&mut self, n: u64)
        requires
            old(self).inv(),
            in_run(old(self).timer_state),
            (n as int) < index_of(old(self)@),
        ensures
            final(self).inv(),
            final(self)@ == undone(old(self)@, n as int),
            same_but_run(final(self), old(self)),
    {
        let ghost v0 = self@;
        let ghost seg = self.segment_hits@;
        let len = self.segment_hits.len();
        assert(n < len);
        let new_i = n as usize;
        let ghost t = seg.subrange(new_i + 1, len as int);
        proof {
            lemma_total_split(seg, new_i + 1);
            lemma_total_nonneg(seg.subrange(0, new_i + 1));
            assert(counts(t));
        }
        let mut tail: i64 = 0;
        let mut j = new_i + 1;
        assert(seg.subrange(new_i + 1, j as int) =~= Seq::<i64>::empty());
        while j < len
            invariant
                new_i + 1 <= j <= len,
                len == seg.len(),
                self@ == v0,
                seg == v0.segment_hits,
                t == seg.subrange(new_i + 1, len as int),
                counts(t),
                total(t) <= v0.hits,
                tail == total(seg.subrange(new_i + 1, j as int)),
            decreases len - j,
        {
            proof {
                assert(seg.subrange(new_i + 1, j + 1).drop_last() =~= seg.subrange(new_i + 1, j as int));
                assert(seg.subrange(new_i + 1, j + 1) =~= t.subrange(0, j + 1 - (new_i + 1)));
                lemma_total_prefix(t, j + 1 - (new_i + 1));
            }
            tail = tail + self.segment_hits[j];
            j = j + 1;
        }
        assert(seg.subrange(new_i + 1, len as int) =~= t);
        let ghost p = seg.subrange(0, new_i + 1);
        proof {
            assert(p.drop_last() =~= seg.subrange(0, new_i as int));
            assert(counts(p.drop_last()));
            lemma_total_nonneg(p.drop_last());
            lemma_total_update(p, new_i as int, (seg[new_i as int] + tail) as i64);
            lemma_total_nonneg(t);
        }
        let merged = self.segment_hits[new_i] + tail;
        self.segment_hits.set(new_i, merged);
        self.segment_hits.truncate(new_i + 1);
        assert(self.segment_hits@ =~= p.update(new_i as int, merged));
        if new_i < self.cumulative_hits.len() {
            let mut i = new_i;
            while i >= 1 && !(i - 1 < self.segments_splitted.len() && self.segments_splitted[i - 1])
                invariant
                    i <= new_i,
                    walk_back(self.segments_splitted@, i as int) == walk_back(
                        self.segments_splitted@,
                        new_i as int,
                    ),
                decreases i,
            {
                i = i - 1;
            }
            self.cumulative_hits.truncate(i);
        }
        self.segments_splitted.truncate(new_i);
        self.split_index = Some(n);
        assert(self@ == undone(v0, n as int));
        assert(counts(self.segment_hits@));
        assert(rising_to(self.cumulative_hits@, self.hits));
    }

    /// Keeps the books for the segments that the runner split or skipped up
    /// to milestone `n`, by the timer's answers `a`.
    fn advance_to(&mut self, n: u64, a: &Vec<bool>)
        requires
            old(self).inv(),
            in_run(old(self).timer_state),
            index_of(old(self)@) < n,
            fits(n),
        ensures
            final(self).inv(),
            final(self)@ == (RunView {
                split_index: Some(n),
                ..advanced(old(self)@, index_of(old(self)@), n as int, a@)
            }),
            final(self).timer_state == old(self).timer_state,
            same_but_run(final(self), old(self)),
    {
        let ghost v0 = self@;
        let ghost o = index_of(v0);
        let mut idx: u64 = match self.split_index {
            Some(k) => k,
            None => 0,
        };
        while idx < n
            invariant
                o <= idx <= n,
                fits(n),
                self@ == (RunView { split_index: v0.split_index, ..advanced(v0, o, idx as int, a@) }),
                self.segment_hits@.len() == idx + 1,
                0 <= self.hits,
                counts(self.segment_hits@),
                total(self.segment_hits@) <= self.hits,
                rising_to(self.cumulative_hits@, self.hits),
                same_but_run(self, old(self)),
                self.timer_state == v0.timer_state,
            decreases n - idx,
        {
            let i = idx as usize;
            let splitted = i < a.len() && a[i];
            self.segments_splitted.push(splitted);
            if splitted {
                proof {
                    lemma_total_push(self.segment_hits@, 0);
                }
                self.segment_hits.push(0);
                freeze(&mut self.cumulative_hits, i + 1, self.hits);
            } else {
                proof {
                    lemma_total_insert_zero(self.segment_hits@, i as int);
                }
                self.segment_hits.insert(i, 0);
            }
            idx = idx + 1;
        }
        self.split_index = Some(n);
    }

    /// The timer started a run at milestone `k`.
    fn start_at(&mut self, ns: TimerState, k: u64, hit_counter: bool, out: &mut Vec<TimerCommand>)
        requires
            old(self).inv(),
            !in_run(old(self).timer_state),
            in_run(ns),
            fits(k),
        ensures
            final(self).inv(),
            final(self)@ == started_at(old(self)@, ns, k as int),
            same_but_run(final(self), old(self)),
            commands(final(out)@) == commands(old(out)@) + counted_report(
                final(self)@,
                k as int,
                hit_counter,
            ),
    {
        let ghost v0 = self@;
        let ghost seg = self.segment_hits@;
        self.timer_state = ns;
        self.split_index = Some(k);
        let ghost v1 = self@;
        let target = k as usize + 1;
        if self.segment_hits.len() >= target {
            proof {
                lemma_total_prefix(seg, target as int);
            }
            self.segment_hits.truncate(target);
        } else {
            while self.segment_hits.len() < target
                invariant
                    seg.len() <= self.segment_hits@.len() <= target,
                    self.segment_hits@ == seg + Seq::new(
                        (self.segment_hits@.len() - seg.len()) as nat,
                        |j: int| 0i64,
                    ),
                    counts(self.segment_hits@),
                    total(self.segment_hits@) == total(seg),
                    self@ == (RunView { segment_hits: self.segment_hits@, ..v1 }),
                    same_but_run(self, old(self)),
                decreases target - self.segment_hits@.len(),
            {
                proof {
                    lemma_total_push(self.segment_hits@, 0);
                }
                self.segment_hits.push(0);
                assert(self.segment_hits@ =~= seg + Seq::new(
                    (self.segment_hits@.len() - seg.len()) as nat,
                    |j: int| 0i64,
                ));
            }
        }
        assert(self@ == started_at(v0, ns, k as int));
        self.report_counted(k as usize, hit_counter, out);
    }

    /// The timer ended the run at milestone `e`.
    fn end_run(&mut self, hit_counter: bool, e: Option<u64>)
        requires
            old(self).inv(),
        ensures
            final(self).inv(),
            final(self)@ == ended(old(self)@, hit_counter, e),
            same_but_run(final(self), old(self)),
    {
        self.timer_state = TimerState::Ended;
        self.split_index = e;
        if let Some(i) = e {
            if hit_counter && i < usize::MAX as u64 {
                let i = i as usize;
                freeze(&mut self.cumulative_hits, i, self.hits);
            }
        }
    }

    /// Publishes the best count when the run ended on the last milestone.
    fn report_end(&self, hit_counter: bool, e: Option<u64>, splits_len: usize, out: &mut Vec<TimerCommand>)
        ensures
            commands(final(out)@) == commands(old(out)@) + end_report(self@, hit_counter, e, splits_len as int),
    {
        let ghost o = commands(out@);
        if hit_counter && splits_len >= 1 && e == Some((splits_len - 1) as u64) {
            let mut c = self.comparison_hits.clone();
            update_comparison_hits(&mut c, self.cumulative_hits.as_slice());
            if c.len() > 0 {
                out.push(TimerCommand::Show(Variable::PbHits, Shown::Count(c[c.len() - 1])));
            }
        }
        assert(commands(out@) =~= o + end_report(self@, hit_counter, e, splits_len as int));
    }

    fn end_index_of(&self, ip: Option<Pair<Option<u64>>>, splits_len: usize) -> (r: Option<u64>)
        ensures
            r == end_index(
                self@,
                match ip {
                    Some(p) => Some(p@),
                    None => None,
                },
                splits_len as int,
            ),
    {
        match ip {
            Some(p) => {
                let forward = match (p.old, p.current) {
                    (None, Some(_)) => true,
                    (Some(x), Some(y)) => x < y,
                    _ => false,
                };
                if forward {
                    p.current
                } else {
                    let o = match p.old {
                        Some(x) => x,
                        None => 0,
                    };
                    if o < u64::MAX {
                        Some(o + 1)
                    } else {
                        Some(u64::MAX)
                    }
                }
            },
            None => {
                let o = match self.split_index {
                    Some(x) => x,
                    None => 0,
                };
                if (o as u128) < (splits_len as u128) {
                    Some((splits_len - 1) as u64)
                } else {
                    self.split_index
                }
            },
        }
    }

    /// One tick of reconciliation: refreshes the store from `snap`, then
    /// follows whatever the timer did that this component did not do itself
    /// (a reset, a start, an end, undone or skipped splits). Returns the
    /// calls for the host to make.
    #[verifier::rlimit(60)]
    pub fn update(&mut self, hit_counter: bool, splits_len: usize, snap: &Snapshot) -> (out: Vec<TimerCommand>)
        requires
            old(self).inv(),
        ensures
            final(self).inv(),
            refreshed_store(old(self).store, final(self).store, *snap),
            old(self).store.wf() ==> final(self).store.wf(),
            final(self)@ == reconciled(
                old(self)@,
                hit_counter,
                splits_len as int,
                final(self).store.timer_state@,
                final(self).store.split_index@,
                snap.segments_splitted@,
            ),
            commands(out@) == reconcile_report(
                old(self)@,
                hit_counter,
                splits_len as int,
                final(self).store.timer_state@,
                final(self).store.split_index@,
                final(self)@,
            ),
    {
        let mut out: Vec<TimerCommand> = Vec::new();
        assert(commands(out@) =~= Seq::empty());
        self.store.update_all(snap);
        let sp = match self.store.get_timer_state_pair() {
            Some(p) => p,
            None => return out,
        };
        let ip = self.store.get_split_index_pair();
        let ghost ipv = self.store.split_index@;
        let index_still = match ip {
            Some(p) => p.unchanged(),
            None => true,
        };
        let index_known = match ip {
            Some(p) => p.current.same(&self.split_index),
            None => true,
        };
        if (sp.old == sp.current && index_still) || (sp.current == self.timer_state && index_known) {
            return out;
        }
        let ns = sp.current;
        let os = self.timer_state;
        let os_in_run = os == TimerState::Running || os == TimerState::Paused;
        let ns_in_run = ns == TimerState::Running || ns == TimerState::Paused;
        if ns == TimerState::NotRunning && (os_in_run || os == TimerState::Ended) {
            self.reset_run(hit_counter, &mut out);
            if let Some(p) = ip {
                self.split_index = p.current;
            }
        } else if ns_in_run && !os_in_run {
            let k = match ip {
                Some(p) => match p.current {
                    Some(x) => x,
                    None => 0,
                },
                None => 0,
            };
            let k = if k < usize::MAX as u64 {
                k
            } else {
                0
            };
            self.start_at(ns, k, hit_counter, &mut out);
        } else if ns == TimerState::Ended && os_in_run {
            let e = self.end_index_of(ip, splits_len);
            self.end_run(hit_counter, e);
            if let Some(p) = ip {
                self.split_index = p.current;
            }
            self.report_end(hit_counter, e, splits_len, &mut out);
        } else if ns_in_run && os_in_run {
            let o = match self.split_index {
                Some(x) => x,
                None => 0,
            };
            if let Some(p) = ip {
                if let Some(n) = p.current {
                    if n < usize::MAX as u64 && n != o {
                        if n < o {
                            self.undo_to(n);
                        } else {
                            self.advance_to(n, &snap.segments_splitted);
                        }
                        assert(self.split_index == Some(n));
                        assert(in_run(self.timer_state));
                        self.report_counted(n as usize, hit_counter, &mut out);
                    }
                }
            }
            self.timer_state = ns;
        } else {
            self.timer_state = ns;
            if let Some(p) = ip {
                self.split_index = p.current;
            }
        }
        out
    }
}

pub const GAME_STATE_MAIN_MENU: i32 = 1;

pub const GAME_STATE_LOADING: i32 = 2;

pub const GAME_STATE_ENTERING_LEVEL: i32 = 3;

pub const GAME_STATE_EXITING_LEVEL: i32 = 6;

pub const UI_STATE_CUTSCENE: i32 = 3;

pub const UI_STATE_PLAYING: i32 = 4;

pub const UI_STATE_PAUSED: i32 = 5;

pub const HERO_TRANSITION_STATE_WAITING_TO_ENTER_LEVEL: i32 = 2;

/// What load removal reads on one tick.
pub struct LoadReading {
    /// The timer's state as the host reports it now.
    pub timer_state: TimerState,
    pub ui_state: i32,
    pub scene_name: String,
    pub next_scene_name: String,
    pub game_state: i32,
    pub accepting_input: bool,
    pub hero_transition_state: i32,
    pub scene_load_null: bool,
    pub scene_load_activation_allowed: bool,
}

/// A load toward or from a menu is under way.
pub open spec fn loading_menu(scene: Seq<char>, next: Seq<char>) -> bool {
    scene == QUIT_TO_MENU@ || (scene != MENU_TITLE@ && (next.len() == 0 || next == MENU_TITLE@))
}

/// The teleport watch after this tick's game state.
pub open spec fn teleport_watch(look: bool, last_gs: i32, gs: i32) -> bool {
    let l = look || (gs == GAME_STATE_PLAYING && last_gs == GAME_STATE_MAIN_MENU);
    l && (gs == GAME_STATE_PLAYING || gs == GAME_STATE_ENTERING_LEVEL)
}

/// The room-duplication flag after this tick's readings.
pub open spec fn room_dupe(mms: bool, last_gs: i32, r: &LoadReading) -> bool {
    if r.game_state == GAME_STATE_LOADING && last_gs == GAME_STATE_CUTSCENE && r.scene_name@
        == OPENING_SEQUENCE@ {
        true
    } else if r.game_state == GAME_STATE_PLAYING {
        false
    } else {
        mms
    }
}

/// Game time stands still: while teleporting, outside play, in a load, or
/// while the hero waits to enter a level.
pub open spec fn game_time_paused(look: bool, mms: bool, r: &LoadReading) -> bool {
    let gs = r.game_state;
    let ui = r.ui_state;
    let scene = r.scene_name@;
    let next = r.next_scene_name@;
    look || ((gs == GAME_STATE_PLAYING || gs == GAME_STATE_ENTERING_LEVEL) && ui != UI_STATE_PLAYING)
        || (gs != GAME_STATE_PLAYING && gs != GAME_STATE_CUTSCENE && !r.accepting_input && !mms) || ((
    gs == GAME_STATE_EXITING_LEVEL && (r.scene_load_null || r.scene_load_activation_allowed) && !mms)
        || gs == GAME_STATE_LOADING) || r.hero_transition_state
        == HERO_TRANSITION_STATE_WAITING_TO_ENTER_LEVEL || (ui != UI_STATE_PLAYING && (loading_menu(
        scene,
        next,
    ) || (ui != UI_STATE_PAUSED && ui != UI_STATE_CUTSCENE && next.len() > 0)) && next != scene)
}

/// What hit detection reads on one tick.
pub struct HitReading {
    /// The timer's state as the host reports it now.
    pub timer_state: TimerState,
    /// The hero recoils from damage.
    pub recoil: bool,
    pub hazard_death: bool,
    pub health: Option<i32>,
    pub game_state: i32,
}

/// The hero lies at zero health in play.
pub open spec fn health_zero(r: HitReading) -> bool {
    r.health == Some(0i32) && r.game_state == GAME_STATE_PLAYING
}

/// The number of hit events that begin on this tick.
pub open spec fn hit_edges(s: &AutoSplitterState, r: HitReading) -> int {
    (if !s.last_recoil && r.recoil { 1int } else { 0 }) + (if !s.last_hazard && r.hazard_death {
        1int
    } else {
        0
    }) + (if !s.last_health_0 && health_zero(r) { 1int } else { 0 })
}

/// The run after `k` hits.
pub open spec fn hits_done(v: RunView, k: nat) -> RunView
    decreases k,
{
    if k == 0 {
        v
    } else {
        hit_done(hits_done(v, (k - 1) as nat))
    }
}

/// What an action does to a run: the new run, the commands, and whether the
/// following milestone is evaluated on the same tick. Between runs only a
/// split acts, by starting the run; during a run a reset clears it, a skip or
/// a split moves on (a skip or a reset lets the next milestone be evaluated
/// too), and a hand-made split counts as a split where it is allowed.
pub open spec fn step(
    v: RunView,
    a: SplitterAction,
    hit_counter: bool,
    splits_len: int,
    tracking: bool,
) -> (RunView, Seq<CommandView>, bool) {
    let i = index_of(v) + 1;
    if v.timer_state == TimerState::NotRunning {
        if a == SplitterAction::Split {
            (started(v), seq![CommandView::Start] + counted_report(started(v), 0, hit_counter), false)
        } else {
            (v, Seq::empty(), false)
        }
    } else if in_run(v.timer_state) {
        if a == SplitterAction::Reset {
            (reset_done(v, hit_counter), seq![CommandView::Reset] + reset_report(v, hit_counter), true)
        } else if a == SplitterAction::Skip {
            (
                skip_done(v),
                seq![CommandView::SkipSplit] + counted_report(skip_done(v), i, hit_counter),
                true,
            )
        } else if a == SplitterAction::Split {
            (
                split_done(v),
                seq![CommandView::Split] + counted_report(split_done(v), i, hit_counter),
                false,
            )
        } else if a == SplitterAction::ManualSplit && manual_allowed(v, tracking, splits_len) {
            (split_done(v), counted_report(split_done(v), i, hit_counter), false)
        } else {
            (v, Seq::empty(), false)
        }
    } else {
        (v, Seq::empty(), false)
    }
}

/// The milestone whose predicate is evaluated next: milestone 0 between runs,
/// the one after the current milestone during a run, none past the last.
pub open spec fn next_milestone(v: RunView, splits_len: int) -> Option<u64> {
    if v.timer_state == TimerState::NotRunning {
        if splits_len > 0 {
            Some(0)
        } else {
            None
        }
    } else if in_run(v.timer_state) {
        if index_of(v) + 1 < splits_len {
            Some((index_of(v) + 1) as u64)
        } else {
            None
        }
    } else {
        None
    }
}

/// The run and the commands after the verdicts of `t`, one step each.
pub open spec fn replay(
    v: RunView,
    t: Seq<(u64, SplitterAction)>,
    hit_counter: bool,
    splits_len: int,
    tracking: bool,
) -> (RunView, Seq<CommandView>)
    decreases t.len(),
{
    if t.len() == 0 {
        (v, Seq::empty())
    } else {
        let r = replay(v, t.drop_last(), hit_counter, splits_len, tracking);
        let s = step(r.0, t.last().1, hit_counter, splits_len, tracking);
        (s.0, r.1 + s.1)
    }
}

/// Each verdict of `t` is for the milestone that was next when it came.
pub open spec fn prefix_ok(
    v: RunView,
    t: Seq<(u64, SplitterAction)>,
    hit_counter: bool,
    splits_len: int,
    tracking: bool,
) -> bool {
    forall|k: int|
        0 <= k < t.len() ==> next_milestone(
            #[trigger] replay(v, t.subrange(0, k), hit_counter, splits_len, tracking).0,
            splits_len,
        ) == Some(t[k].0)
}

/// One tick's evaluations: each verdict is for the milestone that was next;
/// every verdict but the last let evaluation go on; and evaluation stopped
/// only where the last verdict said so or no milestone was left.
pub open spec fn evaluation_ok(
    v: RunView,
    t: Seq<(u64, SplitterAction)>,
    hit_counter: bool,
    splits_len: int,
    tracking: bool,
) -> bool {
    &&& prefix_ok(v, t, hit_counter, splits_len, tracking)
    &&& forall|k: int|
        0 <= k < t.len() - 1 ==> #[trigger] step(
            replay(v, t.subrange(0, k), hit_counter, splits_len, tracking).0,
            t[k].1,
            hit_counter,
            splits_len,
            tracking,
        ).2
    &&& t.len() == 0 ==> next_milestone(v, splits_len) is None
    &&& t.len() > 0 ==> (!step(
        replay(v, t.drop_last(), hit_counter, splits_len, tracking).0,
        t.last().1,
        hit_counter,
        splits_len,
        tracking,
    ).2 || next_milestone(replay(v, t, hit_counter, splits_len, tracking).0, splits_len) is None)
}

/// Some verdict of `t` is an action.
pub open spec fn any_action(t: Seq<(u64, SplitterAction)>) -> bool {
    exists|k: int| 0 <= k < t.len() && t[k].1 != SplitterAction::Pass
}

/// The commands of one tick of split handling, and the milestones evaluated
/// with their verdicts.
pub struct SplitsOutcome {
    pub commands: Vec<TimerCommand>,
    pub evaluated: Vec<(u64, SplitterAction)>,
}

/// The milestone at which a reconciler attaches: the timer's index where it
/// reports one that the vectors can reach, 0 otherwise.
pub open spec fn attach_index(reported: Option<u64>) -> u64 {
    match reported {
        Some(i) => if fits(i) {
            i
        } else {
            0
        },
        None => 0,
    }
}

/// What the hits of one tick publish: a hit report after each of the first
/// `k` hits.
pub open spec fn hits_report(v: RunView, k: nat) -> Seq<CommandView>
    decreases k,
{
    if k == 0 {
        Seq::empty()
    } else {
        hits_report(v, (k - 1) as nat) + hit_report(hits_done(v, k))
    }
}

/// Fuel of the split loop: the milestones left in a run, none between runs.
pub open spec fn splits_left(s: &AutoSplitterState, splits_len: usize) -> int {
    if in_run(s.timer_state) {
        if index_of(s@) < splits_len {
            splits_len - index_of(s@) + 1
        } else {
            1
        }
    } else {
        0
    }
}

impl AutoSplitterState {
    /// A reconciler attached to a timer that `snap` reports on, with the
    /// persisted comparison record.
    pub fn new(snap: &Snapshot, comparison_hits: Vec<i64>) -> (r: Self)
        ensures
            r.inv(),
            r.store.wf(),
            r.timer_state == match current_of(r.store.timer_state@) {
                Some(t) => t,
                None => TimerState::Unknown,
            },
            r.store.timer_state@ == observe(None, snap.timer_state),
            r.store.split_index@ == observe(None, snap.split_index),
            r.hits == 0,
            r.cumulative_hits@.len() == 0,
            r.comparison_hits@ == comparison_hits@,
            in_run(r.timer_state) ==> r.segment_hits@.len() == index_of(r@) + 1,
            !in_run(r.timer_state) ==> r.segment_hits@.len() == 0 && r.split_index
                == r.store.get_split_index_current_spec(),
            r.segments_splitted@ == Seq::new(
                attach_index(r.store.get_split_index_current_spec()) as nat,
                |i: int| false,
            ),
            in_run(r.timer_state) ==> r.split_index == Some(
                attach_index(r.store.get_split_index_current_spec()),
            ),
            !r.look_for_teleporting,
            r.last_game_state == GAME_STATE_INACTIVE,
            !r.last_recoil,
            !r.last_hazard,
            !r.last_health_0,
            !r.mms_room_dupe,
    {
        let store = Store::new(snap);
        let timer_state = match store.get_timer_state_current() {
            Some(t) => t,
            None => TimerState::Unknown,
        };
        let reported = store.get_split_index_current();
        let idx: u64 = match reported {
            Some(i) => if i < usize::MAX as u64 {
                i
            } else {
                0
            },
            None => 0,
        };
        let mut segments_splitted: Vec<bool> = Vec::new();
        while segments_splitted.len() < idx as usize
            invariant
                segments_splitted@.len() <= idx,
                idx < usize::MAX,
                segments_splitted@ == Seq::new(segments_splitted@.len(), |i: int| false),
            decreases idx - segments_splitted@.len(),
        {
            segments_splitted.push(false);
            assert(segments_splitted@ =~= Seq::new(segments_splitted@.len(), |i: int| false));
        }
        let running = timer_state == TimerState::Running || timer_state == TimerState::Paused;
        let mut segment_hits: Vec<i64> = Vec::new();
        let split_index = if running {
            while segment_hits.len() <= idx as usize
                invariant
                    segment_hits@.len() <= idx + 1,
                    idx < usize::MAX,
                    counts(segment_hits@),
                    total(segment_hits@) == 0,
                decreases idx + 1 - segment_hits@.len(),
            {
                proof {
                    lemma_total_push(segment_hits@, 0);
                }
                segment_hits.push(0);
            }
            Some(idx)
        } else {
            reported
        };
        AutoSplitterState {
            store,
            timer_state,
            split_index,
            segments_splitted,
            look_for_teleporting: false,
            last_game_state: GAME_STATE_INACTIVE,
            hits: 0,
            segment_hits,
            cumulative_hits: Vec::new(),
            comparison_hits,
            last_recoil: false,
            last_hazard: false,
            last_health_0: false,
            mms_room_dupe: false,
        }
    }

    /// Carries out the action that the predicate of the next milestone
    /// returned. Returns whether the following milestone is to be evaluated on
    /// the same tick (after a skip or a reset during a run).
    pub fn apply_verdict(
        &mut self,
        a: SplitterAction,
        hit_counter: bool,
        splits_len: usize,
        tracking: bool,
        out: &mut Vec<TimerCommand>,
    ) -> (more: bool)
        requires
            old(self).inv(),
        ensures
            final(self).inv(),
            final(self)@ == step(old(self)@, a, hit_counter, splits_len as int, tracking).0,
            commands(final(out)@) == commands(old(out)@) + step(
                old(self)@,
                a,
                hit_counter,
                splits_len as int,
                tracking,
            ).1,
            more == step(old(self)@, a, hit_counter, splits_len as int, tracking).2,
            final(self).store == old(self).store,
            final(self).last_recoil == old(self).last_recoil,
            final(self).last_hazard == old(self).last_hazard,
            final(self).last_health_0 == old(self).last_health_0,
            final(self).mms_room_dupe == old(self).mms_room_dupe,
    {
        let ghost o = commands(out@);
        if self.timer_state == TimerState::NotRunning {
            if a == SplitterAction::Split {
                self.start_run(hit_counter, out);
            } else {
                assert(commands(out@) =~= o + Seq::<CommandView>::empty());
            }
            false
        } else if self.timer_state == TimerState::Running || self.timer_state == TimerState::Paused {
            if a == SplitterAction::Reset {
                out.push(TimerCommand::Reset);
                let ghost o1 = commands(out@);
                assert(o1 =~= o + seq![CommandView::Reset]);
                self.reset_run(hit_counter, out);
                assert(commands(out@) =~= o + (seq![CommandView::Reset] + reset_report(
                    old(self)@,
                    hit_counter,
                )));
                true
            } else if a == SplitterAction::Skip {
                self.skip_run(hit_counter, out);
                true
            } else if a == SplitterAction::Split {
                self.split_run(hit_counter, out);
                false
            } else if a == SplitterAction::ManualSplit {
                self.manual_split(hit_counter, splits_len, tracking, out);
                assert(commands(out@) =~= o + step(
                    old(self)@,
                    a,
                    hit_counter,
                    splits_len as int,
                    tracking,
                ).1);
                false
            } else {
                assert(commands(out@) =~= o + Seq::<CommandView>::empty());
                false
            }
        } else {
            assert(commands(out@) =~= o + Seq::<CommandView>::empty());
            false
        }
    }

    /// One tick of split handling: evaluates the predicate of the next
    /// milestone (milestone 0 between runs) and carries out its action. After a
    /// skip or a reset during a run the following milestone is evaluated on the
    /// same tick. Returns the commands and each milestone evaluated with its
    /// verdict, in order.
    pub fn handle_splits<T: SplitTable>(
        &mut self,
        table: &mut T,
        hit_counter: bool,
        splits_len: usize,
        game_state: i32,
        trans_now: bool,
        ss: &mut SceneStore,
    ) -> (r: SplitsOutcome)
        requires
            old(self).inv(),
        ensures
            final(self).inv(),
            evaluation_ok(
                old(self)@,
                r.evaluated@,
                hit_counter,
                splits_len as int,
                old(self).store.split_index@ is Some,
            ),
            final(self)@ == replay(
                old(self)@,
                r.evaluated@,
                hit_counter,
                splits_len as int,
                old(self).store.split_index@ is Some,
            ).0,
            commands(r.commands@) == replay(
                old(self)@,
                r.evaluated@,
                hit_counter,
                splits_len as int,
                old(self).store.split_index@ is Some,
            ).1,
            final(ss)@ == (SceneView {
                split_this_transition: old(ss)@.split_this_transition || any_action(r.evaluated@),
                ..old(ss)@
            }),
    {
        let tracking = self.store.split_index.pair.is_some();
        let ghost v0 = self@;
        let ghost s0 = ss@;
        let ghost sl = splits_len as int;
        let mut out: Vec<TimerCommand> = Vec::new();
        let mut evaluated: Vec<(u64, SplitterAction)> = Vec::new();
        assert(commands(out@) =~= replay(v0, evaluated@, hit_counter, sl, tracking).1);
        loop
            invariant_except_break
                forall|k: int|
                    0 <= k < evaluated@.len() ==> #[trigger] step(
                        replay(v0, evaluated@.subrange(0, k), hit_counter, sl, tracking).0,
                        evaluated@[k].1,
                        hit_counter,
                        sl,
                        tracking,
                    ).2,
            invariant
                self.inv(),
                self@ == replay(v0, evaluated@, hit_counter, sl, tracking).0,
                commands(out@) == replay(v0, evaluated@, hit_counter, sl, tracking).1,
                prefix_ok(v0, evaluated@, hit_counter, sl, tracking),
                ss@ == (SceneView {
                    split_this_transition: s0.split_this_transition || any_action(evaluated@),
                    ..s0
                }),
                sl == splits_len as int,
            ensures
                evaluation_ok(v0, evaluated@, hit_counter, sl, tracking),
            decreases splits_left(self, splits_len),
        {
            let index: u64;
            proof {
                let t = evaluated@;
                if t.len() > 0 {
                    assert(t.subrange(0, t.len() - 1) =~= t.drop_last());
                }
            }
            if self.timer_state == TimerState::NotRunning {
                if splits_len == 0 {
                    break;
                }
                index = 0;
            } else if self.timer_state == TimerState::Running || self.timer_state
                == TimerState::Paused {
                let next = self.segment_hits.len();
                if next >= splits_len {
                    break;
                }
                index = next as u64;
            } else {
                break;
            }
            assert(next_milestone(self@, sl) == Some(index));
            let ghost t0 = evaluated@;
            let ghost before = self@;
            let v = splits(table, index, game_state, trans_now, ss, &mut self.store);
            let more = self.apply_verdict(v.action, hit_counter, splits_len, tracking, &mut out);
            evaluated.push((index, v.action));
            proof {
                let t = evaluated@;
                assert(t.drop_last() =~= t0);
                assert(t.subrange(0, t0.len() as int) =~= t0);
                assert forall|k: int| 0 <= k < t0.len() implies t.subrange(0, k) =~= t0.subrange(
                    0,
                    k,
                ) by {}
                assert forall|k: int| 0 <= k < t.len() implies next_milestone(
                    #[trigger] replay(v0, t.subrange(0, k), hit_counter, sl, tracking).0,
                    sl,
                ) == Some(t[k].0) by {
                    if k < t0.len() {
                        assert(t.subrange(0, k) =~= t0.subrange(0, k));
                    }
                }
                assert(any_action(t) == (any_action(t0) || v.action != SplitterAction::Pass)) by {
                    if v.action != SplitterAction::Pass {
                        assert(t[t0.len() as int].1 != SplitterAction::Pass);
                    }
                    if any_action(t0) {
                        let k = choose|k: int| 0 <= k < t0.len() && t0[k].1 != SplitterAction::Pass;
                        assert(t[k].1 != SplitterAction::Pass);
                    }
                }
            }
            proof {
                let t = evaluated@;
                assert(t.subrange(0, t.len() - 1) =~= t0);
                assert forall|k: int| 0 <= k < t.len() - 1 implies #[trigger] step(
                    replay(v0, t.subrange(0, k), hit_counter, sl, tracking).0,
                    t[k].1,
                    hit_counter,
                    sl,
                    tracking,
                ).2 by {
                    assert(t.subrange(0, k) =~= t0.subrange(0, k));
                    assert(t[k] == t0[k]);
                }
            }
            if !more {
                break;
            }
            proof {
                let t = evaluated@;
                assert forall|k: int| 0 <= k < t.len() implies #[trigger] step(
                    replay(v0, t.subrange(0, k), hit_counter, sl, tracking).0,
                    t[k].1,
                    hit_counter,
                    sl,
                    tracking,
                ).2 by {
                    if k < t0.len() {
                        assert(t.subrange(0, k) =~= t0.subrange(0, k));
                    }
                }
            }
        }
        SplitsOutcome { commands: out, evaluated }
    }

    /// Decides whether game time stands still on this tick; `None` when the
    /// timer is not running, in which case nothing changes.
    pub fn load_removal(&mut self, r: &LoadReading) -> (paused: Option<bool>)
        requires
            old(self).inv(),
        ensures
            final(self).inv(),
            final(self)@ == old(self)@,
            final(self).store == old(self).store,
            r.timer_state != TimerState::Running ==> paused is None && final(self).look_for_teleporting
                == old(self).look_for_teleporting && final(self).mms_room_dupe == old(
                self,
            ).mms_room_dupe && final(self).last_game_state == old(self).last_game_state,
            r.timer_state == TimerState::Running ==> {
                let look = teleport_watch(
                    old(self).look_for_teleporting,
                    old(self).last_game_state,
                    r.game_state,
                );
                let mms = room_dupe(old(self).mms_room_dupe, old(self).last_game_state, r);
                &&& final(self).look_for_teleporting == look
                &&& final(self).mms_room_dupe == mms
                &&& final(self).last_game_state == r.game_state
                &&& paused == Some(game_time_paused(look, mms, r))
            },
    {
        if r.timer_state != TimerState::Running {
            return None;
        }
        let scene = r.scene_name.as_str();
        let next = r.next_scene_name.as_str();
        let loading_menu = same_text(scene, QUIT_TO_MENU) || (!same_text(scene, MENU_TITLE) && (
        next.is_empty() || same_text(next, MENU_TITLE)));
        let gs = r.game_state;
        if gs == GAME_STATE_PLAYING && self.last_game_state == GAME_STATE_MAIN_MENU {
            self.look_for_teleporting = true;
        }
        if self.look_for_teleporting && (gs != GAME_STATE_PLAYING && gs
            != GAME_STATE_ENTERING_LEVEL) {
            self.look_for_teleporting = false;
        }
        if gs == GAME_STATE_LOADING && self.last_game_state == GAME_STATE_CUTSCENE
            && is_opening_scene(scene) {
            self.mms_room_dupe = true;
        } else if gs == GAME_STATE_PLAYING {
            self.mms_room_dupe = false;
        }
        let ui = r.ui_state;
        let mms = self.mms_room_dupe;
        let paused = self.look_for_teleporting || ((gs == GAME_STATE_PLAYING || gs
            == GAME_STATE_ENTERING_LEVEL) && ui != UI_STATE_PLAYING) || (gs != GAME_STATE_PLAYING
            && gs != GAME_STATE_CUTSCENE && !r.accepting_input && !mms) || ((gs
            == GAME_STATE_EXITING_LEVEL && (r.scene_load_null || r.scene_load_activation_allowed)
            && !mms) || gs == GAME_STATE_LOADING) || r.hero_transition_state
            == HERO_TRANSITION_STATE_WAITING_TO_ENTER_LEVEL || (ui != UI_STATE_PLAYING && (
        loading_menu || (ui != UI_STATE_PAUSED && ui != UI_STATE_CUTSCENE && !next.is_empty()))
            && !same_text(next, scene));
        self.last_game_state = gs;
        Some(paused)
    }

    /// Counts the hit events that begin on this tick: a recoil, a hazard
    /// death, health reaching zero in play. Only while hits are counted and
    /// the timer runs.
    pub fn handle_hits(&mut self, hit_counter: bool, r: HitReading) -> (out: Vec<TimerCommand>)
        requires
            old(self).inv(),
        ensures
            final(self).inv(),
            final(self).store == old(self).store,
            !(hit_counter && r.timer_state == TimerState::Running) ==> final(self)@ == old(self)@
                && out@.len() == 0 && final(self).last_recoil == old(self).last_recoil
                && final(self).last_hazard == old(self).last_hazard && final(self).last_health_0
                == old(self).last_health_0,
            hit_counter && r.timer_state == TimerState::Running ==> {
                &&& final(self).last_recoil == r.recoil
                &&& final(self).last_hazard == r.hazard_death
                &&& final(self).last_health_0 == health_zero(r)
                &&& old(self).timer_state == TimerState::Running && old(self).hits + hit_edges(
                    old(self),
                    r,
                ) <= i64::MAX ==> final(self)@ == hits_done(
                    old(self)@,
                    hit_edges(old(self), r) as nat,
                ) && commands(out@) == hits_report(old(self)@, hit_edges(old(self), r) as nat)
            },
    {
        let mut out: Vec<TimerCommand> = Vec::new();
        if !hit_counter || r.timer_state != TimerState::Running {
            return out;
        }
        let ghost s0 = *self;
        let ghost v0 = self@;
        let ghost ok = s0.timer_state == TimerState::Running && s0.hits + hit_edges(&s0, r)
            <= i64::MAX;
        assert(commands(out@) =~= hits_report(v0, 0));
        let ghost k1: nat = if !s0.last_recoil && r.recoil { 1 } else { 0 };
        let ghost k2: nat = k1 + if !s0.last_hazard && r.hazard_death { 1nat } else { 0nat };
        proof {
            assert(hits_done(v0, 0) == v0);
            if ok {
                lemma_hits_done_fields(v0, k1);
                lemma_hits_done_fields(v0, k2);
            }
        }
        if !self.last_recoil && r.recoil {
            self.add_hit(&mut out);
        }
        self.last_recoil = r.recoil;
        assert(ok ==> self@ == hits_done(v0, k1));
        assert(ok ==> commands(out@) =~= hits_report(v0, k1));
        if !self.last_hazard && r.hazard_death {
            self.add_hit(&mut out);
        }
        self.last_hazard = r.hazard_death;
        assert(ok ==> self@ == hits_done(v0, k2));
        assert(ok ==> commands(out@) =~= hits_report(v0, k2));
        let health_0 = match r.health {
            Some(h) => h == 0,
            None => false,
        } && r.game_state == GAME_STATE_PLAYING;
        if !self.last_health_0 && health_0 {
            self.add_hit(&mut out);
        }
        self.last_health_0 = health_0;
        assert(ok ==> self@ == hits_done(v0, hit_edges(&s0, r) as nat));
        assert(ok ==> commands(out@) =~= hits_report(v0, hit_edges(&s0, r) as nat));
        out
    }
}

proof fn lemma_hits_done_fields(v: RunView, k: nat)
    requires
        v.hits + k <= i64::MAX,
    ensures
        hits_done(v, k).timer_state == v.timer_state,
        hits_done(v, k).hits == v.hits + k,
    decreases k,
{
    if k > 0 {
        lemma_hits_done_fields(v, (k - 1) as nat);
    }
}

/// The runner moved the run to another milestone that the vectors can reach.
pub open spec fn moves(v: RunView, ip: Option<(Option<u64>, Option<u64>)>) -> bool {
    match ip {
        Some(p) => match p.1 {
            Some(k) => fits(k) && k as int != index_of(v),
            None => false,
        },
        None => false,
    }
}

/// What reconciling publishes, given the run `after` it.
pub open spec fn reconcile_report(
    v: RunView,
    hit_counter: bool,
    splits_len: int,
    sp: Option<(TimerState, TimerState)>,
    ip: Option<(Option<u64>, Option<u64>)>,
    after: RunView,
) -> Seq<CommandView> {
    match sp {
        None => Seq::empty(),
        Some(s) => {
            let ns = s.1;
            let os = v.timer_state;
            if quiet(v, s, ip) {
                Seq::empty()
            } else if ns == TimerState::NotRunning && (in_run(os) || os == TimerState::Ended) {
                reset_report(v, hit_counter)
            } else if in_run(ns) && !in_run(os) {
                counted_report(after, start_index(ip) as int, hit_counter)
            } else if ns == TimerState::Ended && in_run(os) {
                end_report(after, hit_counter, end_index(v, ip, splits_len), splits_len)
            } else if in_run(ns) && in_run(os) && moves(v, ip) {
                counted_report(after, index_of(after), hit_counter)
            } else {
                Seq::empty()
            }
        },
    }
}

/// What an end publishes: where hits are counted and the run ended on the
/// last milestone, the best count that the record holds with this run.
pub open spec fn end_report(after: RunView, hit_counter: bool, e: Option<u64>, splits_len: int) -> Seq<
    CommandView,
> {
    let c = folded(after.comparison_hits, after.cumulative_hits);
    if hit_counter && e == Some((splits_len - 1) as u64) && splits_len >= 1 && c.len() > 0 {
        seq![CommandView::Show(Variable::PbHits, ShownView::Count(c.last()))]
    } else {
        Seq::empty()
    }
}

/// A hand-made split is counted: the timer reports no split index, and a
/// milestone remains after the next one.
pub open spec fn manual_allowed(v: RunView, tracking: bool, splits_len: int) -> bool {
    !tracking && index_of(v) + 2 < splits_len
}

/// Cuts or fills the cumulative counts to `n`.
fn freeze(cum: &mut Vec<i64>, n: usize, hits: i64)
    requires
        rising_to(old(cum)@, hits),
        0 <= hits,
    ensures
        final(cum)@ == frozen_at(old(cum)@, n as int, hits),
        rising_to(final(cum)@, hits),
{
    let ghost c0 = cum@;
    if n <= cum.len() {
        cum.truncate(n);
        return;
    }
    while cum.len() < n
        invariant
            c0.len() <= cum@.len() <= n,
            cum@ == c0 + Seq::new((cum@.len() - c0.len()) as nat, |j: int| hits),
            rising_to(cum@, hits),
            0 <= hits,
        decreases n - cum@.len(),
    {
        cum.push(hits);
        assert(cum@ =~= c0 + Seq::new((cum@.len() - c0.len()) as nat, |j: int| hits));
    }
}

/// A reset with hit counting keeps the best count at each boundary: the
/// smaller of the old record and the run's count where the record had an
/// entry, the run's count where it had none; the record never grows worse.
pub proof fn lemma_reset_keeps_best(v: RunView, i: int)
    requires
        0 <= i,
    ensures
        i < v.cumulative_hits.len() ==> reset_done(v, true).comparison_hits[i] == if i
            < v.comparison_hits.len() {
            if v.comparison_hits[i] <= v.cumulative_hits[i] {
                v.comparison_hits[i]
            } else {
                v.cumulative_hits[i]
            }
        } else {
            v.cumulative_hits[i]
        },
        i < v.comparison_hits.len() ==> reset_done(v, true).comparison_hits[i]
            <= v.comparison_hits[i],
        reset_done(v, true).comparison_hits.len() >= v.comparison_hits.len(),
{
}

} // verus!
