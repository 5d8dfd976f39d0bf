use vstd::prelude::*;

verus! {

/// State of the external run timer.
#[derive(Clone, Copy, Debug, PartialEq, Eq, Structural)]
pub enum TimerState {
    NotRunning,
    Running,
    Paused,
    Ended,
    Unknown,
}

impl View for TimerState {
    type V = TimerState;

    open spec fn view(&self) -> TimerState {
        *self
    }
}

/// A run is in progress: the timer is running or paused.
pub open spec fn in_run(s: TimerState) -> bool {
    s == TimerState::Running || s == TimerState::Paused
}

/// The timer is between runs: not running, or ended.
pub open spec fn between_runs(s: TimerState) -> bool {
    s == TimerState::NotRunning || s == TimerState::Ended
}

pub fn is_timer_state_between_runs(s: TimerState) -> (r: bool)
    ensures
        r == between_runs(s),
{
    s == TimerState::NotRunning || s == TimerState::Ended
}

/// What a split predicate asks of the timer on one tick.
#[derive(Clone, Copy, Debug, PartialEq, Eq, Structural)]
pub enum SplitterAction {
    Pass,
    Split,
    Skip,
    Reset,
    ManualSplit,
}

/// `Split` when the condition holds, `Pass` otherwise.
pub fn should_split(b: bool) -> (r: SplitterAction)
    ensures
        r == (if b { SplitterAction::Split } else { SplitterAction::Pass }),
{
    if b {
        SplitterAction::Split
    } else {
        SplitterAction::Pass
    }
}

} // verus!
