//! Decision engine of a run-timer auto-splitter.
//!
//! - `store`: change-tracked readings, cached on demand and evicted when no
//!   longer asked for, with a tool lookup cache keyed by a version tag.
//! - `scenes`: detection of location transitions from noisy readings.
//! - `pipeline`: the tiered evaluation of a milestone predicate, at most one
//!   committed action per transition.
//! - `catalog`: the named milestone predicates.
//! - `run`: the run state reconciler, its hit statistics, and the commands it
//!   hands to the host timer.
//! - `hits`, `text`, `timer`: counts, display text, and the timer's vocabulary.

pub mod catalog;
pub mod hits;
pub mod pipeline;
pub mod run;
pub mod scenes;
pub mod store;
pub mod text;
pub mod timer;

pub use catalog::{
    continuous_splits, menu_splits, transition_once_splits, transition_splits, Catalog, GameMemory,
    Split,
};
pub use hits::update_comparison_hits;
pub use pipeline::{splits, SplitTable, Tier, Verdict};
pub use run::{AutoSplitterState, HitReading, LoadReading, Shown, TimerCommand, Variable};
pub use scenes::{is_debug_save_state_scene, is_menu, SceneStore, StringListOffsets};
pub use store::{Pair, Sample, Snapshot, Store, ToolCache, Watcher};
pub use text::{delta_string, str_take_right, DASH};
pub use timer::{is_timer_state_between_runs, should_split, SplitterAction, TimerState};
