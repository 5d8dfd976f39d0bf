use silksong_autosplit::store::StoreValue;
use silksong_autosplit::{Pair, Snapshot, Store, TimerState, ToolCache, Watcher};

fn snapshot() -> Snapshot {
    Snapshot {
        timer_state: Some(TimerState::NotRunning),
        split_index: None,
        bools: Vec::new(),
        i32s: Vec::new(),
        strings: Vec::new(),
        tools_version: None,
        segments_splitted: Vec::new(),
    }
}

fn with_health(h: i32) -> Snapshot {
    let mut s = snapshot();
    s.i32s.push(("playerData.health".to_string(), h));
    s
}

fn pair_of(p: Option<Pair<i32>>) -> Option<(i32, i32)> {
    p.map(|p| (p.old, p.current))
}

#[test]
fn watcher_first_value_stands_twice() {
    let mut w: Watcher<i32> = Watcher::new();
    w.update(None);
    assert!(w.pair.is_none());
    w.update(Some(5));
    let p = w.pair.unwrap();
    assert_eq!((p.old, p.current), (5, 5));
    assert!(!p.changed());
    w.update(Some(7));
    let p = w.pair.unwrap();
    assert_eq!((p.old, p.current), (5, 7));
    assert!(p.changed());
    assert!(p.changed_to(&7));
    w.update(None);
    let p = w.pair.unwrap();
    assert_eq!((p.old, p.current), (5, 7));
}

#[test]
fn value_after_registration_and_read() {
    let mut store = Store::new(&snapshot());
    // registered while the field cannot be read: no value yet
    assert_eq!(pair_of(store.get_i32_pair_bang("health", "playerData.health", &snapshot())), None);
    store.update_all(&with_health(5));
    assert_eq!(pair_of(store.get_i32_pair("health")), Some((5, 5)));
    store.update_all(&with_health(4));
    assert_eq!(pair_of(store.get_i32_pair("health")), Some((5, 4)));
    // an unreadable tick keeps the last value
    store.update_all(&snapshot());
    assert_eq!(pair_of(store.get_i32_pair("health")), Some((5, 4)));
}

#[test]
fn unregistered_key_has_no_value() {
    let mut store = Store::new(&with_health(3));
    assert_eq!(pair_of(store.get_i32_pair("health")), None);
    store.update_all(&with_health(3));
    assert_eq!(pair_of(store.get_i32_pair("health")), None);
}

#[test]
fn registration_reads_at_once_and_keeps_getter() {
    let mut store = Store::new(&snapshot());
    assert_eq!(pair_of(store.get_i32_pair_bang("health", "playerData.health", &with_health(9))), Some((9, 9)));
    let mut other = snapshot();
    other.i32s.push(("other".to_string(), 1));
    other.i32s.push(("playerData.health".to_string(), 8));
    // a second registration under another field changes nothing
    assert_eq!(pair_of(store.get_i32_pair_bang("health", "other", &other)), Some((9, 9)));
    store.update_all(&other);
    assert_eq!(pair_of(store.get_i32_pair("health")), Some((9, 8)));
}

#[test]
fn uninterested_entries_are_evicted() {
    let mut store = Store::new(&snapshot());
    store.get_i32_pair_bang("health", "playerData.health", &with_health(5));
    store.update_all(&with_health(5));
    // not asked for since the last refresh
    store.update_all(&with_health(5));
    assert_eq!(pair_of(store.get_i32_pair("health")), None);
    assert_eq!(store.i32s.len(), 0);
}

#[test]
fn asked_entries_survive() {
    let mut store = Store::new(&snapshot());
    store.get_bool_pair_bang("at_bench", "playerData.atBench", &snapshot());
    let mut s = snapshot();
    s.bools.push(("playerData.atBench".to_string(), true));
    for _ in 0..3 {
        store.update_all(&s);
        assert!(store.get_bool_pair("at_bench").is_some());
    }
    let p = store.get_bool_pair("at_bench").unwrap();
    assert!(p.current);
}

#[test]
fn text_entries_survive_while_changing() {
    let mut store = Store::new(&snapshot());
    let mut a = snapshot();
    a.strings.push(("respawn".to_string(), "Bonetown".to_string()));
    let mut b = snapshot();
    b.strings.push(("respawn".to_string(), "Belltown".to_string()));
    assert_eq!(store.get_string_bang("respawn_scene", "respawn", &a), Some("Bonetown".to_string()));
    store.update_all(&a);
    // not asked for, but this reading changes it: kept
    store.update_all(&b);
    assert_eq!(store.strings.len(), 1);
    // not asked for and this reading leaves it unchanged: evicted
    store.update_all(&b);
    assert_eq!(store.strings.len(), 0);
    assert_eq!(store.get_string("respawn_scene"), None);
}

#[test]
fn text_entry_evicted_on_unchanged_reading_after_change() {
    let mut store = Store::new(&snapshot());
    let mut a = snapshot();
    a.strings.push(("respawn".to_string(), "Bonetown".to_string()));
    let mut b = snapshot();
    b.strings.push(("respawn".to_string(), "Belltown".to_string()));
    store.get_string_bang("respawn_scene", "respawn", &a);
    store.update_all(&b);
    assert_eq!(store.strings.len(), 1);
    store.update_all(&a);
    assert_eq!(store.strings.len(), 1);
    store.update_all(&snapshot());
    assert_eq!(store.strings.len(), 0);
}

#[test]
fn no_reading_is_no_change() {
    let mut a = snapshot();
    a.i32s.push(("f".to_string(), 1));
    let mut b = snapshot();
    b.i32s.push(("f".to_string(), 2));
    let mut v = StoreValue::new("f", &a.i32s);
    assert!(v.update(&b.i32s));
    assert!(!v.update(&snapshot().i32s));
    assert!(!v.update(&b.i32s));
    assert!(v.update(&a.i32s));
}

#[test]
fn timer_readings_tracked() {
    let mut s = snapshot();
    s.split_index = Some(Some(2));
    let mut store = Store::new(&s);
    assert_eq!(store.get_timer_state_current(), Some(TimerState::NotRunning));
    assert_eq!(store.get_split_index_current(), Some(2));
    s.timer_state = Some(TimerState::Running);
    s.split_index = Some(Some(3));
    store.update_all(&s);
    let p = store.get_timer_state_pair().unwrap();
    assert_eq!((p.old, p.current), (TimerState::NotRunning, TimerState::Running));
    let q = store.get_split_index_pair().unwrap();
    assert_eq!((q.old, q.current), (Some(2), Some(3)));
}

#[test]
fn tool_cache_looks_up_once_per_version() {
    let mut c = ToolCache::new();
    let tool: Vec<u16> = "Harpoon".encode_utf16().collect();
    let mut calls = 0;
    assert!(!c.has_tool(&tool, None, || { calls += 1; true }));
    assert_eq!(calls, 0);
    assert!(c.has_tool(&tool, Some(1), || { calls += 1; true }));
    assert!(c.has_tool(&tool, Some(1), || { calls += 1; false }));
    assert_eq!(calls, 1);
    // a new version tag invalidates the answer
    assert!(!c.has_tool(&tool, Some(2), || { calls += 1; false }));
    assert_eq!(calls, 2);
    let other: Vec<u16> = "Tack".encode_utf16().collect();
    assert!(c.has_tool(&other, Some(2), || { calls += 1; true }));
    assert_eq!(calls, 3);
}

#[test]
fn tool_cache_revalidated_each_tick() {
    let mut store = Store::new(&snapshot());
    let tool: Vec<u16> = "Tack".encode_utf16().collect();
    assert!(store.has_tool(&tool, Some(4), || true));
    let mut s = snapshot();
    s.tools_version = Some(5);
    store.update_all(&s);
    assert_eq!(store.tools.version, Some(5));
    assert!(store.tools.tool.is_empty());
}
