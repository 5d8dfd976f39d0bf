use vstd::prelude::*;

use crate::timer::TimerState;

verus! {

/// The previous and the current value of a tracked quantity.
#[derive(Clone, Copy, Debug)]
pub struct Pair<T> {
    pub old: T,
    pub current: T,
}

impl<T: View> View for Pair<T> {
    type V = (T::V, T::V);

    open spec fn view(&self) -> (T::V, T::V) {
        (self.old@, self.current@)
    }
}

impl<T: Sample> Pair<T> {
    /// The value differs from the previous one.
    pub fn changed(&self) -> (r: bool)
        ensures
            r == (self.old@ != self.current@),
    {
        !self.old.same(&self.current)
    }

    pub fn unchanged(&self) -> (r: bool)
        ensures
            r == (self.old@ == self.current@),
    {
        self.old.same(&self.current)
    }

    /// The value has just become `v`.
    pub fn changed_to(&self, v: &T) -> (r: bool)
        ensures
            r == (self.old@ != self.current@ && self.current@ == v@),
    {
        !self.old.same(&self.current) && self.current.same(v)
    }
}

/// A value that the store can copy and compare, each by its view.
pub trait Sample: View + Sized {
    fn duplicate(&self) -> (r: Self)
        ensures
            r@ == self@;

    fn same(&self, other: &Self) -> (r: bool)
        ensures
            r == (self@ == other@);
}

impl Sample for bool {
    fn duplicate(&self) -> (r: Self) {
        *self
    }

    fn same(&self, other: &Self) -> (r: bool) {
        *self == *other
    }
}

impl Sample for i32 {
    fn duplicate(&self) -> (r: Self) {
        *self
    }

    fn same(&self, other: &Self) -> (r: bool) {
        *self == *other
    }
}

impl Sample for String {
    fn duplicate(&self) -> (r: Self) {
        self.clone()
    }

    fn same(&self, other: &Self) -> (r: bool) {
        *self == *other
    }
}

impl Sample for TimerState {
    fn duplicate(&self) -> (r: Self) {
        *self
    }

    fn same(&self, other: &Self) -> (r: bool) {
        *self == *other
    }
}

impl Sample for Option<u64> {
    fn duplicate(&self) -> (r: Self) {
        *self
    }

    fn same(&self, other: &Self) -> (r: bool) {
        match (self, other) {
            (Some(a), Some(b)) => *a == *b,
            (None, None) => true,
            _ => false,
        }
    }
}

/// A tracked pair after one reading: an absent reading leaves it as it was,
/// the first value stands as both previous and current, and later values
/// shift the current one into the previous place.
pub open spec fn observe<V>(p: Option<(V, V)>, read: Option<V>) -> Option<(V, V)> {
    match read {
        None => p,
        Some(v) => match p {
            None => Some((v, v)),
            Some(q) => Some((q.1, v)),
        },
    }
}

/// Both values are known and they differ.
pub open spec fn pair_changed<V>(p: Option<(V, V)>) -> bool {
    match p {
        Some(q) => q.0 != q.1,
        None => false,
    }
}

/// Keeps the previous and current value of one quantity.
pub struct Watcher<T> {
    pub pair: Option<Pair<T>>,
}

impl<T: View> View for Watcher<T> {
    type V = Option<(T::V, T::V)>;

    open spec fn view(&self) -> Option<(T::V, T::V)> {
        match self.pair {
            Some(p) => Some(p@),
            None => None,
        }
    }
}

impl<T: Sample> Watcher<T> {
    pub fn new() -> (r: Self)
        ensures
            r@ is None,
    {
        Watcher { pair: None }
    }

    /// Records a reading; `None` means the value could not be read.
    pub fn update(&mut self, read: Option<T>)
        ensures
            final(self)@ == observe(old(self)@, match read { Some(v) => Some(v@), None => None }),
    {
        match read {
            None => {},
            Some(v) => {
                let p = self.pair.take();
                match p {
                    None => {
                        let twin = v.duplicate();
                        self.pair = Some(Pair { old: twin, current: v });
                    },
                    Some(q) => {
                        self.pair = Some(Pair { old: q.current, current: v });
                    },
                }
            },
        }
    }
}


/// The key-value pairs of a keyed vector, by view.
pub open spec fn keyed<X: View>(t: Seq<(String, X)>) -> Seq<(Seq<char>, X::V)> {
    t.map_values(|e: (String, X)| (e.0@, e.1@))
}

/// The value under the last occurrence of key `k`.
pub open spec fn find<V>(s: Seq<(Seq<char>, V)>, k: Seq<char>) -> Option<V>
    decreases s.len(),
{
    if s.len() == 0 {
        None
    } else if s.last().0 == k {
        Some(s.last().1)
    } else {
        find(s.drop_last(), k)
    }
}

/// No key occurs twice.
pub open spec fn unique_keys<V>(s: Seq<(Seq<char>, V)>) -> bool
    decreases s.len(),
{
    s.len() == 0 || (find(s.drop_last(), s.last().0) is None && unique_keys(s.drop_last()))
}

/// Two keyed sequences with the same keys at the same places.
pub open spec fn same_keys<V>(s: Seq<(Seq<char>, V)>, t: Seq<(Seq<char>, V)>) -> bool {
    s.len() == t.len() && forall|i: int| 0 <= i < s.len() ==> #[trigger] s[i].0 == t[i].0
}

proof fn lemma_same_keys<V>(s: Seq<(Seq<char>, V)>, t: Seq<(Seq<char>, V)>, k: Seq<char>)
    requires
        same_keys(s, t),
    ensures
        (find(s, k) is Some) == (find(t, k) is Some),
        unique_keys(s) == unique_keys(t),
    decreases s.len(),
{
    if s.len() > 0 {
        assert(same_keys(s.drop_last(), t.drop_last()));
        lemma_same_keys(s.drop_last(), t.drop_last(), k);
        lemma_same_keys(s.drop_last(), t.drop_last(), s.last().0);
    }
}

/// Scans for the last entry under `k`.
pub fn find_index<X: View>(t: &Vec<(String, X)>, k: &str) -> (r: Option<usize>)
    ensures
        match r {
            Some(i) => i < t@.len() && t@[i as int].0@ == k@ && find(keyed(t@), k@) == Some(
                t@[i as int].1@,
            ) && forall|j: int| i < j < t@.len() ==> #[trigger] t@[j].0@ != k@,
            None => find(keyed(t@), k@) is None,
        },
{
    let mut i = t.len();
    assert(keyed(t@).subrange(0, i as int) =~= keyed(t@));
    while i > 0
        invariant
            i <= t@.len(),
            find(keyed(t@), k@) == find(keyed(t@).subrange(0, i as int), k@),
            forall|j: int| i <= j < t@.len() ==> #[trigger] t@[j].0@ != k@,
        decreases i,
    {
        let ghost s = keyed(t@).subrange(0, i as int);
        assert(s.drop_last() =~= keyed(t@).subrange(0, i - 1));
        if crate::text::same_text(t[i - 1].0.as_str(), k) {
            return Some(i - 1);
        }
        i = i - 1;
    }
    None
}

/// One cached quantity: its change tracker, the field it is read from,
/// and whether it was asked for since the last refresh.
pub struct StoreValue<T> {
    pub watcher: Watcher<T>,
    pub interested: bool,
    pub field: String,
}

pub struct EntryView<V> {
    pub pair: Option<(V, V)>,
    pub interested: bool,
    pub field: Seq<char>,
}

impl<T: View> View for StoreValue<T> {
    type V = EntryView<T::V>;

    open spec fn view(&self) -> EntryView<T::V> {
        EntryView { pair: self.watcher@, interested: self.interested, field: self.field@ }
    }
}

/// A fresh reading differs from the current value.
pub open spec fn fresh_change<V>(p: Option<(V, V)>, read: Option<V>) -> bool {
    match (p, read) {
        (Some(q), Some(w)) => q.1 != w,
        _ => false,
    }
}

/// An entry survives eviction when it was asked for, or, where changes keep
/// entries alive, when this refresh's reading of its field differs from its
/// current value.
pub open spec fn keeps<V>(e: EntryView<V>, keep_changed: bool, readings: Seq<(Seq<char>, V)>) -> bool {
    e.interested || (keep_changed && fresh_change(e.pair, find(readings, e.field)))
}

/// An entry after a refresh: one more reading of its field, interest cleared.
pub open spec fn refreshed<V>(e: EntryView<V>, readings: Seq<(Seq<char>, V)>) -> EntryView<V> {
    EntryView { pair: observe(e.pair, find(readings, e.field)), interested: false, field: e.field }
}

/// A table after a refresh: evicted entries dropped, the others refreshed.
pub open spec fn refresh_all<V>(
    s: Seq<(Seq<char>, EntryView<V>)>,
    readings: Seq<(Seq<char>, V)>,
    keep_changed: bool,
) -> Seq<(Seq<char>, EntryView<V>)>
    decreases s.len(),
{
    if s.len() == 0 {
        s
    } else {
        let rest = refresh_all(s.drop_last(), readings, keep_changed);
        if keeps(s.last().1, keep_changed, readings) {
            rest.push((s.last().0, refreshed(s.last().1, readings)))
        } else {
            rest
        }
    }
}

/// What a refresh does to the entry under one key.
pub open spec fn refreshed_under<V>(
    e: Option<EntryView<V>>,
    readings: Seq<(Seq<char>, V)>,
    keep_changed: bool,
) -> Option<EntryView<V>> {
    match e {
        Some(x) => if keeps(x, keep_changed, readings) {
            Some(refreshed(x, readings))
        } else {
            None
        },
        None => None,
    }
}

proof fn lemma_refresh_all<V>(
    s: Seq<(Seq<char>, EntryView<V>)>,
    readings: Seq<(Seq<char>, V)>,
    keep_changed: bool,
    k: Seq<char>,
)
    requires
        unique_keys(s),
    ensures
        find(refresh_all(s, readings, keep_changed), k) == refreshed_under(
            find(s, k),
            readings,
            keep_changed,
        ),
        unique_keys(refresh_all(s, readings, keep_changed)),
    decreases s.len(),
{
    if s.len() > 0 {
        let rest = refresh_all(s.drop_last(), readings, keep_changed);
        lemma_refresh_all(s.drop_last(), readings, keep_changed, k);
        lemma_refresh_all(s.drop_last(), readings, keep_changed, s.last().0);
        if keeps(s.last().1, keep_changed, readings) {
            let e = (s.last().0, refreshed(s.last().1, readings));
            assert(rest.push(e).drop_last() =~= rest);
        }
    }
}

/// Reads the value of a field from a list of readings.
pub fn read_field<T: Sample>(readings: &Vec<(String, T)>, field: &str) -> (r: Option<T>)
    ensures
        match r {
            Some(v) => find(keyed(readings@), field@) == Some(v@),
            None => find(keyed(readings@), field@) is None,
        },
{
    match find_index(readings, field) {
        Some(i) => Some(readings[i].1.duplicate()),
        None => None,
    }
}

impl<T: Sample> StoreValue<T> {
    /// A new entry for `field`, holding its first reading if there is one.
    pub fn new(field: &str, readings: &Vec<(String, T)>) -> (r: Self)
        ensures
            r@ == (EntryView {
                pair: observe(None, find(keyed(readings@), field@)),
                interested: true,
                field: field@,
            }),
    {
        let mut watcher = Watcher::new();
        watcher.update(read_field(readings, field));
        StoreValue { watcher, interested: true, field: field.to_owned() }
    }

    /// Takes one more reading of the field and clears the interest flag.
    /// Returns whether the reading changed the value; without a reading
    /// nothing changed.
    pub fn update(&mut self, readings: &Vec<(String, T)>) -> (r: bool)
        ensures
            final(self)@ == refreshed(old(self)@, keyed(readings@)),
            r == fresh_change(old(self)@.pair, find(keyed(readings@), old(self)@.field)),
            r == (find(keyed(readings@), old(self)@.field) is Some && pair_changed(final(self)@.pair)),
    {
        let read = read_field(readings, self.field.as_str());
        let fresh = read.is_some();
        self.watcher.update(read);
        self.interested = false;
        if !fresh {
            return false;
        }
        match &self.watcher.pair {
            Some(p) => p.changed(),
            None => false,
        }
    }
}

/// Drops the entries that nothing asked for and refreshes the others.
fn refresh_table<T: Sample>(
    t: &mut Vec<(String, StoreValue<T>)>,
    readings: &Vec<(String, T)>,
    keep_changed: bool,
)
    ensures
        keyed(final(t)@) == refresh_all(keyed(old(t)@), keyed(readings@), keep_changed),
{
    let ghost orig = keyed(t@);
    let mut kept: Vec<(String, StoreValue<T>)> = Vec::new();
    let n = t.len();
    let mut k: usize = 0;
    while t.len() > 0
        invariant
            k + t@.len() == n,
            orig.len() == n,
            keyed(t@) == orig.subrange(k as int, n as int),
            keyed(kept@) == refresh_all(orig.subrange(0, k as int), keyed(readings@), keep_changed),
        decreases t@.len(),
    {
        let ghost before = t@;
        let (key, mut e) = t.remove(0);
        assert(t@ =~= before.subrange(1, before.len() as int));
        assert(keyed(before)[0] == orig[k as int]);
        assert(orig.subrange(0, k + 1).drop_last() =~= orig.subrange(0, k as int));
        assert forall|j: int| 0 <= j < t@.len() implies keyed(t@)[j] == orig[k + 1 + j] by {
            assert(keyed(t@)[j] == keyed(before)[j + 1]);
            assert(keyed(before)[j + 1] == orig.subrange(k as int, n as int)[j + 1]);
        }
        assert(keyed(t@) =~= orig.subrange(k + 1, n as int));
        let interested = e.interested;
        let changed = e.update(readings);
        if interested || (keep_changed && changed) {
            kept.push((key, e));
            assert(keyed(kept@) =~= refresh_all(orig.subrange(0, k + 1), keyed(readings@), keep_changed));
        }
        k = k + 1;
    }
    assert(orig.subrange(0, n as int) =~= orig);
    *t = kept;
}


proof fn lemma_update_entry<V>(s: Seq<(Seq<char>, V)>, i: int, v: V, k: Seq<char>)
    requires
        0 <= i < s.len(),
        forall|j: int| i < j < s.len() ==> #[trigger] s[j].0 != s[i].0,
    ensures
        find(s.update(i, (s[i].0, v)), k) == (if k == s[i].0 {
            Some(v)
        } else {
            find(s, k)
        }),
    decreases s.len(),
{
    let u = s.update(i, (s[i].0, v));
    if i < s.len() - 1 {
        assert(u.drop_last() =~= s.drop_last().update(i, (s[i].0, v)));
        assert(s.last() == s[s.len() - 1]);
        lemma_update_entry(s.drop_last(), i, v, k);
    } else {
        assert(u.drop_last() =~= s.drop_last());
    }
}

/// Marks the entry under `key` as asked for and returns its place.
fn touch<T: View>(t: &mut Vec<(String, StoreValue<T>)>, key: &str) -> (r: Option<usize>)
    ensures
        unique_keys(keyed(old(t)@)) ==> unique_keys(keyed(final(t)@)),
        match find(keyed(old(t)@), key@) {
            None => r is None && final(t)@ == old(t)@,
            Some(e) => match r {
                Some(i) => i < final(t)@.len() && final(t)@[i as int].1@ == (EntryView {
                    interested: true,
                    ..e
                }) && forall|k: Seq<char>|
                    find(keyed(final(t)@), k) == if k == key@ {
                        Some(EntryView { interested: true, ..e })
                    } else {
                        find(keyed(old(t)@), k)
                    },
                None => false,
            },
        },
{
    match find_index(t, key) {
        None => None,
        Some(i) => {
            let ghost s = keyed(t@);
            let (k, mut e) = t.remove(i);
            e.interested = true;
            t.insert(i, (k, e));
            proof {
                let ghost v = EntryView { interested: true, ..s[i as int].1 };
                assert(keyed(t@) =~= s.update(i as int, (s[i as int].0, v)));
                assert forall|k: Seq<char>|
                    find(keyed(t@), k) == if k == key@ {
                        Some(v)
                    } else {
                        find(s, k)
                    } by {
                    lemma_update_entry(s, i as int, v, k);
                }
                assert(same_keys(s, keyed(t@)));
                lemma_same_keys(s, keyed(t@), key@);
            }
            Some(i)
        },
    }
}

/// Registers `key`, read from `field`, unless it is already there.
fn register<T: Sample>(
    t: &mut Vec<(String, StoreValue<T>)>,
    key: &str,
    field: &str,
    readings: &Vec<(String, T)>,
)
    ensures
        unique_keys(keyed(old(t)@)) ==> unique_keys(keyed(final(t)@)),
        find(keyed(old(t)@), key@) is Some ==> final(t)@ == old(t)@,
        find(keyed(old(t)@), key@) is None ==> forall|k: Seq<char>|
            find(keyed(final(t)@), k) == if k == key@ {
                Some(
                    EntryView {
                        pair: observe(None, find(keyed(readings@), field@)),
                        interested: true,
                        field: field@,
                    },
                )
            } else {
                find(keyed(old(t)@), k)
            },
{
    if find_index(t, key).is_none() {
        let ghost s = keyed(t@);
        let e = StoreValue::new(field, readings);
        t.push((key.to_owned(), e));
        assert(keyed(t@) =~= s.push((key@, e@)));
        assert(keyed(t@).drop_last() =~= s);
    }
}

/// The entry under `key`, as asked for: its pair if it holds one.
pub open spec fn asked<V>(e: Option<EntryView<V>>) -> Option<(V, V)> {
    match e {
        Some(x) => x.pair,
        None => None,
    }
}

/// The table after `key` was asked for.
pub open spec fn after_ask<V>(
    before: Seq<(Seq<char>, EntryView<V>)>,
    after: Seq<(Seq<char>, EntryView<V>)>,
    key: Seq<char>,
) -> bool {
    forall|k: Seq<char>|
        #[trigger] find(after, k) == if k == key {
            match find(before, k) {
                Some(e) => Some(EntryView { interested: true, ..e }),
                None => None,
            }
        } else {
            find(before, k)
        }
}

/// The table after `key` was registered (read from `field`) and asked for.
pub open spec fn after_register<V>(
    before: Seq<(Seq<char>, EntryView<V>)>,
    after: Seq<(Seq<char>, EntryView<V>)>,
    key: Seq<char>,
    field: Seq<char>,
    readings: Seq<(Seq<char>, V)>,
) -> bool {
    forall|k: Seq<char>|
        #[trigger] find(after, k) == if k == key {
            match find(before, k) {
                Some(e) => Some(EntryView { interested: true, ..e }),
                None => Some(
                    EntryView {
                        pair: observe(None, find(readings, field)),
                        interested: true,
                        field,
                    },
                ),
            }
        } else {
            find(before, k)
        }
}

fn ask<T: Sample>(t: &mut Vec<(String, StoreValue<T>)>, key: &str) -> (r: Option<Pair<T>>)
    ensures
        unique_keys(keyed(old(t)@)) ==> unique_keys(keyed(final(t)@)),
        after_ask(keyed(old(t)@), keyed(final(t)@), key@),
        match r {
            Some(p) => asked(find(keyed(old(t)@), key@)) == Some(p@),
            None => asked(find(keyed(old(t)@), key@)) is None,
        },
{
    match touch(t, key) {
        None => None,
        Some(i) => match &t[i].1.watcher.pair {
            Some(p) => Some(Pair { old: p.old.duplicate(), current: p.current.duplicate() }),
            None => None,
        },
    }
}

fn ask_or_register<T: Sample>(
    t: &mut Vec<(String, StoreValue<T>)>,
    key: &str,
    field: &str,
    readings: &Vec<(String, T)>,
) -> (r: Option<Pair<T>>)
    ensures
        unique_keys(keyed(old(t)@)) ==> unique_keys(keyed(final(t)@)),
        after_register(keyed(old(t)@), keyed(final(t)@), key@, field@, keyed(readings@)),
        match r {
            Some(p) => asked(find(keyed(final(t)@), key@)) == Some(p@),
            None => asked(find(keyed(final(t)@), key@)) is None,
        },
{
    register(t, key, field, readings);
    ask(t, key)
}

/// Readings of one tick: what the accessor produced for each field, and what
/// the timer reports. A field that could not be read is absent.
pub struct Snapshot {
    pub timer_state: Option<TimerState>,
    /// `Some(None)`: the timer tracks no split index now; `None`: the host
    /// does not report one at all.
    pub split_index: Option<Option<u64>>,
    pub bools: Vec<(String, bool)>,
    pub i32s: Vec<(String, i32)>,
    pub strings: Vec<(String, String)>,
    /// Version tag of the inventory that tool lookups search.
    pub tools_version: Option<i32>,
    /// The timer's per-segment answer to "was this segment split".
    pub segments_splitted: Vec<bool>,
}

/// Remembers the last tool looked up and whether it was found, valid as
/// long as the inventory's version tag stays the same.
pub struct ToolCache {
    pub version: Option<i32>,
    pub tool: Vec<u16>,
    pub found: bool,
}

/// The tool that a cache remembers after it saw version `v`.
pub open spec fn tool_kept(c: ToolCache, v: Option<i32>) -> Seq<u16> {
    if c.version == v {
        c.tool@
    } else {
        Seq::empty()
    }
}

impl ToolCache {
    /// A remembered tool belongs to a known version.
    pub open spec fn wf(&self) -> bool {
        self.tool@.len() > 0 ==> self.version is Some
    }

    pub fn new() -> (r: Self)
        ensures
            r.wf(),
            r.version is None,
            r.tool@.len() == 0,
            !r.found,
    {
        ToolCache { version: None, tool: Vec::new(), found: false }
    }

    /// Forgets the remembered tool when the version tag changed.
    pub fn update_version(&mut self, version: Option<i32>)
        ensures
            old(self).wf() ==> final(self).wf(),
            final(self).version == version,
            final(self).tool@ == tool_kept(*old(self), version),
            final(self).found == old(self).found,
    {
        if self.version != version {
            self.version = version;
            self.tool = Vec::new();
        }
    }

    /// Checks the version tag; called every tick, with or without a lookup.
    pub fn update_validity(&mut self, version: Option<i32>)
        ensures
            old(self).wf() ==> final(self).wf(),
            old(self).tool@.len() == 0 ==> *final(self) == *old(self),
            old(self).tool@.len() > 0 ==> final(self).version == version && final(self).tool@
                == tool_kept(*old(self), version) && final(self).found == old(self).found,
    {
        if self.tool.len() > 0 {
            self.update_version(version)
        }
    }

    /// Whether the inventory of version `version` holds `tool`. `lookup`
    /// searches the inventory; it runs only when the answer is not cached.
    pub fn has_tool<F: FnOnce() -> bool>(&mut self, tool: &[u16], version: Option<i32>, lookup: F) -> (r: bool)
        requires
            lookup.requires(()),
        ensures
            old(self).wf() ==> final(self).wf(),
            final(self).version == version,
            version is None ==> !r && final(self).tool@ == tool_kept(*old(self), version)
                && final(self).found == old(self).found,
            version is Some && tool_kept(*old(self), version) == tool@ ==> r == old(self).found
                && final(self).tool@ == tool@ && final(self).found == r,
            version is Some && tool_kept(*old(self), version) != tool@ ==> lookup.ensures((), r)
                && final(self).tool@ == tool@ && final(self).found == r,
    {
        self.update_version(version);
        if self.version.is_none() {
            return false;
        }
        if !same_units(&self.tool, tool) {
            self.found = lookup();
            self.tool = slice_to_vec(tool);
        }
        self.found
    }
}

fn same_units(a: &Vec<u16>, b: &[u16]) -> (r: bool)
    ensures
        r == (a@ == b@),
{
    if a.len() != b.len() {
        return false;
    }
    let mut i: usize = 0;
    while i < a.len()
        invariant
            a@.len() == b@.len(),
            i <= a@.len(),
            forall|j: int| 0 <= j < i ==> a@[j] == b@[j],
        decreases a@.len() - i,
    {
        if a[i] != b[i] {
            return false;
        }
        i = i + 1;
    }
    assert(a@ =~= b@);
    true
}

fn slice_to_vec(b: &[u16]) -> (r: Vec<u16>)
    ensures
        r@ == b@,
{
    let mut v: Vec<u16> = Vec::new();
    let mut i: usize = 0;
    while i < b.len()
        invariant
            i <= b@.len(),
            v@ == b@.subrange(0, i as int),
        decreases b@.len() - i,
    {
        v.push(b[i]);
        i = i + 1;
        assert(v@ =~= b@.subrange(0, i as int));
    }
    assert(b@.subrange(0, b@.len() as int) =~= b@);
    v
}


/// The demand-driven cache of one tick's readings.
pub struct Store {
    pub timer_state: Watcher<TimerState>,
    pub split_index: Watcher<Option<u64>>,
    pub bools: Vec<(String, StoreValue<bool>)>,
    pub i32s: Vec<(String, StoreValue<i32>)>,
    pub strings: Vec<(String, StoreValue<String>)>,
    pub tools: ToolCache,
}

/// The current value of a tracked pair, if any.
pub open spec fn current_of<V>(p: Option<(V, V)>) -> Option<V> {
    match p {
        Some(q) => Some(q.1),
        None => None,
    }
}

impl Store {
    /// Each key names at most one entry, and the tool cache is consistent.
    pub open spec fn wf(&self) -> bool {
        &&& self.tools.wf()
        &&& unique_keys(keyed(self.bools@))
        &&& unique_keys(keyed(self.i32s@))
        &&& unique_keys(keyed(self.strings@))
    }

    /// An empty store that has read the timer once.
    pub fn new(snap: &Snapshot) -> (r: Store)
        ensures
            r.wf(),
            r.timer_state@ == observe(None, snap.timer_state),
            r.split_index@ == observe(None, snap.split_index),
            r.bools@.len() == 0,
            r.i32s@.len() == 0,
            r.strings@.len() == 0,
            r.tools.version is None,
            r.tools.tool@.len() == 0,
    {
        let mut timer_state = Watcher::new();
        timer_state.update(snap.timer_state);
        let mut split_index = Watcher::new();
        split_index.update(snap.split_index);
        Store {
            timer_state,
            split_index,
            bools: Vec::new(),
            i32s: Vec::new(),
            strings: Vec::new(),
            tools: ToolCache::new(),
        }
    }

    pub fn get_timer_state_pair(&self) -> (r: Option<Pair<TimerState>>)
        ensures
            r == self.timer_state.pair,
    {
        self.timer_state.pair
    }

    pub fn get_timer_state_current(&self) -> (r: Option<TimerState>)
        ensures
            r == current_of(self.timer_state@),
    {
        match self.timer_state.pair {
            Some(p) => Some(p.current),
            None => None,
        }
    }

    /// `None` when the host never reported a split index.
    pub fn get_split_index_pair(&self) -> (r: Option<Pair<Option<u64>>>)
        ensures
            r == self.split_index.pair,
    {
        self.split_index.pair
    }

    /// The split index that the timer reports now.
    pub open spec fn get_split_index_current_spec(&self) -> Option<u64> {
        match self.split_index@ {
            Some(q) => q.1,
            None => None,
        }
    }

    pub fn get_split_index_current(&self) -> (r: Option<u64>)
        ensures
            r == self.get_split_index_current_spec(),
    {
        match self.split_index.pair {
            Some(p) => p.current,
            None => None,
        }
    }

    /// Whether the inventory holds `tool`, through the tool cache.
    pub fn has_tool<F: FnOnce() -> bool>(&mut self, tool: &[u16], version: Option<i32>, lookup: F) -> (r: bool)
        requires
            lookup.requires(()),
        ensures
            old(self).wf() ==> final(self).wf(),
            final(self).same_but_tools(*old(self)),
            final(self).tools.version == version,
            version is None ==> !r,
            version is Some && tool_kept(old(self).tools, version) == tool@ ==> r == old(
                self,
            ).tools.found,
            version is Some && tool_kept(old(self).tools, version) != tool@ ==> lookup.ensures(
                (),
                r,
            ),
    {
        self.tools.has_tool(tool, version, lookup)
    }

    /// Everything but the tool cache is as in `o`.
    pub open spec fn same_but_tools(&self, o: Store) -> bool {
        &&& self.timer_state == o.timer_state
        &&& self.split_index == o.split_index
        &&& self.bools == o.bools
        &&& self.i32s == o.i32s
        &&& self.strings == o.strings
    }

    /// The pair under `key`, if registered; marks it as asked for.
    pub fn get_bool_pair(&mut self, key: &str) -> (r: Option<Pair<bool>>)
        ensures
            old(self).wf() ==> final(self).wf(),
            after_ask(keyed(old(self).bools@), keyed(final(self).bools@), key@),
            final(self).i32s == old(self).i32s,
            final(self).strings == old(self).strings,
            final(self).timer_state == old(self).timer_state,
            final(self).split_index == old(self).split_index,
            final(self).tools == old(self).tools,
            match r {
                Some(p) => asked(find(keyed(old(self).bools@), key@)) == Some(p@),
                None => asked(find(keyed(old(self).bools@), key@)) is None,
            },
    {
        ask(&mut self.bools, key)
    }

    /// The pair under `key`, if registered; marks it as asked for.
    pub fn get_i32_pair(&mut self, key: &str) -> (r: Option<Pair<i32>>)
        ensures
            old(self).wf() ==> final(self).wf(),
            after_ask(keyed(old(self).i32s@), keyed(final(self).i32s@), key@),
            final(self).bools == old(self).bools,
            final(self).strings == old(self).strings,
            final(self).timer_state == old(self).timer_state,
            final(self).split_index == old(self).split_index,
            final(self).tools == old(self).tools,
            match r {
                Some(p) => asked(find(keyed(old(self).i32s@), key@)) == Some(p@),
                None => asked(find(keyed(old(self).i32s@), key@)) is None,
            },
    {
        ask(&mut self.i32s, key)
    }

    /// The current text under `key`, if registered; marks it as asked for.
    pub fn get_string(&mut self, key: &str) -> (r: Option<String>)
        ensures
            old(self).wf() ==> final(self).wf(),
            after_ask(keyed(old(self).strings@), keyed(final(self).strings@), key@),
            final(self).bools == old(self).bools,
            final(self).i32s == old(self).i32s,
            final(self).timer_state == old(self).timer_state,
            final(self).split_index == old(self).split_index,
            final(self).tools == old(self).tools,
            match r {
                Some(v) => current_of(asked(find(keyed(old(self).strings@), key@))) == Some(v@),
                None => current_of(asked(find(keyed(old(self).strings@), key@))) is None,
            },
    {
        match ask(&mut self.strings, key) {
            Some(p) => Some(p.current),
            None => None,
        }
    }

    /// Registers `key`, read from `field`, on its first use, then asks for it.
    pub fn get_bool_pair_bang(&mut self, key: &str, field: &str, snap: &Snapshot) -> (r: Option<Pair<bool>>)
        ensures
            old(self).wf() ==> final(self).wf(),
            after_register(keyed(old(self).bools@), keyed(final(self).bools@), key@, field@, keyed(snap.bools@)),
            final(self).i32s == old(self).i32s,
            final(self).strings == old(self).strings,
            final(self).timer_state == old(self).timer_state,
            final(self).split_index == old(self).split_index,
            final(self).tools == old(self).tools,
            match r {
                Some(p) => asked(find(keyed(final(self).bools@), key@)) == Some(p@),
                None => asked(find(keyed(final(self).bools@), key@)) is None,
            },
    {
        ask_or_register(&mut self.bools, key, field, &snap.bools)
    }

    /// Registers `key`, read from `field`, on its first use, then asks for it.
    pub fn get_i32_pair_bang(&mut self, key: &str, field: &str, snap: &Snapshot) -> (r: Option<Pair<i32>>)
        ensures
            old(self).wf() ==> final(self).wf(),
            after_register(keyed(old(self).i32s@), keyed(final(self).i32s@), key@, field@, keyed(snap.i32s@)),
            final(self).bools == old(self).bools,
            final(self).strings == old(self).strings,
            final(self).timer_state == old(self).timer_state,
            final(self).split_index == old(self).split_index,
            final(self).tools == old(self).tools,
            match r {
                Some(p) => asked(find(keyed(final(self).i32s@), key@)) == Some(p@),
                None => asked(find(keyed(final(self).i32s@), key@)) is None,
            },
    {
        ask_or_register(&mut self.i32s, key, field, &snap.i32s)
    }

    /// Registers `key`, read from `field`, on its first use, then asks for it.
    pub fn get_string_bang(&mut self, key: &str, field: &str, snap: &Snapshot) -> (r: Option<String>)
        ensures
            old(self).wf() ==> final(self).wf(),
            after_register(keyed(old(self).strings@), keyed(final(self).strings@), key@, field@, keyed(snap.strings@)),
            final(self).bools == old(self).bools,
            final(self).i32s == old(self).i32s,
            final(self).timer_state == old(self).timer_state,
            final(self).split_index == old(self).split_index,
            final(self).tools == old(self).tools,
            match r {
                Some(v) => current_of(asked(find(keyed(final(self).strings@), key@))) == Some(v@),
                None => current_of(asked(find(keyed(final(self).strings@), key@))) is None,
            },
    {
        match ask_or_register(&mut self.strings, key, field, &snap.strings) {
            Some(p) => Some(p.current),
            None => None,
        }
    }

    /// The refresh of one tick: reads every entry's field, evicts what
    /// nothing asked for (a text entry only when this reading leaves its value
    /// unchanged), reads the timer, checks the tool cache, and clears the
    /// interest flags of the surviving entries.
    pub fn update_all(&mut self, snap: &Snapshot)
        ensures
            old(self).wf() ==> final(self).wf(),
            refreshed_store(*old(self), *final(self), *snap),
    {
        refresh_table(&mut self.bools, &snap.bools, false);
        refresh_table(&mut self.i32s, &snap.i32s, false);
        refresh_table(&mut self.strings, &snap.strings, true);
        self.timer_state.update(snap.timer_state);
        self.split_index.update(snap.split_index);
        self.tools.update_validity(snap.tools_version);
        proof {
            if old(self).wf() {
                lemma_refresh_all(keyed(old(self).bools@), keyed(snap.bools@), false, Seq::empty());
                lemma_refresh_all(keyed(old(self).i32s@), keyed(snap.i32s@), false, Seq::empty());
                lemma_refresh_all(keyed(old(self).strings@), keyed(snap.strings@), true, Seq::empty());
            }
        }
    }
}

/// `after` is `before` refreshed with the readings of `snap`.
pub open spec fn refreshed_store(before: Store, after: Store, snap: Snapshot) -> bool {
    &&& keyed(after.bools@) == refresh_all(keyed(before.bools@), keyed(snap.bools@), false)
    &&& keyed(after.i32s@) == refresh_all(keyed(before.i32s@), keyed(snap.i32s@), false)
    &&& keyed(after.strings@) == refresh_all(keyed(before.strings@), keyed(snap.strings@), true)
    &&& after.timer_state@ == observe(before.timer_state@, snap.timer_state)
    &&& after.split_index@ == observe(before.split_index@, snap.split_index)
    &&& before.tools.tool@.len() == 0 ==> after.tools == before.tools
    &&& before.tools.tool@.len() > 0 ==> after.tools.version == snap.tools_version
        && after.tools.tool@ == tool_kept(before.tools, snap.tools_version)
        && after.tools.found == before.tools.found
}

/// After a refresh, the entry under a key is the old one refreshed, if it
/// was kept, and the key is absent otherwise.
pub proof fn lemma_refresh_by_key<V>(
    s: Seq<(Seq<char>, EntryView<V>)>,
    readings: Seq<(Seq<char>, V)>,
    keep_changed: bool,
    k: Seq<char>,
)
    requires
        unique_keys(s),
    ensures
        find(refresh_all(s, readings, keep_changed), k) == refreshed_under(
            find(s, k),
            readings,
            keep_changed,
        ),
{
    lemma_refresh_all(s, readings, keep_changed, k);
}

/// After a refresh, asking for a key yields a value exactly when the key is
/// still registered and its field was read at least once: when it was
/// registered, in an earlier refresh, or in this one.
pub proof fn lemma_value_iff_registered_and_read<V>(
    s: Seq<(Seq<char>, EntryView<V>)>,
    readings: Seq<(Seq<char>, V)>,
    keep_changed: bool,
    k: Seq<char>,
)
    requires
        unique_keys(s),
    ensures
        (asked(find(refresh_all(s, readings, keep_changed), k)) is Some) == match find(s, k) {
            Some(e) => keeps(e, keep_changed, readings) && (e.pair is Some || find(readings, e.field) is Some),
            None => false,
        },
{
    lemma_refresh_all(s, readings, keep_changed, k);
}

} // verus!
