use vstd::prelude::*;

use crate::store::Pair;
use crate::text::same_text;

verus! {

pub const MENU_TITLE: &'static str = "Menu_Title";

pub const QUIT_TO_MENU: &'static str = "Quit_To_Menu";

pub const PERMA_DEATH: &'static str = "PermaDeath";

pub const OPENING_SEQUENCE: &'static str = "Opening_Sequence";

pub const DEMO_START: &'static str = "Demo Start";

/// A location that stands for a menu: none at all, the title screen, the
/// way back to it, or the permanent-death screen.
pub open spec fn menu_like(s: Seq<char>) -> bool {
    s.len() == 0 || s == MENU_TITLE@ || s == QUIT_TO_MENU@ || s == PERMA_DEATH@
}

pub fn is_menu(s: &str) -> (r: bool)
    ensures
        r == menu_like(s@),
{
    s.is_empty() || same_text(s, MENU_TITLE) || same_text(s, QUIT_TO_MENU) || same_text(
        s,
        PERMA_DEATH,
    )
}

/// The location that a debug save state loads into.
pub fn is_debug_save_state_scene(s: &str) -> (r: bool)
    ensures
        r == (s@ == DEMO_START@),
{
    same_text(s, DEMO_START)
}

/// A scene in which a new game opens.
pub fn is_opening_scene(s: &str) -> (r: bool)
    ensures
        r == (s@ == OPENING_SEQUENCE@),
{
    same_text(s, OPENING_SEQUENCE)
}

/// Names that the location fields hold for a moment while they are being
/// rewritten: never a real location.
pub open spec fn junk_name(s: Seq<char>) -> bool {
    s == "Untagged"@ || s == "left1"@ || s == "oncomplete"@ || s == "Attack Range"@ || s
        == "onstart"@ || s == "position"@ || s == "looptype"@ || s == "integer1"@ || s
        == "gameObject"@ || s == "eventTarget"@ || s == "material"@
}

pub fn is_junk_name(s: &str) -> (r: bool)
    ensures
        r == junk_name(s@),
{
    same_text(s, "Untagged") || same_text(s, "left1") || same_text(s, "oncomplete") || same_text(
        s,
        "Attack Range",
    ) || same_text(s, "onstart") || same_text(s, "position") || same_text(s, "looptype")
        || same_text(s, "integer1") || same_text(s, "gameObject") || same_text(s, "eventTarget")
        || same_text(s, "material")
}

/// Offsets of the length and the characters in a remote string object.
pub struct StringListOffsets {
    pub string_len: u64,
    pub string_contents: u64,
}

impl StringListOffsets {
    pub fn new() -> (r: StringListOffsets)
        ensures
            r.string_len == 0x10,
            r.string_contents == 0x14,
    {
        StringListOffsets { string_len: 0x10, string_contents: 0x14 }
    }
}

/// The location fields as the detector last saw them.
pub struct SceneStore {
    pub prev_scene_name: String,
    pub curr_scene_name: String,
    pub next_scene_name: String,
    pub new_data_curr: bool,
    pub new_data_next: bool,
    pub last_next: bool,
    pub split_this_transition: bool,
}

pub struct SceneView {
    pub prev: Seq<char>,
    pub curr: Seq<char>,
    pub next: Seq<char>,
    pub new_curr: bool,
    pub new_next: bool,
    pub last_next: bool,
    pub split_this_transition: bool,
}

impl View for SceneStore {
    type V = SceneView;

    open spec fn view(&self) -> SceneView {
        SceneView {
            prev: self.prev_scene_name@,
            curr: self.curr_scene_name@,
            next: self.next_scene_name@,
            new_curr: self.new_data_curr,
            new_next: self.new_data_next,
            last_next: self.last_next,
            split_this_transition: self.split_this_transition,
        }
    }
}

/// A reading that replaces the stored name: present, new, and no junk.
pub open spec fn fresh_name(read: Seq<char>, stored: Seq<char>) -> bool {
    read.len() > 0 && read != stored && !junk_name(read)
}

pub open spec fn with_curr(m: SceneView, csn: Seq<char>) -> SceneView {
    if fresh_name(csn, m.curr) {
        SceneView { prev: m.curr, curr: csn, new_curr: csn != m.next, ..m }
    } else {
        m
    }
}

pub open spec fn with_next(m: SceneView, nsn: Seq<char>) -> SceneView {
    if fresh_name(nsn, m.next) {
        SceneView { next: nsn, new_next: true, ..m }
    } else {
        m
    }
}

/// One tick of the detector: the readings of the current location, whether
/// the next location may be read (no load in progress, or its activation
/// granted), and the reading of the next location. Gives the new state and
/// whether a transition was committed.
pub open spec fn transition_step(
    m: SceneView,
    csn: Seq<char>,
    next_readable: bool,
    nsn: Seq<char>,
) -> (SceneView, bool) {
    let a = with_curr(m, csn);
    let b = if next_readable {
        with_next(a, nsn)
    } else {
        a
    };
    if b.new_next {
        (
            SceneView {
                new_curr: false,
                new_next: false,
                last_next: true,
                split_this_transition: false,
                ..b
            },
            true,
        )
    } else if b.new_curr {
        if menu_like(b.next) && !menu_like(b.prev) && !menu_like(b.curr) {
            (SceneView { new_curr: false, ..b }, false)
        } else {
            (
                SceneView { new_curr: false, last_next: false, split_this_transition: false, ..b },
                true,
            )
        }
    } else {
        (b, false)
    }
}

/// The (old, new) locations of the latest transition.
pub open spec fn scene_pair(m: SceneView) -> (Seq<char>, Seq<char>) {
    if m.last_next && m.next != m.curr {
        (m.curr, m.next)
    } else {
        (m.prev, m.curr)
    }
}

impl SceneStore {
    pub fn new() -> (r: SceneStore)
        ensures
            r@ == (SceneView {
                prev: Seq::empty(),
                curr: Seq::empty(),
                next: Seq::empty(),
                new_curr: false,
                new_next: false,
                last_next: true,
                split_this_transition: false,
            }),
    {
        SceneStore {
            prev_scene_name: String::new(),
            curr_scene_name: String::new(),
            next_scene_name: String::new(),
            new_data_curr: false,
            new_data_next: false,
            last_next: true,
            split_this_transition: false,
        }
    }

    /// The (old, new) locations of the latest transition.
    pub fn pair(&self) -> (r: Pair<&str>)
        ensures
            (r.old@, r.current@) == scene_pair(self@),
    {
        if self.last_next && self.next_scene_name != self.curr_scene_name {
            Pair { old: self.curr_scene_name.as_str(), current: self.next_scene_name.as_str() }
        } else {
            Pair { old: self.prev_scene_name.as_str(), current: self.curr_scene_name.as_str() }
        }
    }

    pub fn new_curr_scene_name(&mut self, csn: String)
        ensures
            final(self)@ == with_curr(old(self)@, csn@),
    {
        if !csn.as_str().is_empty() && csn != self.curr_scene_name && !is_junk_name(csn.as_str()) {
            let was = self.curr_scene_name.clone();
            self.prev_scene_name = was;
            self.curr_scene_name = csn;
            self.new_data_curr = self.curr_scene_name != self.next_scene_name;
        }
    }

    pub fn new_next_scene_name(&mut self, nsn: String)
        ensures
            final(self)@ == with_next(old(self)@, nsn@),
    {
        if !nsn.as_str().is_empty() && nsn != self.next_scene_name && !is_junk_name(nsn.as_str()) {
            self.next_scene_name = nsn;
            self.new_data_next = !self.next_scene_name.as_str().is_empty();
        }
    }

    /// One tick of the detector. `scene_name` and `next_scene_name` are the
    /// readings of the two location fields, empty where unreadable; the next
    /// location counts only when no load is in progress
    /// (`scene_load_null`) or the load's activation was granted. Returns
    /// whether a transition was committed.
    pub fn transition_now(
        &mut self,
        scene_name: String,
        scene_load_null: bool,
        scene_load_activation_allowed: bool,
        next_scene_name: String,
    ) -> (r: bool)
        ensures
            (final(self)@, r) == transition_step(
                old(self)@,
                scene_name@,
                scene_load_null || scene_load_activation_allowed,
                next_scene_name@,
            ),
    {
        self.new_curr_scene_name(scene_name);
        if scene_load_null || scene_load_activation_allowed {
            self.new_next_scene_name(next_scene_name);
        }
        if self.new_data_next {
            self.new_data_curr = false;
            self.new_data_next = false;
            self.last_next = true;
            self.split_this_transition = false;
            true
        } else if self.new_data_curr {
            self.new_data_curr = false;
            if is_menu(self.next_scene_name.as_str()) && !is_menu(self.prev_scene_name.as_str())
                && !is_menu(self.curr_scene_name.as_str()) {
                return false;
            }
            self.last_next = false;
            self.split_this_transition = false;
            true
        } else {
            false
        }
    }
}

/// Reading the same locations again, with the same load state, commits no
/// transition: a transition is reported once.
pub proof fn lemma_steady_readings_commit_nothing(
    m: SceneView,
    csn: Seq<char>,
    next_readable: bool,
    nsn: Seq<char>,
)
    ensures
        !transition_step(transition_step(m, csn, next_readable, nsn).0, csn, next_readable, nsn).1,
{
}

} // verus!
