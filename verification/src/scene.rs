//! Per-frame scene state: a mapping from grid locations to the visible
//! objects placed there this frame (draw order = z-index ascending, stable),
//! a cursor location, a bounded log buffer, and the elapsed time.

use vstd::prelude::*;

verus! {

/// How many log entries the bounded log buffer keeps; the oldest entries
/// are evicted first.
pub const MAX_LOG_ENTRIES: usize = 100;

/// An integer grid coordinate.
#[derive(Debug, Clone, Copy, PartialEq, Eq, Hash, Structural)]
pub struct Location {
    pub x: i32,
    pub y: i32,
}

/// A drawable object the world can place at a location.
#[derive(Debug, Clone, Copy, PartialEq, Eq, Hash, Structural)]
pub enum VisibleObject {
    Soil,
    Grass,
}

/// One entry of the game log.
#[derive(Debug, Clone, PartialEq, Eq)]
pub struct LogEntry {
    text: Vec<char>,
}

impl LogEntry {
    pub closed spec fn view(&self) -> Seq<char> {
        self.text@
    }

    pub fn new(text: Vec<char>) -> (r: LogEntry)
        ensures
            r@ == text@,
    {
        LogEntry { text }
    }

    pub fn contents(&self) -> (r: &Vec<char>)
        ensures
            r@ == self@,
    {
        &self.text
    }
}

/// One contribution to the frame's scene: an object with a z-index placed at
/// a location.
#[derive(Debug, Clone, Copy, PartialEq, Eq, Structural)]
pub struct SceneEntry {
    pub location: Location,
    pub object: VisibleObject,
    pub z_index: i32,
}

/// An axis-aligned rectangle of grid locations, both bounds inclusive.
#[derive(Debug, Clone, Copy, PartialEq, Eq, Structural)]
pub struct Rectangle {
    pub min_x: i64,
    pub min_y: i64,
    pub max_x: i64,
    pub max_y: i64,
}

impl Rectangle {
    /// The rectangle of the given size whose centre cell is `center`.
    pub fn centered_around(center: Location, width: u32, height: u32) -> (r: Rectangle)
        requires
            0 < width <= 0x10000,
            0 < height <= 0x10000,
        ensures
            r.min_x == center.x - width / 2,
            r.min_y == center.y - height / 2,
            r.max_x == r.min_x + width - 1,
            r.max_y == r.min_y + height - 1,
    {
        let min_x: i64 = (center.x as i64) - ((width / 2) as i64);
        let min_y: i64 = (center.y as i64) - ((height / 2) as i64);
        Rectangle { min_x, min_y, max_x: min_x + (width as i64) - 1, max_y: min_y + (height as i64) - 1 }
    }

}

/// Whether a sequence of placed objects is ordered by z-index ascending.
pub open spec fn sorted_by_z(s: Seq<(VisibleObject, i32)>) -> bool {
    forall|i: int, j: int| 0 <= i < j < s.len() ==> s[i].1 <= s[j].1
}

/// Where an object with z-index `z` is inserted: after the longest prefix
/// whose z-indices are all at most `z`, so that equal z-indices keep their
/// insertion order.
pub open spec fn z_insert_pos(s: Seq<(VisibleObject, i32)>, z: i32) -> int
    decreases s.len(),
{
    if s.len() == 0 {
        0
    } else if s[0].1 <= z {
        1 + z_insert_pos(s.skip(1), z)
    } else {
        0
    }
}

/// The insertion position ends the longest prefix of z-indices at most `z`.
pub proof fn lemma_z_insert_pos_char(s: Seq<(VisibleObject, i32)>, z: i32)
    ensures
        0 <= z_insert_pos(s, z) <= s.len(),
        forall|j: int| 0 <= j < z_insert_pos(s, z) ==> s[j].1 <= z,
        z_insert_pos(s, z) < s.len() ==> s[z_insert_pos(s, z)].1 > z,
    decreases s.len(),
{
    if s.len() > 0 && s[0].1 <= z {
        lemma_z_insert_pos_char(s.skip(1), z);
        let p = z_insert_pos(s, z);
        assert forall|j: int| 0 <= j < p implies s[j].1 <= z by {
            if j > 0 {
                assert(s.skip(1)[j - 1] == s[j]);
            }
        }
        if p < s.len() {
            assert(s.skip(1)[p - 1] == s[p]);
        }
    }
}

/// Inserting at the insertion position keeps the sequence sorted by z-index.
pub proof fn lemma_z_insert_sorted(s: Seq<(VisibleObject, i32)>, o: VisibleObject, z: i32)
    requires
        sorted_by_z(s),
    ensures
        sorted_by_z(s.insert(z_insert_pos(s, z), (o, z))),
{
    lemma_z_insert_pos_char(s, z);
    let p = z_insert_pos(s, z);
    let t = s.insert(p, (o, z));
    assert forall|i: int, j: int| 0 <= i < j < t.len() implies t[i].1 <= t[j].1 by {
        if i < p && j < p {
        } else if i < p && j == p {
            assert(t[i] == s[i]);
        } else if i == p && j > p {
            assert(t[j] == s[j - 1]);
            assert(s[j - 1].1 >= s[p].1);
        } else if i < p && j > p {
            assert(t[i] == s[i] && t[j] == s[j - 1]);
        } else if i > p && j > p {
            assert(t[i] == s[i - 1] && t[j] == s[j - 1]);
        }
    }
}

/// The objects a frame's contributions place at `loc`: each contribution for
/// `loc` inserted in order, by z-index ascending, equal z-indices keeping
/// their insertion order.
pub open spec fn contributed(entries: Seq<SceneEntry>, loc: Location) -> Seq<(VisibleObject, i32)>
    decreases entries.len(),
{
    if entries.len() == 0 {
        Seq::empty()
    } else {
        let prev = contributed(entries.drop_last(), loc);
        let e = entries.last();
        if e.location == loc {
            prev.insert(z_insert_pos(prev, e.z_index), (e.object, e.z_index))
        } else {
            prev
        }
    }
}

/// Whatever the contributions were, the objects at any location are sorted
/// by z-index ascending.
pub proof fn lemma_contributed_sorted(entries: Seq<SceneEntry>, loc: Location)
    ensures
        sorted_by_z(contributed(entries, loc)),
    decreases entries.len(),
{
    if entries.len() > 0 {
        lemma_contributed_sorted(entries.drop_last(), loc);
        let prev = contributed(entries.drop_last(), loc);
        let e = entries.last();
        if e.location == loc {
            lemma_z_insert_sorted(prev, e.object, e.z_index);
        }
    }
}

/// A log buffer holding at most the newest `MAX_LOG_ENTRIES` entries of `s`.
pub open spec fn bounded_log(s: Seq<LogEntry>) -> Seq<LogEntry> {
    if s.len() <= MAX_LOG_ENTRIES {
        s
    } else {
        s.skip(s.len() - MAX_LOG_ENTRIES)
    }
}

/// The scene state one frame's rendering reads: the frame's object
/// contributions, the cursor, the bounded log, and the elapsed time in
/// milliseconds. The object mapping is fully rebuilt each frame — cleared,
/// then repopulated — never incrementally patched.
pub struct SceneData {
    entries: Vec<SceneEntry>,
    cursor: Location,
    log: Vec<LogEntry>,
    time_ms: u64,
}

impl SceneData {
    /// The objects currently placed at `loc`, in draw order.
    pub open spec fn objects_at(&self, loc: Location) -> Seq<(VisibleObject, i32)> {
        contributed(self.entries_view(), loc)
    }

    /// This frame's contributions, in the order they were added.
    pub closed spec fn entries_view(&self) -> Seq<SceneEntry> {
        self.entries@
    }

    pub closed spec fn cursor_spec(&self) -> Location {
        self.cursor
    }

    pub closed spec fn log_view(&self) -> Seq<LogEntry> {
        self.log@
    }

    pub closed spec fn time_spec(&self) -> u64 {
        self.time_ms
    }

    /// The log buffer never exceeds its bound.
    pub closed spec fn wf(&self) -> bool {
        self.log@.len() <= MAX_LOG_ENTRIES
    }

    pub fn new() -> (r: SceneData)
        ensures
            r.wf(),
            r.entries_view() == Seq::<SceneEntry>::empty(),
            r.cursor_spec() == (Location { x: 0, y: 0 }),
            r.log_view() == Seq::<LogEntry>::empty(),
            r.time_spec() == 0,
    {
        SceneData {
            entries: Vec::new(),
            cursor: Location { x: 0, y: 0 },
            log: Vec::new(),
            time_ms: 0,
        }
    }

    /// Empty the object mapping; cursor, log and time keep their values.
    pub fn clear_objects(&mut self)
        requires
            old(self).wf(),
        ensures
            final(self).wf(),
            final(self).entries_view() == Seq::<SceneEntry>::empty(),
            forall|loc: Location| final(self).objects_at(loc) == Seq::<(VisibleObject, i32)>::empty(),
            final(self).cursor_spec() == old(self).cursor_spec(),
            final(self).log_view() == old(self).log_view(),
            final(self).time_spec() == old(self).time_spec(),
    {
        self.entries.clear();
    }

    /// Record one contribution: `obj` with z-index `z` placed at `loc`.
    pub fn add_object_to_location(&mut self, loc: Location, obj: VisibleObject, z: i32)
        requires
            old(self).wf(),
        ensures
            final(self).wf(),
            final(self).entries_view() == old(self).entries_view().push(
                SceneEntry { location: loc, object: obj, z_index: z },
            ),
            final(self).cursor_spec() == old(self).cursor_spec(),
            final(self).log_view() == old(self).log_view(),
            final(self).time_spec() == old(self).time_spec(),
    {
        self.entries.push(SceneEntry { location: loc, object: obj, z_index: z });
    }

    /// Set the cursor, absorb the drained log entries into the bounded log
    /// buffer (oldest evicted first) and stamp the elapsed time.
    pub fn update(&mut self, cursor: Location, new_entries: Vec<LogEntry>, time_ms: u64)
        requires
            old(self).wf(),
        ensures
            final(self).wf(),
            final(self).entries_view() == old(self).entries_view(),
            final(self).cursor_spec() == cursor,
            final(self).log_view() == bounded_log(old(self).log_view() + new_entries@),
            final(self).time_spec() == time_ms,
    {
        self.cursor = cursor;
        self.time_ms = time_ms;
        let ghost all = old(self).log@ + new_entries@;
        let mut items = new_entries;
        proof {
            assert(self.log@ + items@ =~= all);
        }
        while items.len() > 0
            invariant
                self.log@ + items@ == all,
                self.entries@ == old(self).entries@,
                self.cursor == cursor,
                self.time_ms == time_ms,
            decreases items@.len(),
        {
            let e = items.remove(0);
            self.log.push(e);
            proof {
                assert(self.log@ + items@ =~= all);
            }
        }
        proof {
            assert(self.log@ =~= all);
        }
        while self.log.len() > MAX_LOG_ENTRIES
            invariant
                self.log@ == all.skip(all.len() - self.log@.len()),
                self.log@.len() <= all.len(),
                self.log@.len() >= MAX_LOG_ENTRIES || self.log@.len() == all.len(),
                self.entries@ == old(self).entries@,
                self.cursor == cursor,
                self.time_ms == time_ms,
            decreases self.log@.len(),
        {
            self.log.remove(0);
            proof {
                assert(self.log@ =~= all.skip(all.len() - self.log@.len()));
            }
        }
        proof {
            if all.len() <= MAX_LOG_ENTRIES {
                assert(self.log@ =~= bounded_log(all));
            } else {
                assert(self.log@ =~= bounded_log(all));
            }
        }
    }

    pub fn cursor_location(&self) -> (r: Location)
        ensures
            r == self.cursor_spec(),
    {
        self.cursor
    }

    pub fn t_millis(&self) -> (r: u64)
        ensures
            r == self.time_spec(),
    {
        self.time_ms
    }

    /// How many log entries the buffer currently holds.
    pub fn log_len(&self) -> (r: usize)
        ensures
            r == self.log_view().len(),
    {
        self.log.len()
    }

    /// The `i`-th log entry, oldest first.
    pub fn log_entry(&self, i: usize) -> (r: &LogEntry)
        requires
            i < self.log_view().len(),
        ensures
            r == self.log_view()[i as int],
    {
        &self.log[i]
    }

    /// The objects placed at `loc` this frame, with their z-indices, in draw
    /// order: z-index ascending, equal z-indices in insertion order.
    pub fn objects_with_z_at(&self, loc: &Location) -> (r: Vec<(VisibleObject, i32)>)
        ensures
            r@ == self.objects_at(*loc),
    {
        let n = self.entries.len();
        let mut r: Vec<(VisibleObject, i32)> = Vec::new();
        let mut i: usize = 0;
        proof {
            assert(self.entries@.take(0) =~= Seq::<SceneEntry>::empty());
        }
        while i < n
            invariant
                n == self.entries@.len(),
                0 <= i <= n,
                r@ == contributed(self.entries@.take(i as int), *loc),
            decreases n - i,
        {
            let e = self.entries[i];
            if e.location.x == loc.x && e.location.y == loc.y {
                let p = z_insert_pos_exec(&r, e.z_index);
                r.insert(p, (e.object, e.z_index));
            }
            proof {
                assert(self.entries@.take(i + 1).drop_last() =~= self.entries@.take(i as int));
                assert(self.entries@.take(i + 1).last() == self.entries@[i as int]);
            }
            i += 1;
        }
        proof {
            assert(self.entries@.take(n as int) =~= self.entries@);
        }
        r
    }

    /// The objects placed at `loc` this frame, in draw order.
    pub fn get_objects_for_location(&self, loc: &Location) -> (r: Vec<VisibleObject>)
        ensures
            r@ == self.objects_at(*loc).map_values(|p: (VisibleObject, i32)| p.0),
    {
        let pairs = self.objects_with_z_at(loc);
        let n = pairs.len();
        let mut r: Vec<VisibleObject> = Vec::new();
        let mut i: usize = 0;
        while i < n
            invariant
                n == pairs@.len(),
                0 <= i <= n,
                pairs@ == self.objects_at(*loc),
                r@ == pairs@.take(i as int).map_values(|p: (VisibleObject, i32)| p.0),
            decreases n - i,
        {
            r.push(pairs[i].0);
            proof {
                assert(r@ =~= pairs@.take(i + 1).map_values(|p: (VisibleObject, i32)| p.0));
            }
            i += 1;
        }
        proof {
            assert(pairs@.take(n as int) =~= pairs@);
        }
        r
    }

    /// The topmost object at `loc`: the last in draw order, so the one with
    /// the highest z-index, latest contribution among equals.
    pub fn top_object_at(&self, loc: &Location) -> (r: Option<VisibleObject>)
        ensures
            self.objects_at(*loc).len() == 0 ==> r is None,
            self.objects_at(*loc).len() > 0 ==> r == Some(self.objects_at(*loc).last().0),
    {
        let pairs = self.objects_with_z_at(loc);
        if pairs.len() == 0 {
            None
        } else {
            Some(pairs[pairs.len() - 1].0)
        }
    }
}

/// The position in the already-sorted `v` at which an object with z-index
/// `z` is inserted.
fn z_insert_pos_exec(v: &Vec<(VisibleObject, i32)>, z: i32) -> (p: usize)
    ensures
        p == z_insert_pos(v@, z),
        p <= v@.len(),
{
    let n = v.len();
    let mut i: usize = 0;
    while i < n && v[i].1 <= z
        invariant
            n == v@.len(),
            0 <= i <= n,
            forall|j: int| 0 <= j < i ==> v@[j].1 <= z,
        decreases n - i,
    {
        i += 1;
    }
    proof {
        lemma_z_insert_pos_char(v@, z);
        let p = z_insert_pos(v@, z);
        if (i as int) < p {
            assert(v@[i as int].1 <= z);
        }
        if p < (i as int) {
            assert(v@[p].1 <= z);
        }
    }
    i
}

} // verus!
