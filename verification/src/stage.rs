//! The stage state machine: a closed sum type with exactly two variants,
//! main menu and active play. One tick consumes the frame's elapsed time and
//! event queue and either continues or requests a wholesale replacement by a
//! freshly constructed stage — the transition is atomic, the stage is never
//! left in an invalid variant.

use vstd::prelude::*;

use crate::input::CODE_DOWN;
use crate::input::CODE_ENTER;
use crate::input::CODE_LEFT;
use crate::input::CODE_RIGHT;
use crate::input::CODE_UP;
use crate::input::Event;
use crate::scene::LogEntry;
use crate::scene::Location;
use crate::scene::SceneData;
use crate::scene::SceneEntry;
use crate::scene::bounded_log;

verus! {

/// Which variant of the stage is active, independent of its payload.
#[derive(Debug, Clone, Copy, PartialEq, Eq, Structural)]
pub enum StageKind {
    MainMenu,
    Game,
}

/// `a + b` capped at the largest representable value.
pub open spec fn sat_add_u64(a: u64, b: u64) -> u64 {
    if a + b > u64::MAX {
        u64::MAX
    } else {
        (a + b) as u64
    }
}

/// Whether the frame's events ask the main menu to start a new game: an
/// Enter key-down anywhere in the queue.
pub open spec fn wants_new_game(events: Seq<Event>) -> bool {
    exists|i: int|
        0 <= i < events.len() && ((#[trigger] events[i]) matches Event::KeyDown(code, _ch, _m)
            && code == CODE_ENTER)
}

/// The cursor location after one event: an arrow key-down moves it one cell,
/// stopping at the representable edge; other events leave it in place.
pub open spec fn moved_cursor(c: Location, e: Event) -> Location {
    match e {
        Event::KeyDown(code, _ch, _m) => {
            if code == CODE_UP && c.y > i32::MIN {
                Location { x: c.x, y: (c.y - 1) as i32 }
            } else if code == CODE_DOWN && c.y < i32::MAX {
                Location { x: c.x, y: (c.y + 1) as i32 }
            } else if code == CODE_LEFT && c.x > i32::MIN {
                Location { x: (c.x - 1) as i32, y: c.y }
            } else if code == CODE_RIGHT && c.x < i32::MAX {
                Location { x: (c.x + 1) as i32, y: c.y }
            } else {
                c
            }
        },
        _ => c,
    }
}

/// The cursor location after a frame's events, applied in order.
pub open spec fn cursor_after(c: Location, events: Seq<Event>) -> Location
    decreases events.len(),
{
    if events.len() == 0 {
        c
    } else {
        moved_cursor(cursor_after(c, events.drop_last()), events.last())
    }
}

/// The main-menu variant's state: the time spent on the menu.
pub struct MainMenu {
    elapsed_ms: u64,
}

impl MainMenu {
    pub closed spec fn elapsed_spec(&self) -> u64 {
        self.elapsed_ms
    }

    pub fn new() -> (r: MainMenu)
        ensures
            r.elapsed_spec() == 0,
    {
        MainMenu { elapsed_ms: 0 }
    }
}

/// The active-play variant's state: the cursor, the frame's scene data and
/// the time spent in play.
pub struct Game {
    cursor: Location,
    scene: SceneData,
    elapsed_ms: u64,
}

impl Game {
    pub closed spec fn cursor_spec(&self) -> Location {
        self.cursor
    }

    pub closed spec fn scene_spec(&self) -> SceneData {
        self.scene
    }

    pub closed spec fn elapsed_spec(&self) -> u64 {
        self.elapsed_ms
    }

    pub closed spec fn wf(&self) -> bool {
        self.scene.wf()
    }

    /// A freshly constructed play stage: nothing is inherited from whatever
    /// stage preceded it.
    pub open spec fn is_initial(&self) -> bool {
        &&& self.cursor_spec() == (Location { x: 0, y: 0 })
        &&& self.scene_spec().entries_view() == Seq::<SceneEntry>::empty()
        &&& self.scene_spec().log_view() == Seq::<LogEntry>::empty()
        &&& self.scene_spec().time_spec() == 0
        &&& self.elapsed_spec() == 0
    }

    pub fn new() -> (r: Game)
        ensures
            r.wf(),
            r.is_initial(),
    {
        Game { cursor: Location { x: 0, y: 0 }, scene: SceneData::new(), elapsed_ms: 0 }
    }

    /// The scene data rendering reads for this frame.
    pub fn scene(&self) -> (r: &SceneData)
        ensures
            r == self.scene_spec(),
    {
        &self.scene
    }

    /// One scene-builder pass on this stage's scene: rebuild the object
    /// mapping from the entries, copy in this stage's cursor, absorb the
    /// drained log entries and stamp this stage's elapsed time.
    pub fn apply_scene_pass(&mut self, entries: &Vec<SceneEntry>, new_log: Vec<LogEntry>)
        requires
            old(self).wf(),
        ensures
            final(self).wf(),
            final(self).cursor_spec() == old(self).cursor_spec(),
            final(self).elapsed_spec() == old(self).elapsed_spec(),
            final(self).scene_spec().entries_view() == entries@,
            final(self).scene_spec().cursor_spec() == old(self).cursor_spec(),
            final(self).scene_spec().log_view() == bounded_log(
                old(self).scene_spec().log_view() + new_log@,
            ),
            final(self).scene_spec().time_spec() == old(self).elapsed_spec(),
    {
        let cursor = self.cursor;
        let time_ms = self.elapsed_ms;
        let mut sys = crate::rendering::RenderingSystem::new();
        sys.run_with(&mut self.scene, entries, cursor, new_log, time_ms);
    }

    /// Advance play by one frame: accumulate the elapsed time (capped at the
    /// largest representable value) and move the cursor by the frame's
    /// arrow-key events, in order.
    fn tick(&mut self, elapsed_ms: u32, events: &Vec<Event>)
        requires
            old(self).wf(),
        ensures
            final(self).wf(),
            final(self).elapsed_spec() == sat_add_u64(old(self).elapsed_spec(), elapsed_ms as u64),
            final(self).cursor_spec() == cursor_after(old(self).cursor_spec(), events@),
            final(self).scene_spec() == old(self).scene_spec(),
    {
        if self.elapsed_ms > u64::MAX - (elapsed_ms as u64) {
            self.elapsed_ms = u64::MAX;
        } else {
            self.elapsed_ms = self.elapsed_ms + (elapsed_ms as u64);
        }
        let n = events.len();
        let mut i: usize = 0;
        proof {
            assert(events@.take(0) =~= Seq::<Event>::empty());
        }
        while i < n
            invariant
                n == events@.len(),
                0 <= i <= n,
                self.cursor == cursor_after(old(self).cursor_spec(), events@.take(i as int)),
                self.scene == old(self).scene,
                self.elapsed_ms == sat_add_u64(old(self).elapsed_spec(), elapsed_ms as u64),
            decreases n - i,
        {
            let c = self.cursor;
            match &events[i] {
                Event::KeyDown(code, _ch, _m) => {
                    if *code == CODE_UP && c.y > i32::MIN {
                        self.cursor = Location { x: c.x, y: c.y - 1 };
                    } else if *code == CODE_DOWN && c.y < i32::MAX {
                        self.cursor = Location { x: c.x, y: c.y + 1 };
                    } else if *code == CODE_LEFT && c.x > i32::MIN {
                        self.cursor = Location { x: c.x - 1, y: c.y };
                    } else if *code == CODE_RIGHT && c.x < i32::MAX {
                        self.cursor = Location { x: c.x + 1, y: c.y };
                    }
                },
                _ => (),
            }
            proof {
                assert(events@.take(i + 1).drop_last() =~= events@.take(i as int));
                assert(events@.take(i + 1).last() == events@[i as int]);
                assert(self.cursor == moved_cursor(c, events@[i as int]));
            }
            i += 1;
        }
        proof {
            assert(events@.take(n as int) =~= events@);
        }
    }
}

/// The result of one tick: stay, or replace the whole stage with a new one.
pub enum StageTransition {
    Continue,
    SwitchTo(Stage),
}

/// The top-level mode of the application. Exactly one instance is live at a
/// time; it starts as the main menu and is only ever replaced wholesale.
pub enum Stage {
    MainMenu(MainMenu),
    Game(Game),
}

impl Stage {
    pub open spec fn kind_spec(&self) -> StageKind {
        match self {
            Stage::MainMenu(_) => StageKind::MainMenu,
            Stage::Game(_) => StageKind::Game,
        }
    }

    pub open spec fn wf(&self) -> bool {
        match self {
            Stage::MainMenu(_) => true,
            Stage::Game(g) => g.wf(),
        }
    }

    /// The stage a process starts in.
    pub fn new() -> (r: Stage)
        ensures
            r.wf(),
            r.kind_spec() == StageKind::MainMenu,
            r matches Stage::MainMenu(m) && m.elapsed_spec() == 0,
    {
        Stage::MainMenu(MainMenu::new())
    }

    /// The structural discriminant of this stage, ignoring its payload.
    pub fn kind(&self) -> (r: StageKind)
        ensures
            r == self.kind_spec(),
    {
        match self {
            Stage::MainMenu(_) => StageKind::MainMenu,
            Stage::Game(_) => StageKind::Game,
        }
    }

    /// One tick: each variant consumes the elapsed time and the frame's
    /// events and updates its own state; the main menu requests a switch to
    /// a freshly constructed play stage when asked to start a new game.
    pub fn tick(&mut self, elapsed_ms: u32, events: &Vec<Event>) -> (r: StageTransition)
        requires
            old(self).wf(),
        ensures
            final(self).wf(),
            final(self).kind_spec() == old(self).kind_spec(),
            match *old(self) {
                Stage::MainMenu(m) => {
                    &&& (*final(self)) matches Stage::MainMenu(m2) && m2.elapsed_spec() == sat_add_u64(
                        m.elapsed_spec(),
                        elapsed_ms as u64,
                    )
                    &&& if wants_new_game(events@) {
                        r matches StageTransition::SwitchTo(s) && s.wf() && (s matches Stage::Game(
                            g,
                        ) && g.is_initial())
                    } else {
                        r is Continue
                    }
                },
                Stage::Game(g) => {
                    &&& r is Continue
                    &&& (*final(self)) matches Stage::Game(g2) && g2.elapsed_spec() == sat_add_u64(
                        g.elapsed_spec(),
                        elapsed_ms as u64,
                    ) && g2.cursor_spec() == cursor_after(g.cursor_spec(), events@)
                        && g2.scene_spec() == g.scene_spec()
                },
            },
    {
        match self {
            Stage::MainMenu(m) => {
                if m.elapsed_ms > u64::MAX - (elapsed_ms as u64) {
                    m.elapsed_ms = u64::MAX;
                } else {
                    m.elapsed_ms = m.elapsed_ms + (elapsed_ms as u64);
                }
                let mut start = false;
                let n = events.len();
                let mut i: usize = 0;
                while i < n
                    invariant
                        n == events@.len(),
                        0 <= i <= n,
                        start == wants_new_game(events@.take(i as int)),
                    decreases n - i,
                {
                    match &events[i] {
                        Event::KeyDown(code, _ch, _m) => {
                            if *code == CODE_ENTER {
                                start = true;
                            }
                        },
                        _ => (),
                    }
                    proof {
                        let pre = events@.take(i as int);
                        let cur = events@.take(i + 1);
                        assert(cur.drop_last() =~= pre);
                        assert(cur[i as int] == events@[i as int]);
                        if wants_new_game(pre) {
                            let w = choose|w: int|
                                0 <= w < pre.len() && ((#[trigger] pre[w]) matches Event::KeyDown(
                                    code,
                                    _ch,
                                    _m,
                                ) && code == CODE_ENTER);
                            assert(cur[w] == pre[w]);
                            assert(wants_new_game(cur));
                        }
                        if (events@[i as int] matches Event::KeyDown(code, _ch, _m) && code
                            == CODE_ENTER) {
                            assert(wants_new_game(cur));
                        }
                        if wants_new_game(cur) && !wants_new_game(pre) && !(
                        events@[i as int] matches Event::KeyDown(code, _ch, _m) && code
                            == CODE_ENTER) {
                            let w = choose|w: int|
                                0 <= w < cur.len() && ((#[trigger] cur[w]) matches Event::KeyDown(
                                    code,
                                    _ch,
                                    _m,
                                ) && code == CODE_ENTER);
                            assert(w < i ==> pre[w] == cur[w]);
                            assert(false);
                        }
                    }
                    i += 1;
                }
                proof {
                    assert(events@.take(n as int) =~= events@);
                }
                if start {
                    StageTransition::SwitchTo(Stage::Game(Game::new()))
                } else {
                    StageTransition::Continue
                }
            },
            Stage::Game(g) => {
                g.tick(elapsed_ms, events);
                StageTransition::Continue
            },
        }
    }

    /// The frame driver's decision step: tick, then apply the transition —
    /// either stay, or be replaced wholesale by the freshly constructed
    /// stage, atomically.
    pub fn advance_frame(&mut self, elapsed_ms: u32, events: &Vec<Event>)
        requires
            old(self).wf(),
        ensures
            final(self).wf(),
            match *old(self) {
                Stage::MainMenu(m) => {
                    if wants_new_game(events@) {
                        (*final(self)) matches Stage::Game(g) && g.is_initial()
                    } else {
                        (*final(self)) matches Stage::MainMenu(m2) && m2.elapsed_spec()
                            == sat_add_u64(m.elapsed_spec(), elapsed_ms as u64)
                    }
                },
                Stage::Game(g) => {
                    (*final(self)) matches Stage::Game(g2) && g2.elapsed_spec() == sat_add_u64(
                        g.elapsed_spec(),
                        elapsed_ms as u64,
                    ) && g2.cursor_spec() == cursor_after(g.cursor_spec(), events@)
                        && g2.scene_spec() == g.scene_spec()
                },
            },
    {
        let t = self.tick(elapsed_ms, events);
        match t {
            StageTransition::Continue => (),
            StageTransition::SwitchTo(s) => {
                *self = s;
            },
        }
    }
}

} // verus!
