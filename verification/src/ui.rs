//! The user-interface layer: a renderer cache keyed by the stage's
//! structural discriminant. A renderer is constructed the first time a
//! variant is entered and whenever the variant changes, and is otherwise
//! reused unchanged frame after frame — switching stage variants is the only
//! event that tears rendering state down.

use vstd::prelude::*;

use crate::buffer::Buffer;
use crate::buffer::MAX_BUFFER_DIM;
use crate::game_renderer::BOTTOM_PANEL_HEIGHT;
use crate::game_renderer::GameRenderer;
use crate::game_renderer::MAP_MIN_HEIGHT;
use crate::game_renderer::MAP_MIN_WIDTH;
use crate::game_renderer::SIDE_PANEL_WIDTH;
use crate::game_renderer::UI_BACKGROUND_GLYPH;
use crate::game_renderer::bottom_cell_spec;
use crate::game_renderer::composed_cell;
use crate::game_renderer::map_cell_spec;
use crate::game_renderer::side_cell_spec;
use crate::scene::SceneData;
use crate::stage::MainMenu;
use crate::stage::Stage;
use crate::stage::StageKind;

verus! {

/// The text the main menu shows.
pub open spec fn menu_title_text() -> Seq<char> {
    seq!['N', 'e', 'w', ' ', 'G', 'a', 'm', 'e']
}

fn menu_title() -> (r: Vec<char>)
    ensures
        r@ == menu_title_text(),
{
    let mut v: Vec<char> = Vec::new();
    v.push('N');
    v.push('e');
    v.push('w');
    v.push(' ');
    v.push('G');
    v.push('a');
    v.push('m');
    v.push('e');
    proof {
        assert(v@ =~= menu_title_text());
    }
    v
}

/// What the menu buffer shows at cell (`x`, `y`): the title centered on the
/// middle row, over the background.
pub open spec fn menu_cell_spec(w: int, h: int, x: int, y: int) -> u32 {
    let t = menu_title_text();
    let x0: int = if t.len() <= w {
        (w - t.len()) / 2
    } else {
        0
    };
    if y == h / 2 && x0 <= x < x0 + t.len() {
        t[x - x0] as u32
    } else {
        UI_BACKGROUND_GLYPH
    }
}

/// The main-menu renderer: one buffer of static, centered text; it owns no
/// multi-buffer layout.
pub struct MainMenuRenderer {
    buffer: Buffer,
}

impl MainMenuRenderer {
    pub closed spec fn buffer_spec(&self) -> Buffer {
        self.buffer
    }

    pub closed spec fn wf(&self) -> bool {
        self.buffer.wf()
    }

    pub fn new(width: u32, height: u32) -> (r: MainMenuRenderer)
        requires
            0 < width <= MAX_BUFFER_DIM,
            0 < height <= MAX_BUFFER_DIM,
        ensures
            r.wf(),
            r.buffer_spec().w() == width,
            r.buffer_spec().h() == height,
            r.buffer_spec().filled_with(UI_BACKGROUND_GLYPH),
    {
        MainMenuRenderer { buffer: Buffer::new(width, height, UI_BACKGROUND_GLYPH) }
    }

    /// Redraw the menu: the title centered on the middle row over the
    /// background.
    pub fn update(&mut self, _menu: &MainMenu)
        requires
            old(self).wf(),
        ensures
            final(self).wf(),
            final(self).buffer_spec().w() == old(self).buffer_spec().w(),
            final(self).buffer_spec().h() == old(self).buffer_spec().h(),
            forall|a: int, b: int|
                0 <= a < old(self).buffer_spec().w() && 0 <= b < old(self).buffer_spec().h()
                    ==> final(self).buffer_spec().cell(a, b) == menu_cell_spec(
                    old(self).buffer_spec().w(),
                    old(self).buffer_spec().h(),
                    a,
                    b,
                ),
    {
        self.buffer.fill(UI_BACKGROUND_GLYPH);
        proof {
            self.buffer.lemma_wf_bounds();
        }
        let title = menu_title();
        let w = self.buffer.width();
        let h = self.buffer.height();
        let x0: u32 = if title.len() <= (w as usize) {
            ((w as usize - title.len()) / 2) as u32
        } else {
            0
        };
        self.buffer.print_text(x0, h / 2, &title);
    }

    /// The menu's composed frame.
    pub fn borrow_buffer(&self) -> (r: &Buffer)
        ensures
            r == self.buffer_spec(),
    {
        &self.buffer
    }
}

/// A mode-specific renderer, one variant per stage variant, mirroring the
/// stage's structure without depending on its payload.
pub enum Renderer {
    Game(GameRenderer),
    MainMenu(MainMenuRenderer),
}

impl Renderer {
    /// The stage variant this renderer draws.
    pub open spec fn kind_of(&self) -> StageKind {
        match self {
            Renderer::Game(_) => StageKind::Game,
            Renderer::MainMenu(_) => StageKind::MainMenu,
        }
    }
}

/// Whether the cache must construct a new renderer for a frame of kind `k`:
/// only when no renderer exists yet or the cached discriminant differs.
pub open spec fn needs_rebuild(cached: Option<StageKind>, k: StageKind) -> bool {
    match cached {
        None => true,
        Some(c) => c != k,
    }
}

/// User-interface state: the frame size and the cached renderer, paired with
/// the discriminant of the stage variant it was built for.
pub struct UI {
    width: u32,
    height: u32,
    renderer: Option<(StageKind, Renderer)>,
    rebuilds: Ghost<int>,
}

impl UI {
    pub closed spec fn width_spec(&self) -> u32 {
        self.width
    }

    pub closed spec fn height_spec(&self) -> u32 {
        self.height
    }

    pub closed spec fn renderer_view(&self) -> Option<(StageKind, Renderer)> {
        self.renderer
    }

    /// The discriminant of the stage variant the cached renderer was built
    /// for, if one exists.
    pub open spec fn cached_kind(&self) -> Option<StageKind> {
        match self.renderer_view() {
            Some((k, _)) => Some(k),
            None => None,
        }
    }

    /// How many renderers have been constructed so far.
    pub closed spec fn rebuilds_spec(&self) -> int {
        self.rebuilds@
    }

    /// The frame size accommodates the minimum map viewport beside and above
    /// the panels, and the cached renderer, if any, matches its discriminant
    /// and the frame size.
    pub closed spec fn wf(&self) -> bool {
        &&& MAP_MIN_WIDTH + SIDE_PANEL_WIDTH <= self.width <= MAX_BUFFER_DIM
        &&& MAP_MIN_HEIGHT + BOTTOM_PANEL_HEIGHT <= self.height <= MAX_BUFFER_DIM
        &&& match self.renderer {
            None => true,
            Some((k, r)) => r.kind_of() == k && match r {
                Renderer::Game(g) => g.wf() && g.root_spec().w() == self.width
                    && g.root_spec().h() == self.height,
                Renderer::MainMenu(m) => m.wf() && m.buffer_spec().w() == self.width
                    && m.buffer_spec().h() == self.height,
            },
        }
    }

    /// A user interface for the requested frame size, which must accommodate
    /// the minimum map viewport beside and above the panels. No renderer
    /// exists until the first frame is drawn.
    pub fn new(width: u32, height: u32) -> (r: UI)
        requires
            width >= MAP_MIN_WIDTH + SIDE_PANEL_WIDTH,
            height >= MAP_MIN_HEIGHT + BOTTOM_PANEL_HEIGHT,
            width <= MAX_BUFFER_DIM,
            height <= MAX_BUFFER_DIM,
        ensures
            r.wf(),
            r.width_spec() == width,
            r.height_spec() == height,
            r.cached_kind() is None,
            r.rebuilds_spec() == 0,
    {
        UI { width, height, renderer: None, rebuilds: Ghost(0int) }
    }

    /// A user interface for the requested frame size, or nothing exactly
    /// when the size cannot accommodate the minimum map viewport beside and
    /// above the panels — the configuration error is surfaced before any
    /// rendering state exists.
    pub fn try_new(width: u32, height: u32) -> (r: Option<UI>)
        ensures
            r is Some <==> width >= MAP_MIN_WIDTH + SIDE_PANEL_WIDTH && height >= MAP_MIN_HEIGHT
                + BOTTOM_PANEL_HEIGHT && width <= MAX_BUFFER_DIM && height <= MAX_BUFFER_DIM,
            r matches Some(u) ==> u.wf() && u.width_spec() == width && u.height_spec() == height
                && u.cached_kind() is None && u.rebuilds_spec() == 0,
    {
        if width >= MAP_MIN_WIDTH + SIDE_PANEL_WIDTH && height >= MAP_MIN_HEIGHT
            + BOTTOM_PANEL_HEIGHT && width <= MAX_BUFFER_DIM && height <= MAX_BUFFER_DIM {
            Some(UI::new(width, height))
        } else {
            None
        }
    }

    /// Whether drawing `stage` requires a new renderer: no renderer yet, or
    /// the cached discriminant differs from the stage's.
    pub fn is_stage_changed(&self, stage: &Stage) -> (r: bool)
        ensures
            r == needs_rebuild(self.cached_kind(), stage.kind_spec()),
    {
        match &self.renderer {
            Some((d, _)) => *d != stage.kind(),
            None => true,
        }
    }

    /// Render the frame for the current stage. A new renderer is constructed
    /// exactly when the stage's variant differs from the cached discriminant
    /// (or none exists yet); otherwise the cached renderer and its buffers
    /// are reused. The composed frame afterwards shows the stage's content.
    pub fn draw(&mut self, stage: &Stage)
        requires
            old(self).wf(),
            stage.wf(),
        ensures
            final(self).wf(),
            final(self).width_spec() == old(self).width_spec(),
            final(self).height_spec() == old(self).height_spec(),
            final(self).cached_kind() == Some(stage.kind_spec()),
            final(self).rebuilds_spec() == old(self).rebuilds_spec() + (
            if needs_rebuild(old(self).cached_kind(), stage.kind_spec()) {
                1int
            } else {
                0int
            }),
            (*stage matches Stage::Game(g) ==> shows_game_frame(*final(self), g.scene_spec())),
            (*stage is MainMenu ==> shows_menu_frame(*final(self))),
    {
        if self.is_stage_changed(stage) {
            let renderer = match stage {
                Stage::Game(_) => Renderer::Game(GameRenderer::new(self.width, self.height)),
                Stage::MainMenu(_) => Renderer::MainMenu(
                    MainMenuRenderer::new(self.width, self.height),
                ),
            };
            let k = stage.kind();
            self.renderer = Some((k, renderer));
            proof {
                self.rebuilds@ = self.rebuilds@ + 1;
            }
        }
        match stage {
            Stage::Game(g) => {
                let entry = self.renderer.take();
                match entry {
                    Some((k, Renderer::Game(mut gr))) => {
                        gr.update(g.scene());
                        self.renderer = Some((k, Renderer::Game(gr)));
                    },
                    _ => {
                        proof {
                            assert(false);
                        }
                    },
                }
            },
            Stage::MainMenu(m) => {
                let entry = self.renderer.take();
                match entry {
                    Some((k, Renderer::MainMenu(mut mr))) => {
                        mr.update(m);
                        self.renderer = Some((k, Renderer::MainMenu(mr)));
                    },
                    _ => {
                        proof {
                            assert(false);
                        }
                    },
                }
            },
        }
    }

    /// The composed frame of the cached renderer, for presentation.
    pub fn current_root(&self) -> (r: Option<&Buffer>)
        ensures
            r is Some <==> self.renderer_view() is Some,
            r matches Some(b) ==> match self.renderer_view() {
                Some((_, Renderer::Game(g))) => *b == g.root_spec(),
                Some((_, Renderer::MainMenu(m))) => *b == m.buffer_spec(),
                None => false,
            },
    {
        match &self.renderer {
            Some((_, Renderer::Game(gr))) => Some(gr.borrow_root()),
            Some((_, Renderer::MainMenu(mr))) => Some(mr.borrow_buffer()),
            None => None,
        }
    }
}

/// The user interface holds a play renderer whose panels and composed root
/// show exactly what `scene` prescribes.
pub open spec fn shows_game_frame(u: UI, scene: SceneData) -> bool {
    match u.renderer_view() {
        Some((k, Renderer::Game(g))) => {
            &&& k == StageKind::Game
            &&& g.wf()
            &&& g.root_spec().w() == u.width_spec()
            &&& g.root_spec().h() == u.height_spec()
            &&& forall|a: int, b: int|
                0 <= a < g.map_spec().w() && 0 <= b < g.map_spec().h() ==> g.map_spec().cell(a, b)
                    == map_cell_spec(scene, g.map_spec().w(), g.map_spec().h(), a, b)
            &&& forall|a: int, b: int|
                0 <= a < g.bottom_panel_spec().w() && 0 <= b < g.bottom_panel_spec().h()
                    ==> g.bottom_panel_spec().cell(a, b) == bottom_cell_spec(scene, a, b)
            &&& forall|a: int, b: int|
                0 <= a < g.side_panel_spec().w() && 0 <= b < g.side_panel_spec().h()
                    ==> g.side_panel_spec().cell(a, b) == side_cell_spec(scene, a, b)
            &&& forall|a: int, b: int|
                0 <= a < g.root_spec().w() && 0 <= b < g.root_spec().h() ==> g.root_spec().cell(
                    a,
                    b,
                ) == composed_cell(
                    g.map_spec(),
                    g.bottom_panel_spec(),
                    g.side_panel_spec(),
                    a,
                    b,
                )
        },
        _ => false,
    }
}

/// The user interface holds a menu renderer whose buffer shows the menu.
pub open spec fn shows_menu_frame(u: UI) -> bool {
    match u.renderer_view() {
        Some((k, Renderer::MainMenu(m))) => {
            &&& k == StageKind::MainMenu
            &&& m.wf()
            &&& m.buffer_spec().w() == u.width_spec()
            &&& m.buffer_spec().h() == u.height_spec()
            &&& forall|a: int, b: int|
                0 <= a < m.buffer_spec().w() && 0 <= b < m.buffer_spec().h()
                    ==> m.buffer_spec().cell(a, b) == menu_cell_spec(
                    m.buffer_spec().w(),
                    m.buffer_spec().h(),
                    a,
                    b,
                )
        },
        _ => false,
    }
}

/// Renderer-cache identity: a cached renderer for the frame's own variant is
/// never rebuilt; a frame of a different variant than the cached one forces
/// exactly one rebuild, after which further frames of that variant force
/// none.
pub proof fn lemma_renderer_cache_identity(cached: Option<StageKind>, k: StageKind, k2: StageKind)
    ensures
        !needs_rebuild(Some(k), k),
        needs_rebuild(cached, k) <==> cached != Some(k),
        k2 != k ==> needs_rebuild(Some(k2), k),
{
}

} // verus!
