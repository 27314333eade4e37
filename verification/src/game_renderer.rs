//! The active-play compositor: draws the scene into map, bottom-panel and
//! side-panel buffers and merges them into one root buffer of exactly the
//! requested size — map at the origin, bottom panel below it, side panel to
//! its right, never overlapping.

use vstd::prelude::*;

use crate::buffer::Buffer;
use crate::buffer::MAX_BUFFER_DIM;
use crate::scene::Location;
use crate::scene::Rectangle;
use crate::scene::SceneData;
use crate::scene::VisibleObject;
use crate::text::coord_text;
use crate::text::format_coords;
use crate::text::format_game_time;
use crate::text::game_time_text;

verus! {

/// Smallest width the map viewport may have.
pub const MAP_MIN_WIDTH: u32 = 50;

/// Smallest height the map viewport may have.
pub const MAP_MIN_HEIGHT: u32 = 20;

/// Width of the side panel to the right of the map.
pub const SIDE_PANEL_WIDTH: u32 = 20;

/// Height of the bottom panel below the map.
pub const BOTTOM_PANEL_HEIGHT: u32 = 8;

/// How many of the newest log lines the bottom panel prints.
pub const LOG_LINES: usize = 5;

/// Glyph painted across the map before any object is drawn.
pub const MAP_BACKGROUND_GLYPH: u32 = 46;

/// Glyph painted across the panels before any text is printed.
pub const UI_BACKGROUND_GLYPH: u32 = 32;

/// Glyph of the cursor's own marker, always drawn last.
pub const CURSOR_GLYPH: u32 = 88;

/// The glyph a visible object is drawn with.
pub open spec fn glyph_of(o: VisibleObject) -> u32 {
    match o {
        VisibleObject::Soil => 44,
        VisibleObject::Grass => 34,
    }
}

pub fn tile_glyph(o: VisibleObject) -> (r: u32)
    ensures
        r == glyph_of(o),
{
    match o {
        VisibleObject::Soil => 44,
        VisibleObject::Grass => 34,
    }
}

/// The textual listing of a visible object on the side panel.
pub open spec fn obj_label(o: VisibleObject) -> Seq<char> {
    match o {
        VisibleObject::Soil => seq!['S', 'o', 'i', 'l'],
        VisibleObject::Grass => seq!['G', 'r', 'a', 's', 's'],
    }
}

pub fn object_label(o: VisibleObject) -> (r: Vec<char>)
    ensures
        r@ == obj_label(o),
{
    let mut v: Vec<char> = Vec::new();
    match o {
        VisibleObject::Soil => {
            v.push('S');
            v.push('o');
            v.push('i');
            v.push('l');
        },
        VisibleObject::Grass => {
            v.push('G');
            v.push('r');
            v.push('a');
            v.push('s');
            v.push('s');
        },
    }
    proof {
        assert(v@ =~= obj_label(o));
    }
    v
}

/// What the map viewport shows at cell (`x`, `y`) of a `w` by `h` map: the
/// boundary rectangle is centered around the cursor, so the cursor's marker
/// sits at the centre cell, drawn last and never occluded; every other cell
/// shows the topmost object at its world location, or the background glyph.
pub open spec fn map_cell_spec(scene: SceneData, w: int, h: int, x: int, y: int) -> u32 {
    let cx = scene.cursor_spec().x as int;
    let cy = scene.cursor_spec().y as int;
    let wx = cx - w / 2 + x;
    let wy = cy - h / 2 + y;
    if x == w / 2 && y == h / 2 {
        CURSOR_GLYPH
    } else if i32::MIN <= wx <= i32::MAX && i32::MIN <= wy <= i32::MAX && scene.objects_at(
        Location { x: wx as i32, y: wy as i32 },
    ).len() > 0 {
        glyph_of(scene.objects_at(Location { x: wx as i32, y: wy as i32 }).last().0)
    } else {
        MAP_BACKGROUND_GLYPH
    }
}

/// What the bottom panel shows at cell (`x`, `y`): the newest log lines,
/// newest nearest the top, over the panel background.
pub open spec fn bottom_cell_spec(scene: SceneData, x: int, y: int) -> u32 {
    let lg = scene.log_view();
    if 0 <= y < LOG_LINES && y < lg.len() && 0 <= x < lg[lg.len() - 1 - y]@.len() {
        lg[lg.len() - 1 - y]@[x] as u32
    } else {
        UI_BACKGROUND_GLYPH
    }
}

/// What the side panel shows at cell (`x`, `y`): the elapsed time, the
/// cursor's coordinates, and, space permitting, a textual listing of every
/// object at the cursor's location, over the panel background.
pub open spec fn side_cell_spec(scene: SceneData, x: int, y: int) -> u32 {
    let time_t = game_time_text(scene.time_spec());
    let coord_t = coord_text(scene.cursor_spec().x, scene.cursor_spec().y);
    let objs = scene.objects_at(scene.cursor_spec());
    if y == 0 && 0 <= x < time_t.len() {
        time_t[x] as u32
    } else if y == 1 && 0 <= x < coord_t.len() {
        coord_t[x] as u32
    } else if 2 <= y && y - 2 < objs.len() && 0 <= x < obj_label(objs[y - 2].0).len() {
        obj_label(objs[y - 2].0)[x] as u32
    } else {
        UI_BACKGROUND_GLYPH
    }
}

/// One root cell of the composed frame: the map at the origin, the bottom
/// panel below the map across the full width, the side panel to the map's
/// right.
pub open spec fn composed_cell(map: Buffer, bottom: Buffer, side: Buffer, x: int, y: int) -> u32 {
    if x < map.w() && y < map.h() {
        map.cell(x, y)
    } else if y >= map.h() {
        bottom.cell(x, y - map.h())
    } else {
        side.cell(x - map.w(), y)
    }
}

/// The active-play renderer: three panel buffers and the root buffer they
/// are composed into, all exclusively owned, reused frame after frame.
pub struct GameRenderer {
    bottom_panel: Buffer,
    map: Buffer,
    root: Buffer,
    side_panel: Buffer,
}

impl GameRenderer {
    /// The panels tile the root exactly: map and side panel side by side on
    /// top, the bottom panel across the full width below, the map viewport
    /// no smaller than its configured minimum.
    pub closed spec fn wf(&self) -> bool {
        &&& self.root.wf() && self.map.wf() && self.bottom_panel.wf() && self.side_panel.wf()
        &&& self.map.w() >= MAP_MIN_WIDTH
        &&& self.map.h() >= MAP_MIN_HEIGHT
        &&& self.root.w() == self.map.w() + SIDE_PANEL_WIDTH
        &&& self.root.h() == self.map.h() + BOTTOM_PANEL_HEIGHT
        &&& self.bottom_panel.w() == self.root.w()
        &&& self.bottom_panel.h() == BOTTOM_PANEL_HEIGHT
        &&& self.side_panel.w() == SIDE_PANEL_WIDTH
        &&& self.side_panel.h() == self.map.h()
    }

    pub closed spec fn root_spec(&self) -> Buffer {
        self.root
    }

    pub closed spec fn map_spec(&self) -> Buffer {
        self.map
    }

    pub closed spec fn bottom_panel_spec(&self) -> Buffer {
        self.bottom_panel
    }

    pub closed spec fn side_panel_spec(&self) -> Buffer {
        self.side_panel
    }

    /// The map viewport for a requested total size: the width less the side
    /// panel and the height less the bottom panel, provided both respect the
    /// configured minimum map size; any smaller request fails.
    pub fn calculate_map_viewport_size(requested_size: (u32, u32)) -> (r: Option<(u32, u32)>)
        ensures
            r is Some <==> requested_size.0 >= MAP_MIN_WIDTH + SIDE_PANEL_WIDTH
                && requested_size.1 >= MAP_MIN_HEIGHT + BOTTOM_PANEL_HEIGHT,
            r matches Some(d) ==> d.0 == requested_size.0 - SIDE_PANEL_WIDTH && d.1
                == requested_size.1 - BOTTOM_PANEL_HEIGHT,
    {
        let (req_w, req_h) = requested_size;
        if req_w >= MAP_MIN_WIDTH + SIDE_PANEL_WIDTH && req_h >= MAP_MIN_HEIGHT
            + BOTTOM_PANEL_HEIGHT {
            Some((req_w - SIDE_PANEL_WIDTH, req_h - BOTTOM_PANEL_HEIGHT))
        } else {
            None
        }
    }

    /// A renderer for the requested total size, which must accommodate the
    /// minimum map viewport beside and above the panels — a smaller request
    /// is a configuration error surfaced before any renderer exists.
    pub fn new(width: u32, height: u32) -> (r: GameRenderer)
        requires
            width >= MAP_MIN_WIDTH + SIDE_PANEL_WIDTH,
            height >= MAP_MIN_HEIGHT + BOTTOM_PANEL_HEIGHT,
            width <= MAX_BUFFER_DIM,
            height <= MAX_BUFFER_DIM,
        ensures
            r.wf(),
            r.root_spec().w() == width,
            r.root_spec().h() == height,
            r.map_spec().w() == width - SIDE_PANEL_WIDTH,
            r.map_spec().h() == height - BOTTOM_PANEL_HEIGHT,
            r.bottom_panel_spec().w() == width,
            r.bottom_panel_spec().h() == BOTTOM_PANEL_HEIGHT,
            r.side_panel_spec().w() == SIDE_PANEL_WIDTH,
            r.side_panel_spec().h() == height - BOTTOM_PANEL_HEIGHT,
    {
        let root = Buffer::new(width, height, UI_BACKGROUND_GLYPH);
        let (map_w, map_h) = match Self::calculate_map_viewport_size((width, height)) {
            Some(d) => d,
            None => {
                proof {
                    assert(false);
                }
                (0, 0)
            },
        };
        let map = Buffer::new(map_w, map_h, MAP_BACKGROUND_GLYPH);
        let bottom_panel = Buffer::new(width, height - map_h, UI_BACKGROUND_GLYPH);
        let side_panel = Buffer::new(width - map_w, map_h, UI_BACKGROUND_GLYPH);
        GameRenderer { bottom_panel, map, root, side_panel }
    }

    /// The composed frame.
    pub fn borrow_root(&self) -> (r: &Buffer)
        ensures
            r == self.root_spec(),
    {
        &self.root
    }

    /// Draw the map viewport: its boundary rectangle centered around the
    /// cursor, the topmost object of each location in view, the cursor's
    /// marker last.
    fn draw_map(&mut self, scene: &SceneData)
        requires
            old(self).wf(),
        ensures
            final(self).wf(),
            final(self).root == old(self).root,
            final(self).bottom_panel == old(self).bottom_panel,
            final(self).side_panel == old(self).side_panel,
            final(self).map.w() == old(self).map.w(),
            final(self).map.h() == old(self).map.h(),
            forall|a: int, b: int|
                0 <= a < old(self).map.w() && 0 <= b < old(self).map.h() ==> final(self).map.cell(
                    a,
                    b,
                ) == map_cell_spec(*scene, old(self).map.w(), old(self).map.h(), a, b),
    {
        let mw = self.map.width();
        let mh = self.map.height();
        let cursor = scene.cursor_location();
        proof {
            self.map.lemma_wf_bounds();
        }
        let rect = Rectangle::centered_around(cursor, mw, mh);
        let mut y: u32 = 0;
        while y < mh
            invariant
                self.wf(),
                self.root == old(self).root,
                self.bottom_panel == old(self).bottom_panel,
                self.side_panel == old(self).side_panel,
                mw == self.map.w(),
                mh == self.map.h(),
                mw == old(self).map.w(),
                mh == old(self).map.h(),
                0 <= y <= mh,
                cursor == scene.cursor_spec(),
                rect.min_x == cursor.x - mw / 2,
                rect.min_y == cursor.y - mh / 2,
                forall|a: int, b: int|
                    0 <= a < mw && 0 <= b < y ==> self.map.cell(a, b) == map_cell_spec(
                        *scene,
                        mw as int,
                        mh as int,
                        a,
                        b,
                    ),
            decreases mh - y,
        {
            let mut x: u32 = 0;
            while x < mw
                invariant
                    self.wf(),
                    self.root == old(self).root,
                    self.bottom_panel == old(self).bottom_panel,
                    self.side_panel == old(self).side_panel,
                    mw == self.map.w(),
                    mh == self.map.h(),
                    0 <= x <= mw,
                    y < mh,
                    cursor == scene.cursor_spec(),
                    rect.min_x == cursor.x - mw / 2,
                    rect.min_y == cursor.y - mh / 2,
                    forall|a: int, b: int|
                        0 <= a < mw && 0 <= b < y ==> self.map.cell(a, b) == map_cell_spec(
                            *scene,
                            mw as int,
                            mh as int,
                            a,
                            b,
                        ),
                    forall|a: int|
                        0 <= a < x ==> self.map.cell(a, y as int) == map_cell_spec(
                            *scene,
                            mw as int,
                            mh as int,
                            a,
                            y as int,
                        ),
                decreases mw - x,
            {
                let glyph: u32 = if x == mw / 2 && y == mh / 2 {
                    CURSOR_GLYPH
                } else {
                    let wx: i64 = rect.min_x + (x as i64);
                    let wy: i64 = rect.min_y + (y as i64);
                    if wx >= (i32::MIN as i64) && wx <= (i32::MAX as i64) && wy >= (
                    i32::MIN as i64) && wy <= (i32::MAX as i64) {
                        match scene.top_object_at(&Location { x: wx as i32, y: wy as i32 }) {
                            Some(o) => tile_glyph(o),
                            None => MAP_BACKGROUND_GLYPH,
                        }
                    } else {
                        MAP_BACKGROUND_GLYPH
                    }
                };
                proof {
                    assert(glyph == map_cell_spec(*scene, mw as int, mh as int, x as int, y as int));
                }
                self.map.put(x, y, glyph);
                x += 1;
            }
            y += 1;
        }
    }

    /// Draw the bottom panel: the newest log lines over the background,
    /// newest nearest the top.
    fn draw_bottom(&mut self, scene: &SceneData)
        requires
            old(self).wf(),
        ensures
            final(self).wf(),
            final(self).root == old(self).root,
            final(self).map == old(self).map,
            final(self).side_panel == old(self).side_panel,
            final(self).bottom_panel.w() == old(self).bottom_panel.w(),
            final(self).bottom_panel.h() == old(self).bottom_panel.h(),
            forall|a: int, b: int|
                0 <= a < old(self).bottom_panel.w() && 0 <= b < old(self).bottom_panel.h() ==> final(self).bottom_panel.cell(a, b) == bottom_cell_spec(*scene, a, b),
    {
        self.bottom_panel.fill(UI_BACKGROUND_GLYPH);
        let total = scene.log_len();
        let count = if total < LOG_LINES {
            total
        } else {
            LOG_LINES
        };
        let mut row: usize = 0;
        while row < count
            invariant
                self.wf(),
                self.root == old(self).root,
                self.map == old(self).map,
                self.side_panel == old(self).side_panel,
                self.bottom_panel.w() == old(self).bottom_panel.w(),
                self.bottom_panel.h() == old(self).bottom_panel.h(),
                total == scene.log_view().len(),
                count <= total,
                count <= LOG_LINES,
                count == if total < LOG_LINES { total as int } else { LOG_LINES as int },
                0 <= row <= count,
                forall|a: int, b: int|
                    0 <= a < self.bottom_panel.w() && 0 <= b < self.bottom_panel.h() && b < row
                        ==> self.bottom_panel.cell(a, b) == bottom_cell_spec(*scene, a, b),
                forall|a: int, b: int|
                    0 <= a < self.bottom_panel.w() && 0 <= b < self.bottom_panel.h() && b >= row
                        ==> self.bottom_panel.cell(a, b) == UI_BACKGROUND_GLYPH,
            decreases count - row,
        {
            let e = scene.log_entry(total - 1 - row);
            self.bottom_panel.print_text(0, row as u32, e.contents());
            proof {
                assert forall|a: int, b: int|
                    0 <= a < self.bottom_panel.w() && 0 <= b < self.bottom_panel.h() && b < row
                        + 1 implies self.bottom_panel.cell(a, b) == bottom_cell_spec(
                    *scene,
                    a,
                    b,
                ) by {}
            }
            row += 1;
        }
        proof {
            assert forall|a: int, b: int|
                0 <= a < self.bottom_panel.w() && 0 <= b < self.bottom_panel.h() implies self.bottom_panel.cell(
                a,
                b,
            ) == bottom_cell_spec(*scene, a, b) by {}
        }
    }

    /// Draw the side panel: the elapsed time, the cursor's coordinates and,
    /// space permitting, the objects at the cursor's location, over the
    /// background.
    fn draw_side(&mut self, scene: &SceneData)
        requires
            old(self).wf(),
        ensures
            final(self).wf(),
            final(self).root == old(self).root,
            final(self).map == old(self).map,
            final(self).bottom_panel == old(self).bottom_panel,
            final(self).side_panel.w() == old(self).side_panel.w(),
            final(self).side_panel.h() == old(self).side_panel.h(),
            forall|a: int, b: int|
                0 <= a < old(self).side_panel.w() && 0 <= b < old(self).side_panel.h() ==> final(self).side_panel.cell(a, b) == side_cell_spec(*scene, a, b),
    {
        self.side_panel.fill(UI_BACKGROUND_GLYPH);
        let cursor = scene.cursor_location();
        let time_text = format_game_time(scene.t_millis());
        self.side_panel.print_text(0, 0, &time_text);
        let coords = format_coords(cursor.x, cursor.y);
        self.side_panel.print_text(0, 1, &coords);
        let objs = scene.get_objects_for_location(&cursor);
        let sh = self.side_panel.height();
        let n = objs.len();
        let ghost pairs = scene.objects_at(scene.cursor_spec());
        let mut i: usize = 0;
        while i < n && i < (sh as usize) - 2
            invariant
                self.wf(),
                self.root == old(self).root,
                self.map == old(self).map,
                self.bottom_panel == old(self).bottom_panel,
                self.side_panel.w() == old(self).side_panel.w(),
                self.side_panel.h() == old(self).side_panel.h(),
                sh == self.side_panel.h(),
                sh >= MAP_MIN_HEIGHT,
                n == objs@.len(),
                0 <= i <= n,
                cursor == scene.cursor_spec(),
                objs@ == pairs.map_values(|p: (VisibleObject, i32)| p.0),
                pairs == scene.objects_at(scene.cursor_spec()),
                forall|a: int, b: int|
                    0 <= a < self.side_panel.w() && 0 <= b < self.side_panel.h() && b < 2 + i
                        ==> self.side_panel.cell(a, b) == side_cell_spec(*scene, a, b),
                forall|a: int, b: int|
                    0 <= a < self.side_panel.w() && 0 <= b < self.side_panel.h() && b >= 2 + i
                        ==> self.side_panel.cell(a, b) == (
                    if b == 0 || b == 1 {
                        side_cell_spec(*scene, a, b)
                    } else {
                        UI_BACKGROUND_GLYPH
                    }),
            decreases n - i,
        {
            let label = object_label(objs[i]);
            proof {
                assert(objs@[i as int] == pairs[i as int].0);
            }
            self.side_panel.print_text(0, (2 + i) as u32, &label);
            i += 1;
        }
        proof {
            assert forall|a: int, b: int|
                0 <= a < self.side_panel.w() && 0 <= b < self.side_panel.h() implies self.side_panel.cell(
                a,
                b,
            ) == side_cell_spec(*scene, a, b) by {
                if b >= 2 + i {
                    assert(i == n || 2 + i >= sh);
                    assert(b - 2 >= pairs.len() || b >= sh);
                }
            }
        }
    }

    /// Compose the three panels into the root buffer, in a fixed order: map
    /// at the origin, bottom panel below the map, side panel to its right.
    pub fn blit(&mut self)
        requires
            old(self).wf(),
        ensures
            final(self).wf(),
            final(self).map_spec() == old(self).map_spec(),
            final(self).bottom_panel_spec() == old(self).bottom_panel_spec(),
            final(self).side_panel_spec() == old(self).side_panel_spec(),
            final(self).root_spec().w() == old(self).root_spec().w(),
            final(self).root_spec().h() == old(self).root_spec().h(),
            forall|a: int, b: int|
                0 <= a < old(self).root_spec().w() && 0 <= b < old(self).root_spec().h()
                    ==> final(self).root_spec().cell(a, b) == composed_cell(
                    old(self).map_spec(),
                    old(self).bottom_panel_spec(),
                    old(self).side_panel_spec(),
                    a,
                    b,
                ),
    {
        let mw = self.map.width();
        let mh = self.map.height();
        self.root.blit_from(&self.map, 0, 0);
        self.root.blit_from(&self.bottom_panel, 0, mh);
        self.root.blit_from(&self.side_panel, mw, 0);
        proof {
            assert forall|a: int, b: int|
                0 <= a < old(self).root.w() && 0 <= b < old(self).root.h() implies self.root.cell(
                a,
                b,
            ) == composed_cell(old(self).map, old(self).bottom_panel, old(self).side_panel, a, b)
                by {}
        }
    }

    /// Render one frame from the scene: draw the three panels, then compose
    /// them into the root buffer. Every root cell afterwards equals the
    /// composition of the panel contents the scene prescribes.
    pub fn update(&mut self, scene: &SceneData)
        requires
            old(self).wf(),
        ensures
            final(self).wf(),
            final(self).root_spec().w() == old(self).root_spec().w(),
            final(self).root_spec().h() == old(self).root_spec().h(),
            final(self).map_spec().w() == old(self).map_spec().w(),
            final(self).map_spec().h() == old(self).map_spec().h(),
            final(self).bottom_panel_spec().w() == old(self).bottom_panel_spec().w(),
            final(self).bottom_panel_spec().h() == old(self).bottom_panel_spec().h(),
            final(self).side_panel_spec().w() == old(self).side_panel_spec().w(),
            final(self).side_panel_spec().h() == old(self).side_panel_spec().h(),
            forall|a: int, b: int|
                0 <= a < old(self).map_spec().w() && 0 <= b < old(self).map_spec().h() ==> final(self).map_spec().cell(a, b) == map_cell_spec(
                    *scene,
                    old(self).map_spec().w(),
                    old(self).map_spec().h(),
                    a,
                    b,
                ),
            forall|a: int, b: int|
                0 <= a < old(self).bottom_panel_spec().w() && 0 <= b < old(self).bottom_panel_spec().h() ==> final(self).bottom_panel_spec().cell(a, b)
                    == bottom_cell_spec(*scene, a, b),
            forall|a: int, b: int|
                0 <= a < old(self).side_panel_spec().w() && 0 <= b < old(self).side_panel_spec().h() ==> final(self).side_panel_spec().cell(a, b)
                    == side_cell_spec(*scene, a, b),
            forall|a: int, b: int|
                0 <= a < old(self).root_spec().w() && 0 <= b < old(self).root_spec().h() ==> final(self).root_spec().cell(a, b) == composed_cell(
                    final(self).map_spec(),
                    final(self).bottom_panel_spec(),
                    final(self).side_panel_spec(),
                    a,
                    b,
                ),
    {
        self.draw_map(scene);
        self.draw_bottom(scene);
        self.draw_side(scene);
        self.blit();
    }
}

/// The composed frame partitions the root exactly: map and side-panel widths
/// sum to the root's width, map and bottom-panel heights to its height, and
/// every root cell lies in exactly one of the three panel regions.
pub proof fn lemma_composition_partition(g: GameRenderer, x: int, y: int)
    requires
        g.wf(),
        0 <= x < g.root_spec().w(),
        0 <= y < g.root_spec().h(),
    ensures
        g.map_spec().w() + g.side_panel_spec().w() == g.root_spec().w(),
        g.map_spec().h() + g.bottom_panel_spec().h() == g.root_spec().h(),
        g.bottom_panel_spec().w() == g.root_spec().w(),
        g.bottom_panel_spec().h() == BOTTOM_PANEL_HEIGHT,
        g.side_panel_spec().w() == SIDE_PANEL_WIDTH,
        g.side_panel_spec().h() == g.map_spec().h(),
        ({
            let in_map = x < g.map_spec().w() && y < g.map_spec().h();
            let in_bottom = y >= g.map_spec().h();
            let in_side = x >= g.map_spec().w() && y < g.map_spec().h();
            (in_map && !in_bottom && !in_side) || (!in_map && in_bottom && !in_side) || (!in_map
                && !in_bottom && in_side)
        }),
{
}

} // verus!
