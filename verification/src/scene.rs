//! The animated scene: five influence sources on elliptical paths, a
//! timer-cycled render style, and the per-frame sampling and glyph
//! mapping that turn the field into one text frame.
use vstd::prelude::*;

verus! {

use vstd::pervasive::VecAdditionalExecFns;
use crate::FIELD_LIMIT_MILLI;
use crate::FIELD_THRESHOLD_MILLI;
use crate::GRID_HEIGHT;
use crate::GRID_WIDTH;
use crate::MAX_SOURCE_COUNT;
use crate::STYLE_DWELL_MILLI;
use crate::SUBPIXEL_OFFSET_MILLI;
use crate::TIME_LIMIT_MILLI;
use crate::field::Blob;
use crate::field::all_wf;
use crate::field::field_at;
use crate::field::field_spec;
use crate::field::in_query_range;
use crate::glyph::blocks_glyph;
use crate::glyph::blocks_glyph_spec;
use crate::glyph::contour_glyph;
use crate::glyph::contour_glyph_spec;
use crate::glyph::gooey_glyph;
use crate::glyph::gooey_glyph_spec;
use crate::glyph::gradient_glyph;
use crate::glyph::gradient_glyph_spec;
use crate::glyph::solid_glyph;
use crate::glyph::solid_glyph_spec;
use crate::motion::MotionProfile;
use crate::motion::position_at;
use crate::motion::position_x_spec;
use crate::motion::position_y_spec;
use crate::style::RenderMode;
use crate::style::style_step;

/// The scene: sources, their motion profiles, simulated time, and the
/// active render style with its timer.
pub struct MetaballScene {
    /// The influence sources, repositioned on every advance.
    pub blobs: Vec<Blob>,
    /// One motion profile per source, fixed at construction.
    pub profiles: Vec<MotionProfile>,
    /// Total simulated time, milliseconds.
    pub time_milli: i64,
    /// The active render style.
    pub mode: RenderMode,
    /// Simulated time since the last style change, milliseconds.
    pub mode_timer_milli: i64,
}

/// The five sources of the standard scene, all starting at the origin:
/// one larger center source and four smaller ones.
pub open spec fn default_blobs() -> Seq<Blob> {
    seq![
        (Blob { x: 0, y: 0, radius: 4000 }),
        (Blob { x: 0, y: 0, radius: 3000 }),
        (Blob { x: 0, y: 0, radius: 3500 }),
        (Blob { x: 0, y: 0, radius: 2500 }),
        (Blob { x: 0, y: 0, radius: 3200 }),
    ]
}

/// The five standard motion profiles. The first source wobbles near the
/// center (slow, small radii, distinct frequencies per axis); the other
/// four orbit at frequencies 1.2, 0.8, 1.5 and 0.6 with phase offsets of
/// zero, a quarter, a half and three quarters of a turn, each with its
/// own elliptical radii.
pub open spec fn default_profiles() -> Seq<MotionProfile> {
    seq![
        (MotionProfile {
            freq_x: 500,
            phase_x: 4713,
            radius_x: 8000,
            freq_y: 700,
            phase_y: 1571,
            radius_y: 4000,
        }),
        (MotionProfile {
            freq_x: 1200,
            phase_x: 0,
            radius_x: 20000,
            freq_y: 1200,
            phase_y: 0,
            radius_y: 10000,
        }),
        (MotionProfile {
            freq_x: 800,
            phase_x: 1571,
            radius_x: 25000,
            freq_y: 800,
            phase_y: 1571,
            radius_y: 11000,
        }),
        (MotionProfile {
            freq_x: 1500,
            phase_x: 3142,
            radius_x: 18000,
            freq_y: 1500,
            phase_y: 3142,
            radius_y: 8000,
        }),
        (MotionProfile {
            freq_x: 600,
            phase_x: 4713,
            radius_x: 28000,
            freq_y: 600,
            phase_y: 4713,
            radius_y: 12000,
        }),
    ]
}

/// Field value at a grid corner, in milli units.
pub open spec fn corner_field(bs: Seq<Blob>, row: int, col: int) -> int {
    field_spec(bs, col * 1000, row * 1000)
}

/// Whether a grid corner lies inside the surface: its field reaches the
/// threshold.
pub open spec fn inside_spec(bs: Seq<Blob>, row: int, col: int) -> bool {
    corner_field(bs, row, col) >= FIELD_THRESHOLD_MILLI
}

/// Whether a cell sits next to a threshold crossing: one of its four
/// grid-adjacent neighbors lies on the other side of the threshold.
/// Neighbors outside the sampled grid are skipped, not wrapped; for
/// cells in the rendered area only the upper and left edges can lack a
/// neighbor.
pub open spec fn edge_spec(bs: Seq<Blob>, row: int, col: int) -> bool {
    ||| (row > 0 && inside_spec(bs, row - 1, col) != inside_spec(bs, row, col))
    ||| inside_spec(bs, row + 1, col) != inside_spec(bs, row, col)
    ||| (col > 0 && inside_spec(bs, row, col - 1) != inside_spec(bs, row, col))
    ||| inside_spec(bs, row, col + 1) != inside_spec(bs, row, col)
}

/// One if the field at the given point reaches the threshold, else zero.
pub open spec fn above_threshold(bs: Seq<Blob>, px: int, py: int) -> int {
    if field_spec(bs, px, py) >= FIELD_THRESHOLD_MILLI {
        1int
    } else {
        0int
    }
}

/// How many of a cell's four sub-pixel sample points (offsets of zero
/// and half a cell on each axis) have a field at or above the threshold.
pub open spec fn blocks_count_spec(bs: Seq<Blob>, row: int, col: int) -> int {
    above_threshold(bs, col * 1000, row * 1000) + above_threshold(
        bs,
        col * 1000 + SUBPIXEL_OFFSET_MILLI,
        row * 1000,
    ) + above_threshold(bs, col * 1000, row * 1000 + SUBPIXEL_OFFSET_MILLI) + above_threshold(
        bs,
        col * 1000 + SUBPIXEL_OFFSET_MILLI,
        row * 1000 + SUBPIXEL_OFFSET_MILLI,
    )
}

/// The glyph of one cell under a render style.
pub open spec fn cell_char_spec(mode: RenderMode, bs: Seq<Blob>, row: int, col: int) -> char {
    let f = corner_field(bs, row, col);
    match mode {
        RenderMode::Gradient => gradient_glyph_spec(f),
        RenderMode::Contour => contour_glyph_spec(
            edge_spec(bs, row, col),
            inside_spec(bs, row, col),
            f,
        ),
        RenderMode::Solid => solid_glyph_spec(f),
        RenderMode::Blocks => blocks_glyph_spec(blocks_count_spec(bs, row, col), f),
        RenderMode::Gooey => gooey_glyph_spec(f),
    }
}

/// The first `n` glyphs of one frame row.
pub open spec fn cells_prefix_spec(mode: RenderMode, bs: Seq<Blob>, row: int, n: int) -> Seq<
    char,
>
    decreases n,
{
    if n <= 0 {
        Seq::empty()
    } else {
        cells_prefix_spec(mode, bs, row, n - 1).push(cell_char_spec(mode, bs, row, n - 1))
    }
}

/// One frame row: the glyphs of its cells followed by the row
/// terminator.
pub open spec fn line_spec(mode: RenderMode, bs: Seq<Blob>, row: int) -> Seq<char> {
    cells_prefix_spec(mode, bs, row, GRID_WIDTH as int).push('\n')
}

/// The first `n` rows of one frame, concatenated.
pub open spec fn rows_prefix_spec(mode: RenderMode, bs: Seq<Blob>, n: int) -> Seq<char>
    decreases n,
{
    if n <= 0 {
        Seq::empty()
    } else {
        rows_prefix_spec(mode, bs, n - 1) + line_spec(mode, bs, n - 1)
    }
}

/// A whole frame: every visible cell mapped to its glyph under the given
/// style, rows separated by the row terminator. The frame is a pure
/// function of the style and the sources, so rendering is deterministic.
pub open spec fn frame_spec(mode: RenderMode, bs: Seq<Blob>) -> Seq<char> {
    rows_prefix_spec(mode, bs, GRID_HEIGHT as int)
}

/// The field stays below a tenth of the threshold at every point over
/// the sampled area (all coordinates from the origin to one cell beyond
/// the visible grid), as it does when every source sits far outside the
/// grid.
pub open spec fn field_faint_over_grid(bs: Seq<Blob>) -> bool {
    forall|px: int, py: int|
        0 <= px <= (GRID_WIDTH + 1) * 1000 && 0 <= py <= (GRID_HEIGHT + 1) * 1000
            ==> #[trigger] field_spec(bs, px, py) < FIELD_THRESHOLD_MILLI / 10
}

/// A row prefix of blanks.
pub open spec fn blank_cells(n: int) -> Seq<char>
    decreases n,
{
    if n <= 0 {
        Seq::empty()
    } else {
        blank_cells(n - 1).push(' ')
    }
}

/// An all-blank frame row with its terminator.
pub open spec fn blank_line() -> Seq<char> {
    blank_cells(GRID_WIDTH as int).push('\n')
}

/// The first `n` rows of an all-blank frame.
pub open spec fn blank_rows(n: int) -> Seq<char>
    decreases n,
{
    if n <= 0 {
        Seq::empty()
    } else {
        blank_rows(n - 1) + blank_line()
    }
}

/// A frame of nothing but blanks and row terminators.
pub open spec fn blank_frame_spec() -> Seq<char> {
    blank_rows(GRID_HEIGHT as int)
}

/// When the field is faint over the whole sampled area, every cell is
/// blank under every render style.
proof fn lemma_faint_cell_blank(mode: RenderMode, bs: Seq<Blob>, row: int, col: int)
    requires
        field_faint_over_grid(bs),
        0 <= row < GRID_HEIGHT,
        0 <= col < GRID_WIDTH,
    ensures
        cell_char_spec(mode, bs, row, col) == ' ',
{
    assert(field_spec(bs, col * 1000, row * 1000) < FIELD_THRESHOLD_MILLI / 10);
    assert(field_spec(bs, (col + 1) * 1000, row * 1000) < FIELD_THRESHOLD_MILLI / 10);
    assert(field_spec(bs, col * 1000, (row + 1) * 1000) < FIELD_THRESHOLD_MILLI / 10);
    if row > 0 {
        assert(field_spec(bs, col * 1000, (row - 1) * 1000) < FIELD_THRESHOLD_MILLI / 10);
    }
    if col > 0 {
        assert(field_spec(bs, (col - 1) * 1000, row * 1000) < FIELD_THRESHOLD_MILLI / 10);
    }
    assert(field_spec(bs, col * 1000 + SUBPIXEL_OFFSET_MILLI, row * 1000)
        < FIELD_THRESHOLD_MILLI / 10);
    assert(field_spec(bs, col * 1000, row * 1000 + SUBPIXEL_OFFSET_MILLI)
        < FIELD_THRESHOLD_MILLI / 10);
    assert(field_spec(bs, col * 1000 + SUBPIXEL_OFFSET_MILLI, row * 1000 + SUBPIXEL_OFFSET_MILLI)
        < FIELD_THRESHOLD_MILLI / 10);
    assert(!inside_spec(bs, row, col));
    assert(!edge_spec(bs, row, col));
    assert(blocks_count_spec(bs, row, col) == 0);
}

/// When the field is faint over the whole sampled area, a row prefix is
/// all blanks.
proof fn lemma_faint_cells_blank(mode: RenderMode, bs: Seq<Blob>, row: int, n: int)
    requires
        field_faint_over_grid(bs),
        0 <= row < GRID_HEIGHT,
        0 <= n <= GRID_WIDTH,
    ensures
        cells_prefix_spec(mode, bs, row, n) == blank_cells(n),
    decreases n,
{
    if n > 0 {
        lemma_faint_cells_blank(mode, bs, row, n - 1);
        lemma_faint_cell_blank(mode, bs, row, n - 1);
    }
}

/// When the field is faint over the whole sampled area, a frame prefix
/// is all blank rows.
proof fn lemma_faint_rows_blank(mode: RenderMode, bs: Seq<Blob>, n: int)
    requires
        field_faint_over_grid(bs),
        0 <= n <= GRID_HEIGHT,
    ensures
        rows_prefix_spec(mode, bs, n) == blank_rows(n),
    decreases n,
{
    if n > 0 {
        lemma_faint_rows_blank(mode, bs, n - 1);
        lemma_faint_cells_blank(mode, bs, n - 1, GRID_WIDTH as int);
    }
}

/// With the field faint over the whole sampled area — as when every
/// source has moved far outside the grid — every render style produces
/// the all-blank frame.
pub proof fn lemma_faint_field_blank_frame(mode: RenderMode, bs: Seq<Blob>)
    requires
        field_faint_over_grid(bs),
    ensures
        frame_spec(mode, bs) == blank_frame_spec(),
{
    lemma_faint_rows_blank(mode, bs, GRID_HEIGHT as int);
}

/// A row prefix holds one glyph per cell.
proof fn lemma_cells_prefix_len(mode: RenderMode, bs: Seq<Blob>, row: int, n: int)
    requires
        0 <= n,
    ensures
        cells_prefix_spec(mode, bs, row, n).len() == n,
    decreases n,
{
    if n > 0 {
        lemma_cells_prefix_len(mode, bs, row, n - 1);
    }
}

/// A frame prefix holds one terminated row of glyphs per grid row.
proof fn lemma_rows_prefix_len(mode: RenderMode, bs: Seq<Blob>, n: int)
    requires
        0 <= n,
    ensures
        rows_prefix_spec(mode, bs, n).len() == n * (GRID_WIDTH + 1),
    decreases n,
{
    if n > 0 {
        lemma_rows_prefix_len(mode, bs, n - 1);
        lemma_cells_prefix_len(mode, bs, n - 1, GRID_WIDTH as int);
    }
}

/// A frame holds one glyph per visible cell plus one terminator per row,
/// whatever the style and the sources.
pub proof fn lemma_frame_dimensions(mode: RenderMode, bs: Seq<Blob>)
    ensures
        frame_spec(mode, bs).len() == GRID_HEIGHT * (GRID_WIDTH + 1),
{
    lemma_rows_prefix_len(mode, bs, GRID_HEIGHT as int);
}

/// Under the contour style, a cell with a grid-adjacent neighbor on the
/// other side of the threshold always renders as one of the three edge
/// glyphs, never as fill or blank.
pub proof fn lemma_contour_edge_cell(bs: Seq<Blob>, row: int, col: int)
    requires
        edge_spec(bs, row, col),
    ensures
        cell_char_spec(RenderMode::Contour, bs, row, col) == '@' || cell_char_spec(
            RenderMode::Contour,
            bs,
            row,
            col,
        ) == '#' || cell_char_spec(RenderMode::Contour, bs, row, col) == 'O',
{
}

/// Under the contour style, a cell whose in-range neighbors all lie on
/// its own side of the threshold never renders as an edge glyph: it
/// shows the faint fill inside the surface and blank outside.
pub proof fn lemma_contour_uniform_cell(bs: Seq<Blob>, row: int, col: int)
    requires
        !edge_spec(bs, row, col),
    ensures
        cell_char_spec(RenderMode::Contour, bs, row, col) == (if inside_spec(bs, row, col) {
            '.'
        } else {
            ' '
        }),
{
}

/// Under the blocks style, a cell with no sub-pixel sample above the
/// threshold always renders blank, and a fully covered cell whose corner
/// field stays at or below twice the threshold renders the
/// second-densest glyph, not the densest.
pub proof fn lemma_blocks_cell_edges(bs: Seq<Blob>, row: int, col: int)
    ensures
        blocks_count_spec(bs, row, col) == 0 ==> cell_char_spec(
            RenderMode::Blocks,
            bs,
            row,
            col,
        ) == ' ',
        blocks_count_spec(bs, row, col) == 4 && corner_field(bs, row, col) <= 2
            * FIELD_THRESHOLD_MILLI ==> cell_char_spec(RenderMode::Blocks, bs, row, col)
            == '▓',
{
}

/// A sampled-field cache matches the sources: entry `[row][col]` holds
/// the field at that grid corner, and all entries are within the field
/// bounds.
pub open spec fn grid_matches(g: Seq<Vec<i64>>, bs: Seq<Blob>) -> bool {
    &&& g.len() == GRID_HEIGHT + 1
    &&& forall|r: int| 0 <= r < g.len() ==> (#[trigger] g[r])@.len() == GRID_WIDTH + 1
    &&& forall|r: int, c: int|
        0 <= r <= GRID_HEIGHT && 0 <= c <= GRID_WIDTH ==> (#[trigger] g[r]@[c]) == corner_field(
            bs,
            r,
            c,
        ) && 0 <= g[r]@[c] <= FIELD_LIMIT_MILLI
}

/// Relies on `String`'s `FromIterator` implementation: collecting an
/// iterator of characters yields the string of exactly those characters
/// in order.
#[verifier::external_body]
fn chars_to_string(v: &Vec<char>) -> (s: String)
    ensures
        s@ == v@,
{
    v.iter().collect()
}

impl MetaballScene {
    /// Bounds under which all scene arithmetic is free of overflow: one
    /// profile per source, every source and profile within limits, time
    /// within the supported range, and the style timer strictly inside
    /// one dwell period.
    pub open spec fn wf(self) -> bool {
        &&& self.blobs@.len() == self.profiles@.len()
        &&& self.blobs@.len() <= MAX_SOURCE_COUNT
        &&& all_wf(self.blobs@)
        &&& forall|i: int|
            0 <= i < self.profiles@.len() ==> (#[trigger] self.profiles@[i]).wf()
        &&& 0 <= self.time_milli <= TIME_LIMIT_MILLI
        &&& 0 <= self.mode_timer_milli < STYLE_DWELL_MILLI
    }

    /// The standard scene: five sources at the origin with their motion
    /// profiles, zero simulated time, and the gradient style.
    pub fn new() -> (s: MetaballScene)
        ensures
            s.wf(),
            s.blobs@ == default_blobs(),
            s.profiles@ == default_profiles(),
            s.time_milli == 0,
            s.mode == RenderMode::Gradient,
            s.mode_timer_milli == 0,
    {
        let mut blobs: Vec<Blob> = Vec::new();
        blobs.push(Blob::new(0, 0, 4000));
        blobs.push(Blob::new(0, 0, 3000));
        blobs.push(Blob::new(0, 0, 3500));
        blobs.push(Blob::new(0, 0, 2500));
        blobs.push(Blob::new(0, 0, 3200));
        let mut profiles: Vec<MotionProfile> = Vec::new();
        profiles.push(
            MotionProfile {
                freq_x: 500,
                phase_x: 4713,
                radius_x: 8000,
                freq_y: 700,
                phase_y: 1571,
                radius_y: 4000,
            },
        );
        profiles.push(
            MotionProfile {
                freq_x: 1200,
                phase_x: 0,
                radius_x: 20000,
                freq_y: 1200,
                phase_y: 0,
                radius_y: 10000,
            },
        );
        profiles.push(
            MotionProfile {
                freq_x: 800,
                phase_x: 1571,
                radius_x: 25000,
                freq_y: 800,
                phase_y: 1571,
                radius_y: 11000,
            },
        );
        profiles.push(
            MotionProfile {
                freq_x: 1500,
                phase_x: 3142,
                radius_x: 18000,
                freq_y: 1500,
                phase_y: 3142,
                radius_y: 8000,
            },
        );
        profiles.push(
            MotionProfile {
                freq_x: 600,
                phase_x: 4713,
                radius_x: 28000,
                freq_y: 600,
                phase_y: 4713,
                radius_y: 12000,
            },
        );
        proof {
            assert(blobs@ =~= default_blobs());
            assert(profiles@ =~= default_profiles());
        }
        MetaballScene {
            blobs,
            profiles,
            time_milli: 0,
            mode: RenderMode::Gradient,
            mode_timer_milli: 0,
        }
    }

    /// Advance the simulation by `dt` milliseconds of simulated time:
    /// total time and the style timer grow by `dt`; if the timer reaches
    /// the dwell time the style moves to its cyclic successor and the
    /// timer resets; and every source is repositioned on its elliptical
    /// path as a function of the new total time.
    #[verifier::loop_isolation(false)]
    pub fn update(&mut self, dt: i64)
        requires
            old(self).wf(),
            0 < dt,
            old(self).time_milli + dt <= TIME_LIMIT_MILLI,
        ensures
            final(self).wf(),
            final(self).time_milli == old(self).time_milli + dt,
            (final(self).mode, final(self).mode_timer_milli as int) == style_step(
                old(self).mode,
                old(self).mode_timer_milli as int,
                dt as int,
            ),
            final(self).profiles@ == old(self).profiles@,
            final(self).blobs@.len() == old(self).blobs@.len(),
            forall|i: int|
                0 <= i < final(self).blobs@.len() ==> (#[trigger] final(self).blobs@[i]).radius
                    == old(self).blobs@[i].radius && final(self).blobs@[i].x == position_x_spec(
                    old(self).profiles@[i],
                    final(self).time_milli as int,
                ) && final(self).blobs@[i].y == position_y_spec(
                    old(self).profiles@[i],
                    final(self).time_milli as int,
                ),
    {
        self.time_milli = self.time_milli + dt;
        self.mode_timer_milli = self.mode_timer_milli + dt;
        if self.mode_timer_milli >= STYLE_DWELL_MILLI {
            self.mode_timer_milli = 0;
            self.mode = self.mode.next();
        }
        let t = self.time_milli;
        let n = self.blobs.len();
        let mut i: usize = 0;
        while i < n
            invariant
                0 <= i <= n,
                self.blobs@.len() == n,
                self.profiles@ == old(self).profiles@,
                self.time_milli == t,
                t == old(self).time_milli + dt,
                (self.mode, self.mode_timer_milli as int) == style_step(
                    old(self).mode,
                    old(self).mode_timer_milli as int,
                    dt as int,
                ),
                0 <= self.mode_timer_milli < STYLE_DWELL_MILLI,
                forall|j: int|
                    i <= j < n ==> (#[trigger] self.blobs@[j]) == old(self).blobs@[j],
                forall|j: int|
                    0 <= j < i ==> (#[trigger] self.blobs@[j]).radius == old(
                        self,
                    ).blobs@[j].radius && self.blobs@[j].x == position_x_spec(
                        old(self).profiles@[j],
                        t as int,
                    ) && self.blobs@[j].y == position_y_spec(old(self).profiles@[j], t as int),
                all_wf(self.blobs@),
            decreases n - i,
        {
            let pos = position_at(&self.profiles[i], t);
            let mut b = self.blobs[i];
            b.x = pos.0;
            b.y = pos.1;
            self.blobs.set(i, b);
            i = i + 1;
        }
    }

    /// Total field of the scene's sources at a query point.
    pub fn calculate_field(&self, px: i64, py: i64) -> (r: i64)
        requires
            self.wf(),
            in_query_range(px as int, py as int),
        ensures
            r == field_spec(self.blobs@, px as int, py as int),
            0 <= r <= FIELD_LIMIT_MILLI,
    {
        field_at(&self.blobs, px, py)
    }

    /// Sample the field at every grid corner, one extra row and column
    /// beyond the visible cells, for reuse by styles that compare
    /// neighbors.
    #[verifier::loop_isolation(false)]
    pub fn build_field_grid(&self) -> (g: Vec<Vec<i64>>)
        requires
            self.wf(),
        ensures
            grid_matches(g@, self.blobs@),
    {
        let mut g: Vec<Vec<i64>> = Vec::new();
        let mut row: usize = 0;
        while row <= GRID_HEIGHT
            invariant
                0 <= row <= GRID_HEIGHT + 1,
                g@.len() == row,
                forall|r: int| 0 <= r < row ==> (#[trigger] g@[r])@.len() == GRID_WIDTH + 1,
                forall|r: int, c: int|
                    0 <= r < row && 0 <= c <= GRID_WIDTH ==> (#[trigger] g@[r]@[c])
                        == corner_field(self.blobs@, r, c) && 0 <= g@[r]@[c]
                        <= FIELD_LIMIT_MILLI,
            decreases GRID_HEIGHT + 1 - row,
        {
            let mut line: Vec<i64> = Vec::new();
            let mut col: usize = 0;
            while col <= GRID_WIDTH
                invariant
                    0 <= col <= GRID_WIDTH + 1,
                    line@.len() == col,
                    forall|c: int|
                        0 <= c < col ==> (#[trigger] line@[c]) == corner_field(
                            self.blobs@,
                            row as int,
                            c,
                        ) && 0 <= line@[c] <= FIELD_LIMIT_MILLI,
                decreases GRID_WIDTH + 1 - col,
            {
                let px: i64 = (col as i64) * 1000;
                let py: i64 = (row as i64) * 1000;
                let f = self.calculate_field(px, py);
                line.push(f);
                col = col + 1;
            }
            g.push(line);
            row = row + 1;
        }
        g
    }

    /// Gradient style: the cell's field mapped through the ten-level
    /// density ramp.
    pub fn render_gradient(&self, field: i64) -> (r: char)
        requires
            0 <= field <= FIELD_LIMIT_MILLI,
        ensures
            r == gradient_glyph_spec(field as int),
    {
        gradient_glyph(field)
    }

    /// Contour style: compare the cell against its four grid neighbors;
    /// a cell next to a threshold crossing renders as an edge glyph
    /// whose thickness grows with the field, other cells show a faint
    /// fill inside the surface and blank outside.
    pub fn render_contour(&self, grid: &Vec<Vec<i64>>, row: usize, col: usize) -> (r: char)
        requires
            self.wf(),
            grid_matches(grid@, self.blobs@),
            row < GRID_HEIGHT,
            col < GRID_WIDTH,
        ensures
            r == cell_char_spec(RenderMode::Contour, self.blobs@, row as int, col as int),
    {
        let field = grid[row][col];
        let inside = field >= FIELD_THRESHOLD_MILLI;
        let mut is_edge = false;
        if row > 0 && ((grid[row - 1][col] >= FIELD_THRESHOLD_MILLI) != inside) {
            is_edge = true;
        }
        if (grid[row + 1][col] >= FIELD_THRESHOLD_MILLI) != inside {
            is_edge = true;
        }
        if col > 0 && ((grid[row][col - 1] >= FIELD_THRESHOLD_MILLI) != inside) {
            is_edge = true;
        }
        if (grid[row][col + 1] >= FIELD_THRESHOLD_MILLI) != inside {
            is_edge = true;
        }
        proof {
            assert(is_edge == edge_spec(self.blobs@, row as int, col as int));
        }
        contour_glyph(is_edge, inside, field)
    }

    /// Solid style: the cell's field mapped through the three-level
    /// staircase.
    pub fn render_solid(&self, field: i64) -> (r: char)
        requires
            0 <= field <= FIELD_LIMIT_MILLI,
        ensures
            r == solid_glyph_spec(field as int),
    {
        solid_glyph(field)
    }

    /// Blocks style: sample the field at the cell's four sub-pixel
    /// positions, count how many reach the threshold, and map the count
    /// to the shading ramp, splitting full coverage once more by the
    /// corner field.
    pub fn render_blocks(&self, grid: &Vec<Vec<i64>>, row: usize, col: usize) -> (r: char)
        requires
            self.wf(),
            grid_matches(grid@, self.blobs@),
            row < GRID_HEIGHT,
            col < GRID_WIDTH,
        ensures
            r == cell_char_spec(RenderMode::Blocks, self.blobs@, row as int, col as int),
    {
        let px: i64 = (col as i64) * 1000;
        let py: i64 = (row as i64) * 1000;
        let mut count: usize = 0;
        if self.calculate_field(px, py) >= FIELD_THRESHOLD_MILLI {
            count = count + 1;
        }
        if self.calculate_field(px + SUBPIXEL_OFFSET_MILLI, py) >= FIELD_THRESHOLD_MILLI {
            count = count + 1;
        }
        if self.calculate_field(px, py + SUBPIXEL_OFFSET_MILLI) >= FIELD_THRESHOLD_MILLI {
            count = count + 1;
        }
        if self.calculate_field(px + SUBPIXEL_OFFSET_MILLI, py + SUBPIXEL_OFFSET_MILLI)
            >= FIELD_THRESHOLD_MILLI {
            count = count + 1;
        }
        proof {
            assert(count == blocks_count_spec(self.blobs@, row as int, col as int));
        }
        let field = grid[row][col];
        blocks_glyph(count, field)
    }

    /// Gooey style: the cell's field mapped through the seven-level
    /// ladder.
    pub fn render_gooey(&self, field: i64) -> (r: char)
        requires
            0 <= field <= FIELD_LIMIT_MILLI,
        ensures
            r == gooey_glyph_spec(field as int),
    {
        gooey_glyph(field)
    }

    /// Render one frame: sample the field at every grid corner, map each
    /// visible cell to a glyph under the active style, and terminate
    /// each row. The frame is a pure function of the scene state.
    #[verifier::loop_isolation(false)]
    pub fn render(&self) -> (frame: String)
        requires
            self.wf(),
        ensures
            frame@ == frame_spec(self.mode, self.blobs@),
    {
        let grid = self.build_field_grid();
        let mut out: Vec<char> = Vec::new();
        let mut row: usize = 0;
        while row < GRID_HEIGHT
            invariant
                0 <= row <= GRID_HEIGHT,
                out@ == rows_prefix_spec(self.mode, self.blobs@, row as int),
            decreases GRID_HEIGHT - row,
        {
            let mut col: usize = 0;
            while col < GRID_WIDTH
                invariant
                    0 <= col <= GRID_WIDTH,
                    out@ == rows_prefix_spec(self.mode, self.blobs@, row as int)
                        + cells_prefix_spec(self.mode, self.blobs@, row as int, col as int),
                decreases GRID_WIDTH - col,
            {
                let field = grid[row][col];
                let ch = match self.mode {
                    RenderMode::Gradient => self.render_gradient(field),
                    RenderMode::Contour => self.render_contour(&grid, row, col),
                    RenderMode::Solid => self.render_solid(field),
                    RenderMode::Blocks => self.render_blocks(&grid, row, col),
                    RenderMode::Gooey => self.render_gooey(field),
                };
                out.push(ch);
                proof {
                    assert(out@ =~= rows_prefix_spec(self.mode, self.blobs@, row as int)
                        + cells_prefix_spec(
                        self.mode,
                        self.blobs@,
                        row as int,
                        col as int + 1,
                    ));
                }
                col = col + 1;
            }
            out.push('\n');
            proof {
                assert(out@ =~= rows_prefix_spec(self.mode, self.blobs@, row as int)
                    + line_spec(self.mode, self.blobs@, row as int));
                assert(out@ =~= rows_prefix_spec(self.mode, self.blobs@, row as int + 1));
            }
            row = row + 1;
        }
        chars_to_string(&out)
    }
}

} // verus!
