//! The translation layer from semantic snapshots to physical frames.
//!
//! A producer describes the 5x5 grid in terms of game meaning (`CellState`);
//! the driver owns the physical description (`PixelState` per LED). `Render`
//! turns one into the other, keeping the previous snapshot so that an
//! in-flight animation survives an unrelated grid update: a cell whose
//! semantic state is unchanged keeps its evolving pixel, a cell whose state
//! changed is re-initialized to that animation's canonical start.

use vstd::prelude::*;

use crate::mailbox::Mailbox;
use crate::pixel::BRIGHTNESS_MAX;
use crate::pixel::BlinkingPixel;
use crate::pixel::FadingPixel;
use crate::pixel::FlareUpPixel;
use crate::pixel::PixelState;
use crate::pixel::evolve_pixel;
use crate::pixel::evolve_spec;
use crate::pixel::pixel_level;
use crate::pixel::pixel_wf;

verus! {

/// Rows (and columns) of the matrix.
pub const GRID_SIDE: usize = 5;

/// Cells of the matrix.
pub const GRID_CELLS: usize = 25;

/// Duty level of the snake's head.
pub const HEAD_LEVEL: u16 = 1000;

/// Duty level of the snake's tail.
pub const TAIL_LEVEL: u16 = 100;

/// What a grid cell means to the game, one value per cell per snapshot.
#[derive(Clone, Copy, Debug, PartialEq, Eq, Structural)]
pub enum CellState {
    /// Nothing here.
    Empty,
    /// The snake's head.
    SnakeHead,
    /// A segment of the snake's tail.
    SnakeTail,
    /// The food the snake is after.
    Food,
    /// A fixed brightness, for animation keyframes.
    AnimationStatic(u16),
    /// A fade that should keep its progress across keyframes.
    AnimationFadingInterFrame,
    /// A flare that should keep its progress across keyframes.
    AnimationFlareUpInterFrame,
    /// A blink, restarted on every snapshot.
    AnimationBlinking,
}

/// A full semantic description of the grid: one `CellState` per cell,
/// column-major (cell `(col, row)` is entry `col * GRID_SIDE + row`).
#[derive(Debug)]
pub struct Snapshot {
    /// The cells, column-major.
    pub cells: Vec<CellState>,
}

impl View for Snapshot {
    type V = Seq<CellState>;

    open spec fn view(&self) -> Seq<CellState> {
        self.cells@
    }
}

impl Snapshot {
    /// A snapshot is well formed when it covers the whole grid.
    pub open spec fn wf(&self) -> bool {
        self@.len() == GRID_CELLS
    }

    /// The cell at `(col, row)`.
    pub open spec fn at(&self, col: int, row: int) -> CellState {
        self@[col * 5 + row]
    }

    /// An all-`Empty` snapshot.
    pub fn new() -> (r: Self)
        ensures
            r.wf(),
            forall|i: int| 0 <= i < GRID_CELLS ==> r@[i] == CellState::Empty,
    {
        let mut cells: Vec<CellState> = Vec::new();
        while cells.len() < GRID_CELLS
            invariant
                cells@.len() <= GRID_CELLS,
                forall|i: int| 0 <= i < cells@.len() ==> cells@[i] == CellState::Empty,
            decreases GRID_CELLS - cells@.len(),
        {
            cells.push(CellState::Empty);
        }
        Snapshot { cells }
    }

    /// Read the cell at `(col, row)`.
    pub fn get(&self, col: usize, row: usize) -> (r: CellState)
        requires
            self.wf(),
            col < GRID_SIDE,
            row < GRID_SIDE,
        ensures
            r == self.at(col as int, row as int),
    {
        self.cells[col * 5 + row]
    }

    /// Write the cell at `(col, row)`.
    pub fn set(&mut self, col: usize, row: usize, value: CellState)
        requires
            old(self).wf(),
            col < GRID_SIDE,
            row < GRID_SIDE,
        ensures
            final(self).wf(),
            final(self)@ == old(self)@.update(col * 5 + row, value),
    {
        self.cells[col * 5 + row] = value;
    }

    /// An identical copy.
    pub fn duplicate(&self) -> (r: Self)
        requires
            self.wf(),
        ensures
            r.wf(),
            r@ == self@,
    {
        let mut cells: Vec<CellState> = Vec::new();
        while cells.len() < GRID_CELLS
            invariant
                self.wf(),
                cells@.len() <= GRID_CELLS,
                forall|i: int| 0 <= i < cells@.len() ==> cells@[i] == self@[i],
            decreases GRID_CELLS - cells@.len(),
        {
            let i = cells.len();
            cells.push(self.cells[i]);
        }
        let r = Snapshot { cells };
        assert(r@ =~= self@);
        r
    }
}

/// A full physical description of the grid: one `PixelState` per LED,
/// column-major, the only long-lived mutable state the driver owns.
#[derive(Debug)]
pub struct Frame {
    /// The pixels, column-major.
    pub cells: Vec<PixelState>,
}

impl View for Frame {
    type V = Seq<PixelState>;

    open spec fn view(&self) -> Seq<PixelState> {
        self.cells@
    }
}

impl Frame {
    /// A frame is well formed when it covers the whole grid and every pixel
    /// level fits in the slot.
    pub open spec fn wf(&self) -> bool {
        &&& self@.len() == GRID_CELLS
        &&& forall|i: int| 0 <= i < GRID_CELLS ==> pixel_wf(self@[i])
    }

    /// The pixel at `(col, row)`.
    pub open spec fn at(&self, col: int, row: int) -> PixelState {
        self@[col * 5 + row]
    }

    /// An all-`Off` frame, the state at driver start.
    pub fn new() -> (r: Self)
        ensures
            r.wf(),
            forall|i: int| 0 <= i < GRID_CELLS ==> r@[i] == PixelState::Off,
    {
        let mut cells: Vec<PixelState> = Vec::new();
        while cells.len() < GRID_CELLS
            invariant
                cells@.len() <= GRID_CELLS,
                forall|i: int| 0 <= i < cells@.len() ==> cells@[i] == PixelState::Off,
            decreases GRID_CELLS - cells@.len(),
        {
            cells.push(PixelState::Off);
        }
        Frame { cells }
    }

    /// Read the pixel at `(col, row)`.
    pub fn get(&self, col: usize, row: usize) -> (r: PixelState)
        requires
            self.wf(),
            col < GRID_SIDE,
            row < GRID_SIDE,
        ensures
            r == self.at(col as int, row as int),
    {
        self.cells[col * 5 + row]
    }

    /// Write the pixel at `(col, row)`.
    pub fn set(&mut self, col: usize, row: usize, value: PixelState)
        requires
            old(self).wf(),
            col < GRID_SIDE,
            row < GRID_SIDE,
            pixel_wf(value),
        ensures
            final(self).wf(),
            final(self)@ == old(self)@.update(col * 5 + row, value),
    {
        self.cells[col * 5 + row] = value;
    }

    /// Advance every pixel by one sweep, in place: the per-sweep step the
    /// driver applies while scanning.
    pub fn evolve(&mut self)
        requires
            old(self).wf(),
        ensures
            final(self).wf(),
            final(self)@.len() == old(self)@.len(),
            forall|i: int| 0 <= i < GRID_CELLS ==> final(self)@[i] == evolve_spec(old(self)@[i]),
    {
        let mut i: usize = 0;
        while i < GRID_CELLS
            invariant
                old(self).wf(),
                self@.len() == GRID_CELLS,
                i <= GRID_CELLS,
                forall|j: int| 0 <= j < i ==> self@[j] == evolve_spec(old(self)@[j]),
                forall|j: int| i <= j < GRID_CELLS ==> self@[j] == old(self)@[j],
            decreases GRID_CELLS - i,
        {
            self.cells[i] = evolve_pixel(self.cells[i]);
            i = i + 1;
        }
        assert forall|i: int| 0 <= i < GRID_CELLS implies pixel_wf(final(self)@[i]) by {
            crate::pixel::lemma_evolve_wf(old(self)@[i]);
        }
    }
}

/// A constant level, clamped into the slot so that an out-of-range producer
/// degrades visually instead of breaking the scan.
pub open spec fn clamped_level(b: u16) -> u16 {
    if b > BRIGHTNESS_MAX {
        BRIGHTNESS_MAX
    } else {
        b
    }
}

/// The rule table: the new pixel for one cell, from the cell's semantic
/// state, the same cell in the previous snapshot, and its current pixel.
pub open spec fn render_cell_spec(cur: CellState, prev: CellState, pix: PixelState) -> PixelState {
    match cur {
        CellState::Empty => PixelState::Off,
        CellState::SnakeHead => PixelState::Solid(HEAD_LEVEL),
        CellState::SnakeTail => PixelState::Solid(TAIL_LEVEL),
        CellState::AnimationStatic(b) => PixelState::Solid(clamped_level(b)),
        CellState::Food => if prev == CellState::Food {
            pix
        } else {
            PixelState::Blinking(BlinkingPixel { fading: true, brightness: BRIGHTNESS_MAX })
        },
        CellState::AnimationBlinking => PixelState::Blinking(
            BlinkingPixel { fading: true, brightness: BRIGHTNESS_MAX },
        ),
        CellState::AnimationFadingInterFrame => if prev == CellState::AnimationFadingInterFrame {
            pix
        } else {
            PixelState::Fading(FadingPixel { brightness: BRIGHTNESS_MAX })
        },
        CellState::AnimationFlareUpInterFrame => if prev
            == CellState::AnimationFlareUpInterFrame {
            pix
        } else {
            PixelState::FlareUp(FlareUpPixel { brightness: 0 })
        },
    }
}

/// Exec counterpart of `render_cell_spec`.
fn render_cell(cur: CellState, prev: CellState, pix: PixelState) -> (r: PixelState)
    ensures
        r == render_cell_spec(cur, prev, pix),
{
    match cur {
        CellState::Empty => PixelState::Off,
        CellState::SnakeHead => PixelState::Solid(HEAD_LEVEL),
        CellState::SnakeTail => PixelState::Solid(TAIL_LEVEL),
        CellState::AnimationStatic(b) => {
            if b > BRIGHTNESS_MAX {
                PixelState::Solid(BRIGHTNESS_MAX)
            } else {
                PixelState::Solid(b)
            }
        },
        CellState::Food => {
            if prev == CellState::Food {
                pix
            } else {
                PixelState::Blinking(BlinkingPixel::new())
            }
        },
        CellState::AnimationBlinking => PixelState::Blinking(BlinkingPixel::new()),
        CellState::AnimationFadingInterFrame => {
            if prev == CellState::AnimationFadingInterFrame {
                pix
            } else {
                PixelState::Fading(FadingPixel::new())
            }
        },
        CellState::AnimationFlareUpInterFrame => {
            if prev == CellState::AnimationFlareUpInterFrame {
                pix
            } else {
                PixelState::FlareUp(FlareUpPixel::new())
            }
        },
    }
}

/// The stateful translator: keeps the previous snapshot so that the rule
/// table can tell a continuing animation from a restarted one.
#[derive(Debug)]
pub struct Render {
    /// The snapshot consumed by the last `render` call (all `Empty` at start).
    pub prev_snapshot: Snapshot,
}

impl Render {
    /// A fresh translator behaves as if the previous snapshot were empty.
    pub fn new() -> (r: Self)
        ensures
            r.prev_snapshot.wf(),
            forall|i: int| 0 <= i < GRID_CELLS ==> r.prev_snapshot@[i] == CellState::Empty,
    {
        Render { prev_snapshot: Snapshot::new() }
    }

    /// Translate one snapshot into a frame: every cell follows the rule
    /// table against the stored previous snapshot and the current frame, and
    /// the snapshot is remembered for the next call. Total; the result is
    /// well formed for every input the types allow.
    pub fn render(&mut self, snapshot: Snapshot, current_frame: &Frame) -> (frame: Frame)
        requires
            old(self).prev_snapshot.wf(),
            snapshot.wf(),
            current_frame.wf(),
        ensures
            frame.wf(),
            forall|i: int|
                0 <= i < GRID_CELLS ==> frame@[i] == render_cell_spec(
                    snapshot@[i],
                    old(self).prev_snapshot@[i],
                    current_frame@[i],
                ),
            final(self).prev_snapshot@ == snapshot@,
            final(self).prev_snapshot.wf(),
    {
        let mut cells: Vec<PixelState> = Vec::new();
        let mut i: usize = 0;
        while i < GRID_CELLS
            invariant
                self.prev_snapshot.wf(),
                snapshot.wf(),
                current_frame.wf(),
                cells@.len() == i,
                i <= GRID_CELLS,
                forall|j: int|
                    0 <= j < i ==> cells@[j] == render_cell_spec(
                        snapshot@[j],
                        self.prev_snapshot@[j],
                        current_frame@[j],
                    ),
            decreases GRID_CELLS - i,
        {
            let pix = render_cell(snapshot.cells[i], self.prev_snapshot.cells[i], current_frame.cells[i]);
            cells.push(pix);
            i = i + 1;
        }
        self.prev_snapshot = snapshot;
        Frame { cells }
    }
}

/// Hand a snapshot to the driver: deposit it in the driver's mailbox,
/// replacing any snapshot it has not picked up yet.
pub fn send_snapshot(channel: &mut Mailbox<Snapshot>, snapshot: Snapshot)
    requires
        snapshot.wf(),
    ensures
        final(channel)@ matches Some(s) && s@ == snapshot@ && s.wf(),
{
    channel.write(snapshot);
}

/// What the driver does with one pixel during its row slot: keep the row
/// line high for `lit_micros`, then low for `dark_micros`; the two always
/// fill the whole 1000 us slot, and the line goes high at all only when the
/// pixel asks for a positive level.
#[derive(Clone, Copy, Debug, PartialEq, Eq, Structural)]
pub struct SlotPlan {
    /// Microseconds with the row line active.
    pub lit_micros: u16,
    /// Microseconds with the row line inactive, after the active part.
    pub dark_micros: u16,
}

/// Plan one row slot and advance the pixel: the slot shows the pixel's
/// current (clamped) level, and the pixel the driver keeps is the evolved
/// one.
pub fn plan_slot(pix: PixelState) -> (r: (SlotPlan, PixelState))
    ensures
        r.0.lit_micros == clamped_level(pixel_level(pix)),
        r.0.lit_micros + r.0.dark_micros == BRIGHTNESS_MAX,
        r.1 == evolve_spec(pix),
{
    let level = match pix {
        PixelState::Off => 0,
        PixelState::Solid(b) => b,
        PixelState::Blinking(s) => s.brightness,
        PixelState::Fading(s) => s.brightness,
        PixelState::FlareUp(s) => s.brightness,
    };
    let lit = if level > BRIGHTNESS_MAX {
        BRIGHTNESS_MAX
    } else {
        level
    };
    (SlotPlan { lit_micros: lit, dark_micros: BRIGHTNESS_MAX - lit }, evolve_pixel(pix))
}

/// Continuity: when a cell is `Food`, `AnimationFadingInterFrame` or
/// `AnimationFlareUpInterFrame` in both the previous and the current
/// snapshot, rendering keeps the cell's current pixel exactly — in
/// particular a fade keeps the brightness it held going in.
pub proof fn lemma_render_continuity(cur: CellState, prev: CellState, pix: PixelState)
    requires
        prev == cur,
        cur == CellState::AnimationFadingInterFrame || cur == CellState::AnimationFlareUpInterFrame
            || cur == CellState::Food,
    ensures
        render_cell_spec(cur, prev, pix) == pix,
{
}

/// Reset: when a cell's semantic state changed between consecutive
/// snapshots, an animation cell is re-initialized to its canonical start —
/// `Fading` at the maximum, `FlareUp` at zero, `Blinking` at the maximum in
/// the falling phase — whatever pixel the cell held before.
pub proof fn lemma_render_reset(cur: CellState, prev: CellState, pix: PixelState)
    requires
        prev != cur,
    ensures
        cur == CellState::AnimationFadingInterFrame ==> render_cell_spec(cur, prev, pix)
            == PixelState::Fading(FadingPixel { brightness: BRIGHTNESS_MAX }),
        cur == CellState::AnimationFlareUpInterFrame ==> render_cell_spec(cur, prev, pix)
            == PixelState::FlareUp(FlareUpPixel { brightness: 0 }),
        cur == CellState::Food ==> render_cell_spec(cur, prev, pix) == PixelState::Blinking(
            BlinkingPixel { fading: true, brightness: BRIGHTNESS_MAX },
        ),
        cur == CellState::AnimationBlinking ==> render_cell_spec(cur, prev, pix)
            == PixelState::Blinking(BlinkingPixel { fading: true, brightness: BRIGHTNESS_MAX }),
{
}

} // verus!
