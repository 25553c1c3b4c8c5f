//! The grid model: a flat row-major sequence of boolean cells, the
//! neighbor-counting rule with its flat-index boundary check, the
//! generation update, and the RGBA rasterization of a generation.

use vstd::prelude::*;
use rand::Rng;

verus! {

/// True when flat index `n` is inside the grid and holds a live cell;
/// an index outside `[0, len)` counts as dead.
pub open spec fn live_at(s: Seq<bool>, n: int) -> bool {
    0 <= n < s.len() && s[n]
}

/// 1 for a live position, 0 for a dead or out-of-range one.
pub open spec fn one_if_live(s: Seq<bool>, n: int) -> int {
    if live_at(s, n) { 1int } else { 0int }
}

/// Number of live cells among the eight flat indices `idx + w*dy + dx`,
/// `dy, dx` ranging over `{-1, 0, 1}` without `(0, 0)`: the cell itself is
/// excluded.
///
/// The bounds check is on the flat index alone, never on the column, so a
/// cell in the last column of a row counts the first cell of the next row
/// as a neighbor (and symmetrically in the first column): the grid neither
/// wraps around nor clips rows.  This boundary behavior is kept on purpose;
/// see `laws::lemma_edge_adjacency_quirk`.
pub open spec fn neighbor_count(s: Seq<bool>, w: int, idx: int) -> int {
    one_if_live(s, idx - w - 1)
        + one_if_live(s, idx - w)
        + one_if_live(s, idx - w + 1)
        + one_if_live(s, idx - 1)
        + one_if_live(s, idx + 1)
        + one_if_live(s, idx + w - 1)
        + one_if_live(s, idx + w)
        + one_if_live(s, idx + w + 1)
}

/// The birth/survival rule: a live cell survives with exactly two or three
/// live neighbors; a dead cell becomes live with exactly three.
pub open spec fn next_cell(s: Seq<bool>, w: int, idx: int) -> bool {
    if live_at(s, idx) {
        neighbor_count(s, w, idx) == 2 || neighbor_count(s, w, idx) == 3
    } else {
        neighbor_count(s, w, idx) == 3
    }
}

/// One generation step of the whole grid of width `w`.
pub open spec fn advance(s: Seq<bool>, w: int) -> Seq<bool> {
    Seq::new(s.len(), |i: int| next_cell(s, w, i))
}

/// Byte `k` (0..4) of a cell's RGBA pixel: live cells are an opaque purple
/// `(0x5e, 0x48, 0xe8, 0xff)`, dead cells opaque black `(0, 0, 0, 0xff)`.
pub open spec fn pixel_channel(alive: bool, k: int) -> u8 {
    if k == 3 {
        0xff
    } else if !alive {
        0x00
    } else if k == 0 {
        0x5e
    } else if k == 1 {
        0x48
    } else {
        0xe8
    }
}

/// The rasterized frame: four bytes per cell, cells in row-major order.
pub open spec fn frame_of(s: Seq<bool>) -> Seq<u8> {
    Seq::new(4 * s.len(), |k: int| pixel_channel(s[k / 4], k % 4))
}

/// Relies on `rand::Rng::gen_range` over `0..n` with `rand::thread_rng()`:
/// a uniform draw from `[0, n)`, which panics only on an empty range.
/// Nothing beyond the bound can be promised of a random value.
#[verifier::external_body]
fn random_below(n: u32) -> (r: u32)
    requires
        0 < n,
    ensures
        r < n,
{
    rand::thread_rng().gen_range(0..n)
}

/// One generation of the automaton.  Cell `(x, y)` lives at flat index
/// `y * width + x` of `state`, row-major.
pub struct GameOfLife {
    pub width: usize,
    pub height: usize,
    pub state: Vec<bool>,
}

impl GameOfLife {
    /// The grid invariant: positive dimensions, a flat length of exactly
    /// `width * height`, and a cell count small enough that every flat
    /// neighbor offset fits the signed machine arithmetic of the counter.
    pub open spec fn well_formed(&self) -> bool {
        &&& 1 <= self.width
        &&& 1 <= self.height
        &&& self.state@.len() == self.width * self.height
        &&& self.width * self.height <= 0x7fff_ffff
    }

    /// Allocates a `width` by `height` grid and seeds each cell
    /// independently: live exactly when a uniform draw from
    /// `[0, total_chances)` lands below `live_chances`.
    pub fn new(width: usize, height: usize, live_chances: u32, total_chances: u32) -> (g: GameOfLife)
        requires
            1 <= width,
            1 <= height,
            width * height <= 0x7fff_ffff,
            0 < total_chances,
        ensures
            g.well_formed(),
            g.width == width,
            g.height == height,
    {
        let n: usize = width * height;
        let mut state: Vec<bool> = Vec::new();
        let mut i: usize = 0;
        while i < n
            invariant
                i <= n,
                state@.len() == i,
                0 < total_chances,
            decreases n - i,
        {
            let draw: u32 = random_below(total_chances);
            state.push(draw < live_chances);
            i = i + 1;
        }
        GameOfLife { width, height, state }
    }

    /// Builds a grid from explicitly given cells, so that a caller can seed
    /// a reproducible pattern instead of a random one.
    pub fn from_cells(width: usize, height: usize, state: Vec<bool>) -> (g: GameOfLife)
        requires
            1 <= width,
            1 <= height,
            width * height <= 0x7fff_ffff,
            state@.len() == width * height,
        ensures
            g.well_formed(),
            g.width == width,
            g.height == height,
            g.state@ == state@,
    {
        GameOfLife { width, height, state }
    }

    /// True when the cell `delta` flat positions away from `idx` is inside
    /// the grid and live.
    fn offset_live(&self, idx: usize, delta: i64) -> (r: bool)
        requires
            self.well_formed(),
            idx < self.state@.len(),
            -0x8000_0000 <= delta <= 0x8000_0000,
        ensures
            r == live_at(self.state@, idx + delta),
    {
        let n: i64 = idx as i64 + delta;
        if 0 <= n && n < self.state.len() as i64 {
            self.state[n as usize]
        } else {
            false
        }
    }

    /// Counts the live cells among the eight flat-index neighbors of `idx`,
    /// the cell itself excluded.
    ///
    /// Only `0 <= idx + w*dy + dx < len` is checked, never the column, so
    /// counts may reach across a row boundary; see `neighbor_count`.
    pub fn count_neighbours(&self, idx: usize) -> (count: u32)
        requires
            self.well_formed(),
            idx < self.state@.len(),
        ensures
            count == neighbor_count(self.state@, self.width as int, idx as int),
            count <= 8,
    {
        proof {
            assert(self.width * 1 <= self.width * self.height) by (nonlinear_arith)
                requires 1 <= self.height, 1 <= self.width;
        }
        let w: i64 = self.width as i64;
        let mut count: u32 = 0;
        if self.offset_live(idx, -w - 1) {
            count = count + 1;
        }
        if self.offset_live(idx, -w) {
            count = count + 1;
        }
        if self.offset_live(idx, -w + 1) {
            count = count + 1;
        }
        if self.offset_live(idx, -1) {
            count = count + 1;
        }
        if self.offset_live(idx, 1) {
            count = count + 1;
        }
        if self.offset_live(idx, w - 1) {
            count = count + 1;
        }
        if self.offset_live(idx, w) {
            count = count + 1;
        }
        if self.offset_live(idx, w + 1) {
            count = count + 1;
        }
        count
    }

    /// Replaces the grid with the next generation under the birth/survival
    /// rule.  Every cell of the new generation is computed from the old one
    /// alone, so the order of evaluation is irrelevant.
    pub fn update(&mut self)
        requires
            old(self).well_formed(),
        ensures
            final(self).well_formed(),
            final(self).width == old(self).width,
            final(self).height == old(self).height,
            final(self).state@ == advance(old(self).state@, old(self).width as int),
            final(self).state@.len() == old(self).state@.len(),
    {
        let n: usize = self.state.len();
        let mut next: Vec<bool> = Vec::new();
        let mut i: usize = 0;
        while i < n
            invariant
                *self == *old(self),
                self.well_formed(),
                n == self.state@.len(),
                i <= n,
                next@.len() == i,
                forall|j: int| 0 <= j < i ==> next@[j] == next_cell(self.state@, self.width as int, j),
            decreases n - i,
        {
            let alive: bool = self.state[i];
            let nc: u32 = self.count_neighbours(i);
            let lives_on: bool = if alive {
                nc == 2 || nc == 3
            } else {
                nc == 3
            };
            next.push(lives_on);
            i = i + 1;
        }
        self.state = next;
        proof {
            assert(self.state@ =~= advance(old(self).state@, old(self).width as int));
        }
    }

    /// Rasterizes the grid into `frame`: one opaque RGBA pixel per cell, in
    /// the grid's row-major order.  The caller must supply a buffer of
    /// exactly four bytes per cell.
    pub fn draw(&self, frame: &mut Vec<u8>)
        requires
            self.well_formed(),
            old(frame)@.len() == self.state@.len() * 4,
        ensures
            final(frame)@ == frame_of(self.state@),
            final(frame)@.len() == old(frame)@.len(),
    {
        let n: usize = self.state.len();
        let mut i: usize = 0;
        while i < n
            invariant
                self.well_formed(),
                n == self.state@.len(),
                i <= n,
                frame@.len() == n * 4,
                forall|k: int| 0 <= k < 4 * i ==> frame@[k] == pixel_channel(self.state@[k / 4], k % 4),
            decreases n - i,
        {
            let alive: bool = self.state[i];
            let red: u8 = if alive { 0x5e } else { 0x00 };
            let green: u8 = if alive { 0x48 } else { 0x00 };
            let blue: u8 = if alive { 0xe8 } else { 0x00 };
            let flen: usize = frame.len();
            proof {
                assert(4 * i + 4 <= flen);
            }
            let base: usize = 4 * i;
            frame.set(base, red);
            frame.set(base + 1, green);
            frame.set(base + 2, blue);
            frame.set(base + 3, 0xff);
            i = i + 1;
        }
        proof {
            assert(frame@ =~= frame_of(self.state@));
        }
    }
}

} // verus!
