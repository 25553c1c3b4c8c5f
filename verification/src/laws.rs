//! General laws of the grid model, each proved once and for all over the
//! spec-level functions that the executable contracts speak of.

use vstd::prelude::*;
use crate::life::{advance, frame_of, live_at, neighbor_count, one_if_live};

verus! {

/// Law: one generation step never changes the number of cells.
pub proof fn lemma_advance_preserves_len(s: Seq<bool>, w: int)
    ensures
        advance(s, w).len() == s.len(),
{
}

/// Law: a live cell survives a step exactly when it has two or three live
/// neighbors; with any other count it dies.
pub proof fn lemma_live_cell_rule(s: Seq<bool>, w: int, i: int)
    requires
        0 <= i < s.len(),
        s[i],
    ensures
        advance(s, w)[i] <==> (neighbor_count(s, w, i) == 2 || neighbor_count(s, w, i) == 3),
{
}

/// Law: a dead cell becomes live in a step exactly when it has three live
/// neighbors; otherwise it stays dead.
pub proof fn lemma_dead_cell_rule(s: Seq<bool>, w: int, i: int)
    requires
        0 <= i < s.len(),
        !s[i],
    ensures
        advance(s, w)[i] <==> neighbor_count(s, w, i) == 3,
{
}

/// Law: the step is a pure function of the grid alone: equal grids step to
/// equal grids, so stepping twice from the same state gives the same result.
pub proof fn lemma_advance_deterministic(s1: Seq<bool>, s2: Seq<bool>, w: int)
    requires
        s1 == s2,
    ensures
        advance(s1, w) == advance(s2, w),
{
}

/// Law: the all-dead grid is a fixed point of the step.
pub proof fn lemma_all_dead_fixed_point(s: Seq<bool>, w: int)
    requires
        forall|i: int| 0 <= i < s.len() ==> !s[i],
    ensures
        advance(s, w) == s,
{
    assert forall|i: int| 0 <= i < s.len() implies advance(s, w)[i] == s[i] by {
        assert(!live_at(s, i - w - 1));
        assert(!live_at(s, i - w));
        assert(!live_at(s, i - w + 1));
        assert(!live_at(s, i - 1));
        assert(!live_at(s, i + 1));
        assert(!live_at(s, i + w - 1));
        assert(!live_at(s, i + w));
        assert(!live_at(s, i + w + 1));
        assert(neighbor_count(s, w, i) == 0);
    }
    assert(advance(s, w) =~= s);
}

/// Law: rasterizing an all-dead grid yields the opaque black pixel
/// `(0, 0, 0, 0xff)` repeated once per cell.
pub proof fn lemma_frame_all_dead(s: Seq<bool>)
    requires
        forall|i: int| 0 <= i < s.len() ==> !s[i],
    ensures
        frame_of(s).len() == 4 * s.len(),
        forall|k: int| 0 <= k < 4 * s.len() ==>
            frame_of(s)[k] == (if k % 4 == 3 { 0xffu8 } else { 0x00u8 }),
{
    assert forall|k: int| 0 <= k < 4 * s.len() implies
        frame_of(s)[k] == (if k % 4 == 3 { 0xffu8 } else { 0x00u8 }) by {
        assert(0 <= k / 4 < s.len()) by (nonlinear_arith)
            requires 0 <= k < 4 * s.len();
        assert(!s[k / 4]);
    }
}

/// Law: rasterizing an all-live grid yields the opaque purple pixel
/// `(0x5e, 0x48, 0xe8, 0xff)` repeated once per cell.
pub proof fn lemma_frame_all_live(s: Seq<bool>)
    requires
        forall|i: int| 0 <= i < s.len() ==> s[i],
    ensures
        frame_of(s).len() == 4 * s.len(),
        forall|k: int| 0 <= k < 4 * s.len() ==> frame_of(s)[k] == (
            if k % 4 == 0 { 0x5eu8 } else if k % 4 == 1 { 0x48u8 }
            else if k % 4 == 2 { 0xe8u8 } else { 0xffu8 }
        ),
{
    assert forall|k: int| 0 <= k < 4 * s.len() implies
        frame_of(s)[k] == (
            if k % 4 == 0 { 0x5eu8 } else if k % 4 == 1 { 0x48u8 }
            else if k % 4 == 2 { 0xe8u8 } else { 0xffu8 }
        ) by {
        assert(0 <= k / 4 < s.len()) by (nonlinear_arith)
            requires 0 <= k < 4 * s.len();
        assert(s[k / 4]);
    }
}

/// Law (boundary quirk, kept deliberately): when the only live cell is the
/// first cell of the second row, flat index `w`, then the last cell of the
/// first row, flat index `w - 1`, counts exactly one live neighbor — even
/// though the two cells sit in different rows and are not adjacent on the
/// rectangle.  The neighbor test bounds the flat index only and never clips
/// at a row boundary.
pub proof fn lemma_edge_adjacency_quirk(s: Seq<bool>, w: int)
    requires
        3 <= w,
        w + 1 <= s.len(),
        s[w],
        forall|i: int| 0 <= i < s.len() && i != w ==> !s[i],
    ensures
        neighbor_count(s, w, w - 1) == 1,
{
    let idx = w - 1;
    assert(one_if_live(s, idx - w - 1) == 0);
    assert(one_if_live(s, idx - w) == 0);
    assert(one_if_live(s, idx - w + 1) == 0);
    assert(one_if_live(s, idx - 1) == 0);
    assert(one_if_live(s, idx + 1) == 1);
    assert(one_if_live(s, idx + w - 1) == 0);
    assert(one_if_live(s, idx + w) == 0);
    assert(one_if_live(s, idx + w + 1) == 0);
}

} // verus!
