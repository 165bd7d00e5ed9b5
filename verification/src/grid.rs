//! Cells of the 5x5 board and lookups in short lists of them.

use vstd::prelude::*;

verus! {

/// Whether a cell lies on the 5x5 board.
pub open spec fn on_board(c: (u8, u8)) -> bool {
    c.0 < 5 && c.1 < 5
}

/// The row-major position of a cell of the board.
pub open spec fn cell_index(c: (u8, u8)) -> int {
    c.1 as int * 5 + c.0 as int
}

/// The cell at row-major position `k`.
pub open spec fn cell_at(k: int) -> (u8, u8) {
    ((k % 5) as u8, (k / 5) as u8)
}

/// Whether two cells are the same.
pub fn same_cell(p: (u8, u8), q: (u8, u8)) -> (r: bool)
    ensures
        r == (p == q),
{
    p.0 == q.0 && p.1 == q.1
}

/// Whether `p` occurs in `cells`.
pub fn cell_in(cells: &[(u8, u8)], p: (u8, u8)) -> (r: bool)
    ensures
        r == cells@.contains(p),
{
    let mut i: usize = 0;
    while i < cells.len()
        invariant
            0 <= i <= cells@.len(),
            forall|j: int| 0 <= j < i ==> cells@[j] != p,
        decreases cells@.len() - i,
    {
        if same_cell(cells[i], p) {
            assert(cells@[i as int] == p);
            return true;
        }
        i = i + 1;
    }
    false
}

} // verus!
