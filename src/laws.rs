use vstd::prelude::*;

use crate::app::{apply_move, Move};
use crate::nav::{max_col, NavState};

verus! {

/// The state after the moves of `moves`, in order.
pub open spec fn run_moves(s: NavState, moves: Seq<Move>) -> NavState
    decreases moves.len(),
{
    if moves.len() == 0 {
        s
    } else {
        run_moves(apply_move(s, moves[0]), moves.drop_first())
    }
}

/// Every single move keeps the viewport consistent.
pub proof fn lemma_move_keeps_inv(s: NavState, m: Move)
    requires
        s.inv(),
    ensures
        apply_move(s, m).inv(),
{
}

/// After any sequence of moves the scroll offset is not negative, the
/// cursor's row is inside the window, and the row under the cursor is a
/// row of the listing.
pub proof fn lemma_moves_keep_cursor_in_listing(s: NavState, moves: Seq<Move>)
    requires
        s.inv(),
    ensures
        run_moves(s, moves).inv(),
        0 <= run_moves(s, moves).index,
        run_moves(s, moves).index + run_moves(s, moves).row < s.widths.len(),
        run_moves(s, moves).row < s.height,
        run_moves(s, moves).widths == s.widths,
        run_moves(s, moves).height == s.height,
    decreases moves.len(),
{
    if moves.len() > 0 {
        lemma_move_keeps_inv(s, moves[0]);
        lemma_moves_keep_cursor_in_listing(apply_move(s, moves[0]), moves.drop_first());
    }
}

/// Moving down onto a narrower row and back up puts the cursor back on the
/// row it left, in the column it had there.
pub proof fn lemma_sticky_column_round_trip(s: NavState)
    requires
        s.inv(),
        s.current() + 1 < s.widths.len(),
        s.widths[s.current() + 1] < s.widths[s.current()],
    ensures
        s.down().up().current() == s.current(),
        s.down().up().col == s.col,
        s.down().up().stored_col == s.stored_col,
{
}

/// Jumping to the first line puts the cursor on listing row 0 with no
/// scrolling; jumping to the last line then puts it on the listing's last
/// row, unscrolled where the listing fits the window and scrolled so that
/// the last row is the window's last otherwise.
pub proof fn lemma_first_then_last_line(s: NavState)
    requires
        s.inv(),
    ensures
        s.first_line().inv(),
        s.first_line().current() == 0,
        s.first_line().index == 0,
        s.first_line().last_line().inv(),
        s.first_line().last_line().current() == s.widths.len() - 1,
        s.first_line().last_line().index == (if s.widths.len() <= s.height {
            0
        } else {
            s.widths.len() - s.height
        }),
{
}

/// A move against a boundary changes nothing: up on the first row, down on
/// the last, left in column 0, right in the last column.
pub proof fn lemma_moves_at_boundary(s: NavState)
    requires
        s.inv(),
    ensures
        s.current() == 0 ==> s.up() == s,
        s.current() == s.widths.len() - 1 ==> s.down() == s,
        s.col == 0 ==> s.left() == s,
        s.col == max_col(s.widths[s.current()]) ==> s.right() == s,
{
}

/// A resize keeps the scroll offset; a cursor row that no longer fits moves
/// to the window's new last row, any other stays.
pub proof fn lemma_resize_keeps_offset(s: NavState, height: int)
    requires
        s.inv(),
        height >= 1,
    ensures
        s.resized(height).inv(),
        s.resized(height).index == s.index,
        s.resized(height).height == height,
        s.row >= height ==> s.resized(height).row == height - 1,
        s.row < height ==> s.resized(height).row == s.row,
{
}

} // verus!
