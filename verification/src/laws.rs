use vstd::prelude::*;

use crate::window::Direction;
use crate::window::WindowView;
use crate::window::spec_eol_offset;

verus! {

/// On an empty buffer every directional command is a no-op.
pub proof fn lemma_move_on_empty_is_noop(s: WindowView, direction: Direction)
    requires
        s.wf(),
        s.lines.len() == 0,
    ensures
        s.moved(direction) == s,
{
}

/// `Up` with the cursor on the top viewport row and no rows scrolled off
/// above is a no-op.
pub proof fn lemma_up_at_top_is_noop(s: WindowView)
    requires
        s.wf(),
        s.offset_y == 0,
        s.cursor_y == 0,
    ensures
        s.moved(Direction::Up) == s,
{
}

/// `Down` with the cursor on the last line of the buffer is a no-op.
pub proof fn lemma_down_at_last_line_is_noop(s: WindowView)
    requires
        s.wf(),
        s.lines.len() > 0,
        s.abs_row() == s.lines.len() - 1,
    ensures
        s.moved(Direction::Down) == s,
{
}

/// `Left` at absolute column 0 of the first line is a no-op.
pub proof fn lemma_left_at_buffer_start_is_noop(s: WindowView)
    requires
        s.wf(),
        s.abs_row() == 0,
        s.abs_col() == 0,
    ensures
        s.moved(Direction::Left) == s,
{
}

/// `Right` at the end of the last line of the buffer is a no-op.
pub proof fn lemma_right_at_buffer_end_is_noop(s: WindowView)
    requires
        s.wf(),
        s.lines.len() > 0,
        s.abs_row() == s.lines.len() - 1,
        s.abs_col() == s.cur_len(),
    ensures
        s.moved(Direction::Right) == s,
{
}

/// Wrap round trip: `Right` at the end of a line that has a successor
/// wraps to the start of that next line, and an immediate `Left` comes
/// back to the same end-of-line position — same buffer row, same buffer
/// column, still at the end of the line.  When the cursor was not on the
/// bottom viewport row and the horizontal scroll was the canonical
/// end-of-line scroll, the whole state returns exactly.
pub proof fn lemma_right_wrap_left_round_trip(s: WindowView)
    requires
        s.wf(),
        s.lines.len() > 0,
        s.abs_row() + 1 < s.lines.len(),
        s.abs_col() == s.cur_len(),
    ensures
        s.moved(Direction::Right).moved(Direction::Left).abs_row() == s.abs_row(),
        s.moved(Direction::Right).moved(Direction::Left).abs_col() == s.abs_col(),
        s.moved(Direction::Right).moved(Direction::Left).cur_len() == s.cur_len(),
        s.moved(Direction::Right).moved(Direction::Left).lines == s.lines,
        s.moved(Direction::Right).moved(Direction::Left).width == s.width,
        s.moved(Direction::Right).moved(Direction::Left).height == s.height,
        (s.cursor_y + 1 < s.height && s.offset_x == spec_eol_offset(s.cur_len(), s.width))
            ==> s.moved(Direction::Right).moved(Direction::Left) == s,
{
}

/// Horizontal clamp after a vertical move: the cursor never ends past the
/// end of the line it lands on; and the horizontal scroll ends at zero
/// when the new line fits strictly inside the viewport, provided there
/// was no horizontal scroll to begin with or the clamp had to reposition
/// the cursor.
pub proof fn lemma_vertical_clamp(s: WindowView, direction: Direction)
    requires
        s.wf(),
        s.lines.len() > 0,
        direction == Direction::Up || direction == Direction::Down,
    ensures
        s.moved(direction).abs_col() <= s.moved(direction).cur_len(),
        s.offset_x == 0 && s.moved(direction).cur_len() < s.width ==> s.moved(
            direction,
        ).offset_x == 0,
        s.abs_col() > s.moved(direction).cur_len() && s.moved(direction).cur_len() < s.width
            ==> s.moved(direction).offset_x == 0,
{
}

} // verus!
