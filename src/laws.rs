//! Properties of the writer's model that hold for every state and input.

use vstd::prelude::*;

use crate::vga_buffer::{
    blank_cell, display_byte, displayed, is_displayable, lemma_put_bytes_wf, ScreenChar,
    WriterView, ASCII_END, ASCII_START, ASCII_UNKNOWN, BUFFER_ALL_HEIGHT, BUFFER_HEIGHT,
    BUFFER_WIDTH, NEWLINE,
};

verus! {

/// Writing any bytes keeps the cursor within bounds: the column never
/// passes the row's end and the row stays inside the store; the window
/// stays within the store as well.
pub proof fn lemma_writes_keep_cursor_in_bounds(s: WriterView, bs: Seq<u8>)
    requires
        s.wf(),
    ensures
        s.put_bytes(bs).wf(),
        0 <= s.put_bytes(bs).column <= BUFFER_WIDTH,
        0 <= s.put_bytes(bs).row < BUFFER_ALL_HEIGHT,
{
    lemma_put_bytes_wf(s, bs);
}

/// A byte other than the newline is stored in a column before the row's end,
/// just left of the new cursor. On a full row the line wraps first, and the
/// byte goes to column 0 of the new line.
pub proof fn lemma_wrap_before_place(s: WriterView, b: u8)
    requires
        s.wf(),
        b != NEWLINE,
    ensures
        1 <= s.put_byte(b).column <= BUFFER_WIDTH,
        s.put_byte(b).cell(s.put_byte(b).row, s.put_byte(b).column - 1) == (ScreenChar {
            ascii_character: b,
            color_code: s.color_code,
        }),
        s.column >= BUFFER_WIDTH ==> s.put_byte(b).column == 1 && s.put_byte(b).row
            == s.new_line().row,
        s.column < BUFFER_WIDTH ==> s.put_byte(b).column == s.column + 1 && s.put_byte(b).row
            == s.row,
{
}

/// The state after a series of window moves, `true` for up and `false` for
/// down.
pub open spec fn after_window_moves(s: WriterView, moves: Seq<bool>) -> WriterView
    decreases moves.len(),
{
    if moves.len() == 0 {
        s
    } else {
        let t = after_window_moves(s, moves.drop_last());
        if moves.last() {
            t.window_up()
        } else {
            t.window_down()
        }
    }
}

/// Any series of window moves keeps the window's first row within
/// `[0, BUFFER_ALL_HEIGHT - BUFFER_HEIGHT]`, and leaves the cursor and the
/// store as they were.
pub proof fn lemma_window_stays_clamped(s: WriterView, moves: Seq<bool>)
    requires
        s.wf(),
    ensures
        after_window_moves(s, moves).wf(),
        0 <= after_window_moves(s, moves).row_start <= BUFFER_ALL_HEIGHT - BUFFER_HEIGHT,
        after_window_moves(s, moves).store == s.store,
        after_window_moves(s, moves).row == s.row,
        after_window_moves(s, moves).column == s.column,
    decreases moves.len(),
{
    if moves.len() > 0 {
        lemma_window_stays_clamped(s, moves.drop_last());
    }
}

/// Moving the window up from the top, or down from the bottom, changes
/// nothing but the screen, which shows the same window; when the screen
/// already showed it, nothing changes at all.
pub proof fn lemma_window_moves_stop_at_edges(s: WriterView)
    requires
        s.wf(),
    ensures
        s.row_start == 0 ==> s.window_up() == s.rendered(),
        s.row_start == BUFFER_ALL_HEIGHT - BUFFER_HEIGHT ==> s.window_down() == s.rendered(),
        s.row_start == 0 && s.screen == s.visible() ==> s.window_up() == s,
        s.row_start == BUFFER_ALL_HEIGHT - BUFFER_HEIGHT && s.screen == s.visible()
            ==> s.window_down() == s,
{
}

/// After a render, every cell `(r, c)` of the screen is the store's cell
/// `(row_start + r, c)`.
pub proof fn lemma_render_fidelity(s: WriterView)
    requires
        s.wf(),
    ensures
        s.rendered().screen.len() == BUFFER_HEIGHT * BUFFER_WIDTH,
        forall|r: int, c: int|
            0 <= r < BUFFER_HEIGHT && 0 <= c < BUFFER_WIDTH ==> #[trigger] s.rendered().screen_cell(
                r,
                c,
            ) == s.cell(s.row_start + r, c),
{
}

/// A text of printable bytes and newlines is written exactly as given.
pub proof fn lemma_displayable_text_written_as_is(s: WriterView, bs: Seq<u8>)
    requires
        forall|i: int| 0 <= i < bs.len() ==> is_displayable(#[trigger] bs[i]),
    ensures
        displayed(bs) == bs,
        s.written(bs) == s.put_bytes(bs).rendered(),
{
    assert(displayed(bs) =~= bs);
}

/// Any other byte is written as the placeholder glyph, which differs from the
/// byte unless it is the placeholder itself.
pub proof fn lemma_other_bytes_become_placeholder(b: u8)
    requires
        !is_displayable(b),
    ensures
        display_byte(b) == ASCII_UNKNOWN,
        b != ASCII_UNKNOWN ==> display_byte(b) != b,
{
}

/// Printable bytes that fit in the rest of the row are stored in order from
/// the cursor on, and leave the cursor just after them on the same row.
pub proof fn lemma_text_lands_in_order(s: WriterView, bs: Seq<u8>)
    requires
        s.wf(),
        s.column + bs.len() <= BUFFER_WIDTH,
        forall|i: int| 0 <= i < bs.len() ==> ASCII_START <= #[trigger] bs[i] <= ASCII_END,
    ensures
        s.put_bytes(bs).wf(),
        s.put_bytes(bs).row == s.row,
        s.put_bytes(bs).row_start == s.row_start,
        s.put_bytes(bs).column == s.column + bs.len(),
        s.put_bytes(bs).color_code == s.color_code,
        forall|i: int|
            0 <= i < bs.len() ==> #[trigger] s.put_bytes(bs).cell(s.row, s.column + i) == (
            ScreenChar { ascii_character: bs[i], color_code: s.color_code }),
    decreases bs.len(),
{
    if bs.len() > 0 {
        let front = bs.drop_last();
        lemma_text_lands_in_order(s, front);
        let t = s.put_bytes(front);
        assert forall|i: int| 0 <= i < bs.len() implies #[trigger] s.put_bytes(bs).cell(
            s.row,
            s.column + i,
        ) == (ScreenChar { ascii_character: bs[i], color_code: s.color_code }) by {
            if i < bs.len() - 1 {
                assert(front[i] == bs[i]);
                assert(t.cell(s.row, s.column + i) == (ScreenChar {
                    ascii_character: front[i],
                    color_code: s.color_code,
                }));
            }
        }
    }
}

/// When the cursor stands on the store's last row, a new line drops row 0,
/// moves every other row up by one and leaves the last row blank; the cursor
/// stays on the last row at column 0 and the window is pinned to the bottom.
pub proof fn lemma_overflow_shift(s: WriterView)
    requires
        s.wf(),
        s.row == BUFFER_ALL_HEIGHT - 1,
    ensures
        s.new_line().wf(),
        forall|r: int, c: int|
            0 <= r < BUFFER_ALL_HEIGHT - 1 && 0 <= c < BUFFER_WIDTH ==> #[trigger] s.new_line().cell(
                r,
                c,
            ) == s.cell(r + 1, c),
        forall|c: int|
            0 <= c < BUFFER_WIDTH ==> #[trigger] s.new_line().cell(BUFFER_ALL_HEIGHT - 1, c)
                == blank_cell(),
        s.new_line().row == BUFFER_ALL_HEIGHT - 1,
        s.new_line().column == 0,
        s.new_line().row_start == BUFFER_ALL_HEIGHT - BUFFER_HEIGHT,
{
}

} // verus!
