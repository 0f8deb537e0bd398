use vstd::prelude::*;

use vstd::string::StringSliceAdditionalSpecFns;

use crate::color::{color_code_of, Color, ColorCode};

verus! {

/// Columns of the screen and of the scrollback store.
pub const BUFFER_WIDTH: usize = 80;

/// Rows of the screen, the height of the window.
pub const BUFFER_HEIGHT: usize = 25;

/// How many windows of history the scrollback store keeps.
pub const BUFFER_MUL: usize = 16;

/// Rows of the scrollback store.
pub const BUFFER_ALL_HEIGHT: usize = BUFFER_HEIGHT * BUFFER_MUL;

/// First printable byte.
pub const ASCII_START: u8 = 0x20;

/// Last printable byte.
pub const ASCII_END: u8 = 0x7e;

/// Glyph stored in place of any byte outside the printable range.
pub const ASCII_UNKNOWN: u8 = 0xfe;

/// The byte that ends a line; it is consumed, never stored.
pub const NEWLINE: u8 = 0x0a;

/// Foreground of every written cell.
pub const COLOR_FOREGROUND: Color = Color::LightGreen;

/// Background of every written cell.
pub const COLOR_BACKGROUND: Color = Color::Black;

/// One display cell: a character and its color attribute.
#[derive(Debug, Clone, Copy, PartialEq, Eq, Structural)]
pub struct ScreenChar {
    pub ascii_character: u8,
    pub color_code: ColorCode,
}

/// The default attribute: light green on black.
pub open spec fn default_color_code() -> ColorCode {
    ColorCode(color_code_of(COLOR_FOREGROUND, COLOR_BACKGROUND))
}

/// A space in the default attribute.
pub open spec fn blank_cell() -> ScreenChar {
    ScreenChar { ascii_character: 0x20, color_code: default_color_code() }
}

/// A whole row of blank cells.
pub open spec fn blank_row() -> Seq<ScreenChar> {
    Seq::new(BUFFER_WIDTH as nat, |i: int| blank_cell())
}

/// Whether a byte is stored as it is: printable, or the newline.
pub open spec fn is_displayable(b: u8) -> bool {
    (ASCII_START <= b && b <= ASCII_END) || b == NEWLINE
}

/// The byte that a string byte is written as.
pub open spec fn display_byte(b: u8) -> u8 {
    if is_displayable(b) {
        b
    } else {
        ASCII_UNKNOWN
    }
}

/// The bytes that a string is written as, one for one.
pub open spec fn displayed(bs: Seq<u8>) -> Seq<u8> {
    bs.map_values(|b: u8| display_byte(b))
}

/// The state of a writer: cursor, window, attribute, scrollback store and
/// screen image. Both the store and the screen are kept row-major: the cell
/// at `(row, col)` stands at index `row * BUFFER_WIDTH + col`.
pub struct WriterView {
    pub column: int,
    pub row: int,
    pub row_start: int,
    pub color_code: ColorCode,
    pub store: Seq<ScreenChar>,
    pub screen: Seq<ScreenChar>,
}

impl WriterView {
    /// Cursor and window within bounds, store and screen of their full size.
    pub open spec fn wf(self) -> bool {
        &&& 0 <= self.column <= BUFFER_WIDTH
        &&& 0 <= self.row < BUFFER_ALL_HEIGHT
        &&& 0 <= self.row_start <= BUFFER_ALL_HEIGHT - BUFFER_HEIGHT
        &&& self.store.len() == BUFFER_ALL_HEIGHT * BUFFER_WIDTH
        &&& self.screen.len() == BUFFER_HEIGHT * BUFFER_WIDTH
    }

    /// The store's cell at `(row, col)`.
    pub open spec fn cell(self, row: int, col: int) -> ScreenChar {
        self.store[row * BUFFER_WIDTH + col]
    }

    /// The screen's cell at `(row, col)`.
    pub open spec fn screen_cell(self, row: int, col: int) -> ScreenChar {
        self.screen[row * BUFFER_WIDTH + col]
    }

    /// The rows of the store that the window shows.
    pub open spec fn visible(self) -> Seq<ScreenChar> {
        self.store.subrange(
            self.row_start * BUFFER_WIDTH,
            (self.row_start + BUFFER_HEIGHT) * BUFFER_WIDTH,
        )
    }

    /// The same state with the screen showing the window.
    pub open spec fn rendered(self) -> WriterView {
        WriterView { screen: self.visible(), ..self }
    }

    /// Ends the current line. On the store's last row every row moves up by
    /// one, the first is lost, the last becomes blank and the window is
    /// pinned to the bottom; otherwise the cursor goes down one row and the
    /// window follows when the cursor stood on its last row. The screen is
    /// rendered either way.
    pub open spec fn new_line(self) -> WriterView {
        if self.row >= BUFFER_ALL_HEIGHT - 1 {
            WriterView {
                column: 0,
                row_start: BUFFER_ALL_HEIGHT - BUFFER_HEIGHT,
                store: self.store.subrange(BUFFER_WIDTH as int, self.store.len() as int)
                    + blank_row(),
                ..self
            }.rendered()
        } else {
            WriterView {
                column: 0,
                row: self.row + 1,
                row_start: if self.row - self.row_start >= BUFFER_HEIGHT - 1 {
                    self.row_start + 1
                } else {
                    self.row_start
                },
                ..self
            }.rendered()
        }
    }

    /// Writes one byte at the cursor: a newline ends the line; any other byte
    /// first wraps to a new line when the row is full, then is stored at the
    /// cursor, which moves one column right. The screen is not rendered but by
    /// a new line.
    pub open spec fn put_byte(self, b: u8) -> WriterView {
        if b == NEWLINE {
            self.new_line()
        } else {
            let s = if self.column >= BUFFER_WIDTH {
                self.new_line()
            } else {
                self
            };
            WriterView {
                column: s.column + 1,
                store: s.store.update(
                    s.row * BUFFER_WIDTH + s.column,
                    ScreenChar { ascii_character: b, color_code: s.color_code },
                ),
                ..s
            }
        }
    }

    /// Writes the bytes one after another.
    pub open spec fn put_bytes(self, bs: Seq<u8>) -> WriterView
        decreases bs.len(),
    {
        if bs.len() == 0 {
            self
        } else {
            self.put_bytes(bs.drop_last()).put_byte(bs.last())
        }
    }

    /// Writes a string's bytes, each replaced by its displayed byte, then
    /// renders the screen.
    pub open spec fn written(self, bs: Seq<u8>) -> WriterView {
        self.put_bytes(displayed(bs)).rendered()
    }

    /// Writes a string with the cursor set to `(row, col)` for the time of the
    /// write, `row` counted from the store's top when `abs`, else from the
    /// window's; the cursor is then put back. A column past the last one
    /// stands for the last one plus one: both wrap before the first byte.
    pub open spec fn written_at(self, abs: bool, row: int, col: int, bs: Seq<u8>) -> WriterView {
        let moved = WriterView {
            row: if abs {
                row
            } else {
                self.row_start + row
            },
            column: if col < BUFFER_WIDTH {
                col
            } else {
                BUFFER_WIDTH as int
            },
            ..self
        };
        WriterView { row: self.row, column: self.column, ..moved.written(bs) }
    }

    /// The window moved up one row, stopping at the top; screen rendered.
    pub open spec fn window_up(self) -> WriterView {
        WriterView {
            row_start: if self.row_start <= 0 {
                0
            } else {
                self.row_start - 1
            },
            ..self
        }.rendered()
    }

    /// The window moved down one row, stopping at the bottom; screen rendered.
    pub open spec fn window_down(self) -> WriterView {
        WriterView {
            row_start: if self.row_start >= BUFFER_ALL_HEIGHT - BUFFER_HEIGHT {
                BUFFER_ALL_HEIGHT - BUFFER_HEIGHT
            } else {
                self.row_start + 1
            },
            ..self
        }.rendered()
    }
}

/// A fresh writer: cursor and window at the top, every cell blank.
pub open spec fn initial_view() -> WriterView {
    WriterView {
        column: 0,
        row: 0,
        row_start: 0,
        color_code: default_color_code(),
        store: Seq::new((BUFFER_ALL_HEIGHT * BUFFER_WIDTH) as nat, |i: int| blank_cell()),
        screen: Seq::new((BUFFER_HEIGHT * BUFFER_WIDTH) as nat, |i: int| blank_cell()),
    }
}

/// Ending a line keeps a well-formed state well-formed.
pub proof fn lemma_new_line_wf(s: WriterView)
    requires
        s.wf(),
    ensures
        s.new_line().wf(),
{
}

/// Writing a byte keeps a well-formed state well-formed.
pub proof fn lemma_put_byte_wf(s: WriterView, b: u8)
    requires
        s.wf(),
    ensures
        s.put_byte(b).wf(),
{
    lemma_new_line_wf(s);
}

/// Writing bytes keeps a well-formed state well-formed.
pub proof fn lemma_put_bytes_wf(s: WriterView, bs: Seq<u8>)
    requires
        s.wf(),
    ensures
        s.put_bytes(bs).wf(),
    decreases bs.len(),
{
    if bs.len() > 0 {
        lemma_put_bytes_wf(s, bs.drop_last());
        lemma_put_byte_wf(s.put_bytes(bs.drop_last()), bs.last());
    }
}


/// A text writer over a scrollback store many screens tall. Text goes into
/// the store at the cursor; the screen image shows the window of it, and is
/// what the display is refreshed from.
pub struct Writer {
    column_position: usize,
    row_position: usize,
    row_start: usize,
    color_code: ColorCode,
    screen: Vec<ScreenChar>,
    buffer: Vec<ScreenChar>,
}

impl View for Writer {
    type V = WriterView;

    closed spec fn view(&self) -> WriterView {
        WriterView {
            column: self.column_position as int,
            row: self.row_position as int,
            row_start: self.row_start as int,
            color_code: self.color_code,
            store: self.buffer@,
            screen: self.screen@,
        }
    }
}

/// A space in the default attribute.
fn blank_char() -> (r: ScreenChar)
    ensures
        r == blank_cell(),
{
    ScreenChar {
        ascii_character: 0x20,
        color_code: ColorCode::new(COLOR_FOREGROUND, COLOR_BACKGROUND),
    }
}

/// A row of `n` blank cells.
fn blank_cells(n: usize) -> (r: Vec<ScreenChar>)
    ensures
        r@ == Seq::new(n as nat, |i: int| blank_cell()),
{
    let blank = blank_char();
    let mut v: Vec<ScreenChar> = Vec::new();
    let mut i: usize = 0;
    while i < n
        invariant
            i <= n,
            blank == blank_cell(),
            v@ == Seq::new(i as nat, |j: int| blank_cell()),
        decreases n - i,
    {
        v.push(blank);
        i += 1;
        assert(v@ =~= Seq::new(i as nat, |j: int| blank_cell()));
    }
    v
}

/// The byte that a string byte is written as: itself when printable or a
/// newline, the placeholder glyph otherwise.
fn filter_byte(b: u8) -> (r: u8)
    ensures
        r == display_byte(b),
{
    if (ASCII_START <= b && b <= ASCII_END) || b == NEWLINE {
        b
    } else {
        ASCII_UNKNOWN
    }
}

impl Writer {
    /// A writer with the cursor and window at the top and every cell blank.
    pub fn new() -> (w: Writer)
        ensures
            w@ == initial_view(),
            w@.wf(),
    {
        Writer {
            column_position: 0,
            row_position: 0,
            row_start: 0,
            color_code: ColorCode::new(COLOR_FOREGROUND, COLOR_BACKGROUND),
            screen: blank_cells(BUFFER_HEIGHT * BUFFER_WIDTH),
            buffer: blank_cells(BUFFER_ALL_HEIGHT * BUFFER_WIDTH),
        }
    }

    /// Copies the window's rows of the store into the screen image.
    fn update(&mut self)
        requires
            old(self)@.wf(),
        ensures
            final(self)@ == old(self)@.rendered(),
    {
        let base = self.row_start * BUFFER_WIDTH;
        let n = BUFFER_HEIGHT * BUFFER_WIDTH;
        let mut i: usize = 0;
        while i < n
            invariant
                self@.wf(),
                i <= n,
                n == BUFFER_HEIGHT * BUFFER_WIDTH,
                base == self.row_start * BUFFER_WIDTH,
                self.column_position == old(self).column_position,
                self.row_position == old(self).row_position,
                self.row_start == old(self).row_start,
                self.color_code == old(self).color_code,
                self.buffer@ == old(self).buffer@,
                forall|j: int| 0 <= j < i ==> self.screen@[j] == self.buffer@[base + j],
            decreases n - i,
        {
            let c = self.buffer[base + i];
            self.screen.set(i, c);
            i += 1;
        }
        assert(self.screen@ =~= old(self)@.visible());
    }

    /// Moves the window up one row, unless it is at the top, and renders.
    pub fn move_window_up(&mut self)
        requires
            old(self)@.wf(),
        ensures
            final(self)@ == old(self)@.window_up(),
            final(self)@.wf(),
    {
        if self.row_start == 0 {
            self.row_start = 0;
        } else {
            self.row_start -= 1;
        }
        self.update();
    }

    /// Moves the window down one row, unless it is at the bottom, and renders.
    pub fn move_window_down(&mut self)
        requires
            old(self)@.wf(),
        ensures
            final(self)@ == old(self)@.window_down(),
            final(self)@.wf(),
    {
        if self.row_start >= BUFFER_ALL_HEIGHT - BUFFER_HEIGHT {
            self.row_start = BUFFER_ALL_HEIGHT - BUFFER_HEIGHT;
        } else {
            self.row_start += 1;
        }
        self.update();
    }

    /// Writes one byte at the cursor; see `WriterView::put_byte`.
    pub fn write_byte(&mut self, byte: u8)
        requires
            old(self)@.wf(),
        ensures
            final(self)@ == old(self)@.put_byte(byte),
            final(self)@.wf(),
    {
        proof {
            lemma_put_byte_wf(self@, byte);
        }
        if byte == NEWLINE {
            self.new_line();
        } else {
            if self.column_position >= BUFFER_WIDTH {
                self.new_line();
            }
            let row = self.row_position;
            let col = self.column_position;
            let color_code = self.color_code;
            self.buffer.set(
                row * BUFFER_WIDTH + col,
                ScreenChar { ascii_character: byte, color_code },
            );
            self.column_position += 1;
        }
    }

    /// Ends the current line; see `WriterView::new_line`.
    fn new_line(&mut self)
        requires
            old(self)@.wf(),
        ensures
            final(self)@ == old(self)@.new_line(),
            final(self)@.wf(),
    {
        proof {
            lemma_new_line_wf(self@);
        }
        self.column_position = 0;
        if self.row_position >= BUFFER_ALL_HEIGHT - 1 {
            self.row_start = BUFFER_ALL_HEIGHT - BUFFER_HEIGHT;
            let ghost before = self.buffer@;
            let n = BUFFER_ALL_HEIGHT * BUFFER_WIDTH;
            let mut i: usize = BUFFER_WIDTH;
            while i < n
                invariant
                    BUFFER_WIDTH <= i <= n,
                    n == BUFFER_ALL_HEIGHT * BUFFER_WIDTH,
                    before.len() == n,
                    self.buffer@.len() == n,
                    self.column_position == 0,
                    self.row_position == old(self).row_position,
                    self.row_start == BUFFER_ALL_HEIGHT - BUFFER_HEIGHT,
                    self.color_code == old(self).color_code,
                    self.screen@ == old(self).screen@,
                    before == old(self).buffer@,
                    forall|j: int| 0 <= j < i - BUFFER_WIDTH ==> self.buffer@[j] == before[j + BUFFER_WIDTH],
                    forall|j: int| i - BUFFER_WIDTH <= j < n ==> self.buffer@[j] == before[j],
                decreases n - i,
            {
                let character = self.buffer[i];
                self.buffer.set(i - BUFFER_WIDTH, character);
                i += 1;
            }
            self.clear_row(BUFFER_ALL_HEIGHT - 1);
            assert(self.buffer@ =~= before.subrange(BUFFER_WIDTH as int, n as int) + blank_row());
            self.update();
            return;
        }
        if self.row_position >= self.row_start + (BUFFER_HEIGHT - 1) {
            self.row_start += 1;
        }
        self.row_position += 1;
        self.update();
    }

    /// Writes a string at the cursor, each byte replaced by its displayed
    /// byte, then renders the screen.
    pub fn write_string(&mut self, s: &str)
        requires
            old(self)@.wf(),
        ensures
            final(self)@ == old(self)@.written(s.spec_bytes()),
            final(self)@.wf(),
    {
        let bytes = s.as_bytes();
        let ghost shown = displayed(bytes@);
        let mut i: usize = 0;
        while i < bytes.len()
            invariant
                i <= bytes@.len(),
                bytes@ == s.spec_bytes(),
                shown == displayed(bytes@),
                self@.wf(),
                self@ == old(self)@.put_bytes(shown.take(i as int)),
            decreases bytes@.len() - i,
        {
            let byte = filter_byte(bytes[i]);
            self.write_byte(byte);
            proof {
                assert(shown.take(i + 1).drop_last() =~= shown.take(i as int));
            }
            i += 1;
        }
        assert(shown.take(i as int) =~= shown);
        self.update();
    }

    /// Writes a string with the cursor moved to `(row, col)` for the time of
    /// the write, `row` counted from the store's top when `abs`, else from the
    /// window's top; the cursor is then put back where it was.
    pub fn write_at(&mut self, abs: bool, row: usize, col: usize, s: &str)
        requires
            old(self)@.wf(),
            (if abs {
                0
            } else {
                old(self)@.row_start
            }) + row < BUFFER_ALL_HEIGHT,
        ensures
            final(self)@ == old(self)@.written_at(abs, row as int, col as int, s.spec_bytes()),
            final(self)@.wf(),
    {
        let prev_row = self.row_position;
        let prev_col = self.column_position;
        self.row_position = (if abs {
            0
        } else {
            self.row_start
        }) + row;
        // Any column past the row's end wraps before the first byte, as the
        // end itself does.
        self.column_position = if col < BUFFER_WIDTH {
            col
        } else {
            BUFFER_WIDTH
        };
        self.write_string(s);
        self.row_position = prev_row;
        self.column_position = prev_col;
    }

    /// The cursor's column.
    pub fn column_position(&self) -> (r: usize)
        ensures
            r == self@.column,
    {
        self.column_position
    }

    /// The cursor's row in the store.
    pub fn row_position(&self) -> (r: usize)
        ensures
            r == self@.row,
    {
        self.row_position
    }

    /// The store row shown on the screen's first row.
    pub fn row_start(&self) -> (r: usize)
        ensures
            r == self@.row_start,
    {
        self.row_start
    }

    /// The attribute that written characters get.
    pub fn color_code(&self) -> (r: ColorCode)
        ensures
            r == self@.color_code,
    {
        self.color_code
    }

    /// The store's cell at `(row, col)`.
    pub fn char_at(&self, row: usize, col: usize) -> (r: ScreenChar)
        requires
            self@.wf(),
            row < BUFFER_ALL_HEIGHT,
            col < BUFFER_WIDTH,
        ensures
            r == self@.cell(row as int, col as int),
    {
        self.buffer[row * BUFFER_WIDTH + col]
    }

    /// The screen image's cell at `(row, col)`.
    pub fn screen_char_at(&self, row: usize, col: usize) -> (r: ScreenChar)
        requires
            self@.wf(),
            row < BUFFER_HEIGHT,
            col < BUFFER_WIDTH,
        ensures
            r == self@.screen_cell(row as int, col as int),
    {
        self.screen[row * BUFFER_WIDTH + col]
    }

    /// Fills a row of the store with blank cells.
    fn clear_row(&mut self, row: usize)
        requires
            row < BUFFER_ALL_HEIGHT,
            old(self).buffer@.len() == BUFFER_ALL_HEIGHT * BUFFER_WIDTH,
        ensures
            final(self).buffer@.len() == old(self).buffer@.len(),
            forall|j: int|
                row * BUFFER_WIDTH <= j < (row + 1) * BUFFER_WIDTH ==> final(self).buffer@[j]
                    == blank_cell(),
            forall|j: int|
                0 <= j < final(self).buffer@.len() && !(row * BUFFER_WIDTH <= j < (row + 1)
                    * BUFFER_WIDTH) ==> final(self).buffer@[j] == old(self).buffer@[j],
            final(self).column_position == old(self).column_position,
            final(self).row_position == old(self).row_position,
            final(self).row_start == old(self).row_start,
            final(self).color_code == old(self).color_code,
            final(self).screen@ == old(self).screen@,
    {
        let blank_char = blank_char();
        let base = row * BUFFER_WIDTH;
        let mut col: usize = 0;
        while col < BUFFER_WIDTH
            invariant
                col <= BUFFER_WIDTH,
                base == row * BUFFER_WIDTH,
                row < BUFFER_ALL_HEIGHT,
                self.buffer@.len() == old(self).buffer@.len(),
                self.buffer@.len() == BUFFER_ALL_HEIGHT * BUFFER_WIDTH,
                blank_char == blank_cell(),
                forall|j: int| base <= j < base + col ==> self.buffer@[j] == blank_cell(),
                forall|j: int|
                    0 <= j < self.buffer@.len() && !(base <= j < base + col) ==> self.buffer@[j]
                        == old(self).buffer@[j],
                self.column_position == old(self).column_position,
                self.row_position == old(self).row_position,
                self.row_start == old(self).row_start,
                self.color_code == old(self).color_code,
                self.screen@ == old(self).screen@,
            decreases BUFFER_WIDTH - col,
        {
            self.buffer.set(base + col, blank_char);
            col += 1;
        }
    }
}
} // verus!
