//! The text grid writer: 25 rows of 80 coloured cells, written at the bottom
//! row and scrolled up on each new line.
use vstd::prelude::*;
use vstd::string::StringSliceAdditionalSpecFns;

verus! {

/// The sixteen text-mode colours.
#[derive(Debug, Clone, Copy, PartialEq, Eq, Structural)]
pub enum Color {
    Black,
    Blue,
    Green,
    Cyan,
    Red,
    Magenta,
    Brown,
    LightGray,
    DarkGray,
    LightBlue,
    LightGreen,
    LightCyan,
    LightRed,
    Pink,
    Yellow,
    White,
}

impl Color {
    /// The colour's four-bit hardware number.
    pub open spec fn spec_value(self) -> u8 {
        match self {
            Color::Black => 0,
            Color::Blue => 1,
            Color::Green => 2,
            Color::Cyan => 3,
            Color::Red => 4,
            Color::Magenta => 5,
            Color::Brown => 6,
            Color::LightGray => 7,
            Color::DarkGray => 8,
            Color::LightBlue => 9,
            Color::LightGreen => 10,
            Color::LightCyan => 11,
            Color::LightRed => 12,
            Color::Pink => 13,
            Color::Yellow => 14,
            Color::White => 15,
        }
    }

    pub fn value(self) -> (r: u8)
        ensures
            r == self.spec_value(),
            r < 16,
    {
        match self {
            Color::Black => 0,
            Color::Blue => 1,
            Color::Green => 2,
            Color::Cyan => 3,
            Color::Red => 4,
            Color::Magenta => 5,
            Color::Brown => 6,
            Color::LightGray => 7,
            Color::DarkGray => 8,
            Color::LightBlue => 9,
            Color::LightGreen => 10,
            Color::LightCyan => 11,
            Color::LightRed => 12,
            Color::Pink => 13,
            Color::Yellow => 14,
            Color::White => 15,
        }
    }
}

/// A cell's attribute byte: background in the high four bits, foreground in
/// the low four.
#[derive(Debug, Clone, Copy, PartialEq, Eq, Structural)]
pub struct ColorCode(pub u8);

impl ColorCode {
    pub fn new(foreground: Color, background: Color) -> (r: ColorCode)
        ensures
            r.0 == background.spec_value() * 16 + foreground.spec_value(),
    {
        let f = foreground.value();
        let b = background.value();
        assert((b << 4u8) | f == b * 16 + f) by (bit_vector)
            requires
                b < 16,
                f < 16,
        ;
        ColorCode((b << 4u8) | f)
    }
}

/// One cell of the grid: a byte of code page 437 and its colours.
#[derive(Debug, Clone, Copy, PartialEq, Eq, Structural)]
pub struct ScreenChar {
    pub ascii_char: u8,
    pub color_code: ColorCode,
}

/// Rows of the grid.
pub const BUFFER_HEIGHT: usize = 25;

/// Columns of the grid.
pub const BUFFER_WIDTH: usize = 80;

/// Cells of the grid, row after row.
pub const BUFFER_CELLS: usize = 2000;

/// The byte shown for one that the grid cannot display.
pub const REPLACEMENT_BYTE: u8 = 0xfe;

/// What a writer holds, as mathematics: the column of the next cell on the
/// bottom row, the colours it writes with, and the cells row after row.
pub struct Screen {
    pub column: nat,
    pub color: ColorCode,
    pub cells: Seq<ScreenChar>,
}

pub open spec fn blank(color: ColorCode) -> ScreenChar {
    ScreenChar { ascii_char: 0x20, color_code: color }
}

/// Every row moves up by one, the top row is lost, the bottom row is blank,
/// and writing starts again at column 0.
pub open spec fn scrolled(s: Screen) -> Screen {
    Screen {
        column: 0,
        color: s.color,
        cells: Seq::new(
            BUFFER_CELLS as nat,
            |i: int|
                if i < (BUFFER_CELLS - BUFFER_WIDTH) as int {
                    s.cells[i + BUFFER_WIDTH]
                } else {
                    blank(s.color)
                },
        ),
    }
}

/// The screen after one byte: a newline scrolls; any other byte goes into
/// the next cell of the bottom row, scrolling first when that row is full.
pub open spec fn put(s: Screen, byte: u8) -> Screen {
    if byte == 0x0a {
        scrolled(s)
    } else {
        let t = if s.column >= BUFFER_WIDTH { scrolled(s) } else { s };
        Screen {
            column: t.column + 1,
            color: t.color,
            cells: t.cells.update(
                (BUFFER_CELLS - BUFFER_WIDTH) + t.column,
                ScreenChar { ascii_char: byte, color_code: t.color },
            ),
        }
    }
}

/// The byte written for `byte` of a string: printable ASCII and newline as
/// they are, anything else as the replacement block.
pub open spec fn shown(byte: u8) -> u8 {
    if (0x20 <= byte && byte <= 0x7e) || byte == 0x0a {
        byte
    } else {
        REPLACEMENT_BYTE
    }
}

/// The screen after the bytes of a string, one after another.
pub open spec fn put_all(s: Screen, bytes: Seq<u8>) -> Screen
    decreases bytes.len(),
{
    if bytes.len() == 0 {
        s
    } else {
        put(put_all(s, bytes.drop_last()), shown(bytes.last()))
    }
}

/// A writer of text into the grid, at the bottom row.
pub struct Writer {
    column_position: usize,
    color_code: ColorCode,
    buffer: Vec<ScreenChar>,
}

impl View for Writer {
    type V = Screen;

    closed spec fn view(&self) -> Screen {
        Screen { column: self.column_position as nat, color: self.color_code, cells: self.buffer@ }
    }
}

impl Writer {
    pub open spec fn wf(&self) -> bool {
        &&& self@.cells.len() == BUFFER_CELLS
        &&& self@.column <= BUFFER_WIDTH
    }

    /// A writer over a blank grid, at the start of the bottom row.
    pub fn new(color_code: ColorCode) -> (r: Writer)
        ensures
            r.wf(),
            r@.column == 0,
            r@.color == color_code,
            r@.cells == Seq::new(BUFFER_CELLS as nat, |i: int| blank(color_code)),
    {
        let mut buffer: Vec<ScreenChar> = Vec::new();
        while buffer.len() < BUFFER_CELLS
            invariant
                buffer@.len() <= BUFFER_CELLS,
                forall|i: int| 0 <= i < buffer@.len() ==> buffer@[i] == blank(color_code),
            decreases BUFFER_CELLS - buffer@.len(),
        {
            buffer.push(ScreenChar { ascii_char: 0x20, color_code });
        }
        let r = Writer { column_position: 0, color_code, buffer };
        assert(r@.cells =~= Seq::new(BUFFER_CELLS as nat, |i: int| blank(color_code)));
        r
    }

    /// The column of the next cell on the bottom row.
    pub fn column_position(&self) -> (r: usize)
        ensures
            r == self@.column,
    {
        self.column_position
    }

    /// The colours the writer writes with.
    pub fn color_code(&self) -> (r: ColorCode)
        ensures
            r == self@.color,
    {
        self.color_code
    }

    /// The cell at `row`, `col`.
    pub fn cell(&self, row: usize, col: usize) -> (r: ScreenChar)
        requires
            self.wf(),
            row < BUFFER_HEIGHT,
            col < BUFFER_WIDTH,
        ensures
            r == self@.cells[row * BUFFER_WIDTH + col],
    {
        assert(row * BUFFER_WIDTH + col < BUFFER_CELLS) by (nonlinear_arith)
            requires
                row < BUFFER_HEIGHT,
                col < BUFFER_WIDTH,
        ;
        self.buffer[row * BUFFER_WIDTH + col]
    }

    /// Writes one byte: a newline scrolls, any other byte fills the next
    /// cell of the bottom row.
    pub fn write_byte(&mut self, byte: u8)
        requires
            old(self).wf(),
        ensures
            final(self).wf(),
            final(self)@ == put(old(self)@, byte),
    {
        if byte == 0x0a {
            self.new_line();
        } else {
            if self.column_position >= BUFFER_WIDTH {
                self.new_line();
            }
            let row: usize = BUFFER_HEIGHT - 1;
            let col: usize = self.column_position;
            let color_code = self.color_code;
            self.buffer.set(row * BUFFER_WIDTH + col, ScreenChar { ascii_char: byte, color_code });
            self.column_position = self.column_position + 1;
        }
    }

    /// Moves every row up by one and starts a blank bottom row.
    fn new_line(&mut self)
        requires
            old(self).wf(),
        ensures
            final(self).wf(),
            final(self)@ == scrolled(old(self)@),
    {
        let ghost before = self.buffer@;
        let mut i: usize = 0;
        while i < BUFFER_CELLS - BUFFER_WIDTH
            invariant
                i <= BUFFER_CELLS - BUFFER_WIDTH,
                self.buffer@.len() == BUFFER_CELLS,
                self.column_position == old(self).column_position,
                self.color_code == old(self).color_code,
                before == old(self).buffer@,
                forall|j: int| 0 <= j < i ==> self.buffer@[j] == before[j + BUFFER_WIDTH],
                forall|j: int| i <= j < BUFFER_CELLS ==> self.buffer@[j] == before[j],
            decreases BUFFER_CELLS - BUFFER_WIDTH - i,
        {
            let c = self.buffer[i + BUFFER_WIDTH];
            self.buffer.set(i, c);
            i = i + 1;
        }
        self.clear_row(BUFFER_HEIGHT - 1);
        self.column_position = 0;
        assert(self.buffer@ =~= scrolled(old(self)@).cells);
    }

    /// Fills `row` with blanks in the writer's colours.
    fn clear_row(&mut self, row: usize)
        requires
            old(self).buffer@.len() == BUFFER_CELLS,
            row < BUFFER_HEIGHT,
        ensures
            final(self).buffer@.len() == BUFFER_CELLS,
            final(self).column_position == old(self).column_position,
            final(self).color_code == old(self).color_code,
            forall|j: int|
                0 <= j < BUFFER_CELLS ==> final(self).buffer@[j] == if row * BUFFER_WIDTH <= j < row
                    * BUFFER_WIDTH + BUFFER_WIDTH {
                    blank(old(self).color_code)
                } else {
                    old(self).buffer@[j]
                },
    {
        let blank_cell = ScreenChar { ascii_char: 0x20, color_code: self.color_code };
        let start: usize = row * BUFFER_WIDTH;
        let mut col: usize = 0;
        while col < BUFFER_WIDTH
            invariant
                col <= BUFFER_WIDTH,
                start == row * BUFFER_WIDTH,
                start + BUFFER_WIDTH <= BUFFER_CELLS,
                blank_cell == blank(old(self).color_code),
                self.buffer@.len() == BUFFER_CELLS,
                self.column_position == old(self).column_position,
                self.color_code == old(self).color_code,
                forall|j: int|
                    0 <= j < BUFFER_CELLS ==> self.buffer@[j] == if start <= j < start + col {
                        blank_cell
                    } else {
                        old(self).buffer@[j]
                    },
            decreases BUFFER_WIDTH - col,
        {
            self.buffer.set(start + col, blank_cell);
            col = col + 1;
        }
    }

    /// Writes the bytes of `s`, showing each byte that is neither printable
    /// ASCII nor a newline as the replacement block.
    pub fn write_string(&mut self, s: &str)
        requires
            old(self).wf(),
        ensures
            final(self).wf(),
            final(self)@ == put_all(old(self)@, s.spec_bytes()),
    {
        let bytes = s.as_bytes();
        let mut i: usize = 0;
        while i < bytes.len()
            invariant
                i <= bytes@.len(),
                bytes@ == s.spec_bytes(),
                self.wf(),
                self@ == put_all(old(self)@, bytes@.subrange(0, i as int)),
            decreases bytes@.len() - i,
        {
            let byte = bytes[i];
            if (0x20 <= byte && byte <= 0x7e) || byte == 0x0a {
                self.write_byte(byte);
            } else {
                self.write_byte(REPLACEMENT_BYTE);
            }
            assert(bytes@.subrange(0, i + 1).drop_last() =~= bytes@.subrange(0, i as int));
            i = i + 1;
        }
        assert(bytes@.subrange(0, bytes@.len() as int) =~= bytes@);
    }
}

/// A line that fits one row and holds printable ASCII only.
pub open spec fn printable_line(line: Seq<u8>) -> bool {
    &&& line.len() <= BUFFER_WIDTH
    &&& forall|i: int| 0 <= i < line.len() ==> 0x20 <= #[trigger] line[i] && line[i] <= 0x7e
}

/// A row showing `line`, then blanks, in `color`.
pub open spec fn padded_row(line: Seq<u8>, color: ColorCode) -> Seq<ScreenChar> {
    Seq::new(
        BUFFER_WIDTH as nat,
        |c: int|
            if c < line.len() {
                ScreenChar { ascii_char: line[c], color_code: color }
            } else {
                blank(color)
            },
    )
}

/// Whether the bottom row of `s` is blank in its colours.
pub open spec fn bottom_blank(s: Screen) -> bool {
    forall|c: int|
        0 <= c < BUFFER_WIDTH ==> #[trigger] s.cells[(BUFFER_CELLS - BUFFER_WIDTH) + c] == blank(
            s.color,
        )
}

/// `line` followed by a newline, `n` times.
pub open spec fn repeated_line(line: Seq<u8>, n: nat) -> Seq<u8>
    decreases n,
{
    if n == 0 {
        Seq::empty()
    } else {
        repeated_line(line, (n - 1) as nat) + line.push(0x0a)
    }
}

/// Writing `a` and then `b` leaves the screen as writing `a + b` does, so
/// successive writes compose.
pub proof fn lemma_put_all_concat(s: Screen, a: Seq<u8>, b: Seq<u8>)
    ensures
        put_all(s, a + b) == put_all(put_all(s, a), b),
    decreases b.len(),
{
    if b.len() == 0 {
        assert(a + b =~= a);
    } else {
        assert((a + b).drop_last() =~= a + b.drop_last());
        assert((a + b).last() == b.last());
        lemma_put_all_concat(s, a, b.drop_last());
    }
}

proof fn lemma_put_line(s: Screen, line: Seq<u8>)
    requires
        s.cells.len() == BUFFER_CELLS,
        s.column == 0,
        printable_line(line),
    ensures
        put_all(s, line).column == line.len(),
        put_all(s, line).color == s.color,
        put_all(s, line).cells.len() == BUFFER_CELLS,
        forall|i: int|
            0 <= i < BUFFER_CELLS ==> #[trigger] put_all(s, line).cells[i] == if (BUFFER_CELLS
                - BUFFER_WIDTH) <= i < (BUFFER_CELLS - BUFFER_WIDTH) + line.len() {
                ScreenChar { ascii_char: line[i - (BUFFER_CELLS - BUFFER_WIDTH)], color_code: s.color }
            } else {
                s.cells[i]
            },
    decreases line.len(),
{
    if line.len() > 0 {
        let prefix = line.drop_last();
        assert(printable_line(prefix)) by {
            assert forall|i: int| 0 <= i < prefix.len() implies 0x20 <= #[trigger] prefix[i]
                && prefix[i] <= 0x7e by {
                assert(prefix[i] == line[i]);
            }
        }
        lemma_put_line(s, prefix);
        assert(0x20 <= line[line.len() - 1]);
    }
}

proof fn lemma_line_scrolls_in(s: Screen, line: Seq<u8>)
    requires
        s.cells.len() == BUFFER_CELLS,
        s.column == 0,
        printable_line(line),
    ensures
        put_all(s, line.push(0x0a)).column == 0,
        put_all(s, line.push(0x0a)).color == s.color,
        put_all(s, line.push(0x0a)).cells.len() == BUFFER_CELLS,
        bottom_blank(s) ==> bottom_blank(put_all(s, line.push(0x0a))),
        forall|i: int|
            0 <= i < BUFFER_CELLS - 2 * BUFFER_WIDTH ==> #[trigger] put_all(s, line.push(0x0a)).cells[i]
                == s.cells[i + BUFFER_WIDTH],
        bottom_blank(s) ==> forall|c: int|
            0 <= c < BUFFER_WIDTH ==> #[trigger] put_all(s, line.push(0x0a)).cells[(BUFFER_CELLS - 2
                * BUFFER_WIDTH) + c] == padded_row(line, s.color)[c],
{
    assert(line.push(0x0a).drop_last() =~= line);
    lemma_put_line(s, line);
    let t = put_all(s, line);
    let u = put_all(s, line.push(0x0a));
    assert(u == scrolled(t));
    if bottom_blank(s) {
        assert forall|c: int| 0 <= c < BUFFER_WIDTH implies #[trigger] u.cells[(BUFFER_CELLS - 2
            * BUFFER_WIDTH) + c] == padded_row(line, s.color)[c] by {
            assert(t.cells[(BUFFER_CELLS - BUFFER_WIDTH) + c] == s.cells[(BUFFER_CELLS - BUFFER_WIDTH) + c]
                || (BUFFER_CELLS - BUFFER_WIDTH) + c < (BUFFER_CELLS - BUFFER_WIDTH) + line.len());
        }
    }
}

/// Writing the same printable line and a newline `n` times, from the start
/// of a blank bottom row, scrolls the line in row by row and garbles nothing:
/// row `r` above the bottom then shows the line if `r + n` reaches the bottom
/// row, else what row `r + n` showed before; the bottom row is blank and the
/// next byte goes to its first cell. So from 24 lines on, every row above the
/// bottom shows exactly that line.
pub proof fn repeated_lines_scroll_in_whole(s: Screen, line: Seq<u8>, n: nat)
    requires
        s.cells.len() == BUFFER_CELLS,
        s.column == 0,
        bottom_blank(s),
        printable_line(line),
    ensures
        put_all(s, repeated_line(line, n)).column == 0,
        put_all(s, repeated_line(line, n)).color == s.color,
        put_all(s, repeated_line(line, n)).cells.len() == BUFFER_CELLS,
        bottom_blank(put_all(s, repeated_line(line, n))),
        forall|r: int, c: int|
            0 <= r < BUFFER_HEIGHT - 1 && 0 <= c < BUFFER_WIDTH ==> #[trigger] put_all(
                s,
                repeated_line(line, n),
            ).cells[r * BUFFER_WIDTH + c] == if r + n >= BUFFER_HEIGHT - 1 {
                padded_row(line, s.color)[c]
            } else {
                s.cells[(r + n) * BUFFER_WIDTH + c]
            },
    decreases n,
{
    if n > 0 {
        let m = (n - 1) as nat;
        repeated_lines_scroll_in_whole(s, line, m);
        let t = put_all(s, repeated_line(line, m));
        lemma_put_all_concat(s, repeated_line(line, m), line.push(0x0a));
        lemma_line_scrolls_in(t, line);
        let u = put_all(s, repeated_line(line, n));
        assert(u == put_all(t, line.push(0x0a)));
        assert forall|r: int, c: int| 0 <= r < BUFFER_HEIGHT - 1 && 0 <= c < BUFFER_WIDTH implies #[trigger] u.cells[r
            * BUFFER_WIDTH + c] == if r + n >= BUFFER_HEIGHT - 1 {
            padded_row(line, s.color)[c]
        } else {
            s.cells[(r + n) * BUFFER_WIDTH + c]
        } by {
            if r < BUFFER_HEIGHT - 2 {
                assert(r * BUFFER_WIDTH + c + BUFFER_WIDTH == (r + 1) * BUFFER_WIDTH + c);
                assert((r + 1 + m) * BUFFER_WIDTH + c == (r + n) * BUFFER_WIDTH + c);
                assert(u.cells[r * BUFFER_WIDTH + c] == t.cells[(r + 1) * BUFFER_WIDTH + c]);
            } else {
                assert(r * BUFFER_WIDTH + c == (BUFFER_CELLS - 2 * BUFFER_WIDTH) + c);
            }
        }
    }
}

} // verus!
