//! VGA text mode: the colour encoding stored with every character, and
//! the writer that fills the last row of the screen and scrolls it. The
//! writer here owns its screen contents as plain state, so every write
//! and scroll is stated and proved over it; platform code mirrors the
//! same moves onto the memory-mapped hardware buffer with volatile
//! stores.

use vstd::prelude::*;

verus! {

/// The sixteen VGA text-mode colours.
#[derive(Clone, Copy, Debug, PartialEq, Eq, Structural)]
pub enum Color {
    Black,
    Blue,
    Green,
    Cyan,
    Red,
    Magenta,
    Brown,
    LightGray,
    DarkGray,
    LightBlue,
    LightGreen,
    LightCyan,
    LightRed,
    Pink,
    Yellow,
    White,
}

impl Color {
    /// The colour's hardware code.
    pub open spec fn spec_code(self) -> u8 {
        match self {
            Color::Black => 0,
            Color::Blue => 1,
            Color::Green => 2,
            Color::Cyan => 3,
            Color::Red => 4,
            Color::Magenta => 5,
            Color::Brown => 6,
            Color::LightGray => 7,
            Color::DarkGray => 8,
            Color::LightBlue => 9,
            Color::LightGreen => 10,
            Color::LightCyan => 11,
            Color::LightRed => 12,
            Color::Pink => 13,
            Color::Yellow => 14,
            Color::White => 15,
        }
    }

    /// The colour's hardware code, below sixteen.
    pub fn code(self) -> (r: u8)
        ensures
            r == self.spec_code(),
            r < 16,
    {
        match self {
            Color::Black => 0,
            Color::Blue => 1,
            Color::Green => 2,
            Color::Cyan => 3,
            Color::Red => 4,
            Color::Magenta => 5,
            Color::Brown => 6,
            Color::LightGray => 7,
            Color::DarkGray => 8,
            Color::LightBlue => 9,
            Color::LightGreen => 10,
            Color::LightCyan => 11,
            Color::LightRed => 12,
            Color::Pink => 13,
            Color::Yellow => 14,
            Color::White => 15,
        }
    }
}

/// A character's display attribute: foreground colour in the low nibble,
/// background colour in the high one.
#[derive(Clone, Copy, Debug, PartialEq, Eq, Structural)]
pub struct ColorCode(pub u8);

impl ColorCode {
    /// Packs a foreground and a background colour into one attribute
    /// byte.
    pub fn new(foreground: Color, background: Color) -> (r: ColorCode)
        ensures
            r.0 == background.spec_code() * 16 + foreground.spec_code(),
    {
        let bg = background.code();
        let fg = foreground.code();
        proof {
            let b = bg;
            let f = fg;
            assert((b << 4u32) | f == b * 16 + f) by (bit_vector)
                requires
                    b < 16 && f < 16,
            ;
        }
        ColorCode((bg << 4) | fg)
    }
}

/// Number of text rows on the screen.
pub const BUFFER_HEIGHT: usize = 25;

/// Number of text columns on the screen.
pub const BUFFER_WIDTH: usize = 80;

/// One character cell: the byte shown and its colour attribute.
#[derive(Clone, Copy, Debug, PartialEq, Eq, Structural)]
pub struct ScreenChar {
    /// The code-page-437 byte shown.
    pub ascii_character: u8,
    /// The cell's colour attribute.
    pub color_code: ColorCode,
}

/// A blank cell in the writer's colour.
pub open spec fn blank_cell(color: ColorCode) -> ScreenChar {
    ScreenChar { ascii_character: 32u8, color_code: color }
}

/// Writes characters into the last row of the screen, scrolling every
/// row up by one on a newline or when the row fills. The screen contents
/// are held row-major, row 0 first.
pub struct Writer {
    /// The column the next character lands in, on the last row.
    pub column_position: usize,
    /// The colour every written character gets.
    pub color_code: ColorCode,
    /// The screen contents, row-major.
    pub buffer: Vec<ScreenChar>,
}

/// `post` is `pre` scrolled up by one row: each row takes the contents of
/// the row below it, the last row is blanked, and the cursor returns to
/// the first column.
pub open spec fn scrolled(pre: Writer, post: Writer) -> bool {
    &&& post.buffer@.len() == pre.buffer@.len()
    &&& forall|i: int|
        0 <= i < (BUFFER_HEIGHT - 1) * BUFFER_WIDTH ==> post.buffer@[i] == pre.buffer@[i
            + BUFFER_WIDTH]
    &&& forall|i: int|
        (BUFFER_HEIGHT - 1) * BUFFER_WIDTH <= i < BUFFER_HEIGHT * BUFFER_WIDTH
            ==> post.buffer@[i] == blank_cell(pre.color_code)
    &&& post.column_position == 0
    &&& post.color_code == pre.color_code
}

/// `post` is `pre` with `byte` written at column `col` of the last row
/// and the cursor advanced past it.
pub open spec fn wrote_at(pre: Writer, post: Writer, col: int, byte: u8) -> bool {
    &&& post.buffer@ == pre.buffer@.update(
        (BUFFER_HEIGHT - 1) * BUFFER_WIDTH + col,
        ScreenChar { ascii_character: byte, color_code: pre.color_code },
    )
    &&& post.column_position == col + 1
    &&& post.color_code == pre.color_code
}

/// What one `write_byte` call does: a newline scrolls; an ordinary byte
/// lands at the cursor, after a scroll if the last row was already full.
pub open spec fn wrote_byte(pre: Writer, post: Writer, byte: u8) -> bool {
    if byte == 10u8 {
        scrolled(pre, post)
    } else if pre.column_position < BUFFER_WIDTH {
        wrote_at(pre, post, pre.column_position as int, byte)
    } else {
        exists|mid: Writer| #[trigger] scrolled(pre, mid) && wrote_at(mid, post, 0, byte)
    }
}

/// The byte a character is displayed as: printable ASCII and newline pass
/// through; anything else becomes the replacement glyph of code page 437.
pub open spec fn spec_displayed_byte(b: u8) -> u8 {
    if (0x20 <= b <= 0x7e) || b == 10u8 {
        b
    } else {
        0xfeu8
    }
}

/// What a whole `write_string` call does: each byte of the string is
/// written in turn, unprintable ones as the replacement glyph.
pub open spec fn wrote_string(pre: Writer, post: Writer, s: Seq<u8>) -> bool
    decreases s.len(),
{
    if s.len() == 0 {
        post == pre
    } else {
        exists|mid: Writer|
            #[trigger] wrote_byte(pre, mid, spec_displayed_byte(s[0])) && wrote_string(
                mid,
                post,
                s.drop_first(),
            )
    }
}

/// Writing one more byte extends a byte-by-byte trace by one step.
proof fn lemma_wrote_string_step(pre: Writer, mid: Writer, post: Writer, s: Seq<u8>, b: u8)
    requires
        wrote_string(pre, mid, s),
        wrote_byte(mid, post, spec_displayed_byte(b)),
    ensures
        wrote_string(pre, post, s.push(b)),
    decreases s.len(),
{
    if s.len() == 0 {
        assert(s.push(b).drop_first() =~= Seq::<u8>::empty());
        assert(wrote_string(post, post, s.push(b).drop_first()));
        assert(s.push(b)[0] == b);
    } else {
        let m1 = choose|m1: Writer|
            #[trigger] wrote_byte(pre, m1, spec_displayed_byte(s[0])) && wrote_string(
                m1,
                mid,
                s.drop_first(),
            );
        lemma_wrote_string_step(m1, mid, post, s.drop_first(), b);
        assert(s.push(b).drop_first() =~= s.drop_first().push(b));
        assert(s.push(b)[0] == s[0]);
    }
}

impl Writer {
    /// The screen has its fixed size and the cursor never passes one past
    /// the last column.
    pub open spec fn wf(self) -> bool {
        &&& self.buffer@.len() == BUFFER_HEIGHT * BUFFER_WIDTH
        &&& self.column_position <= BUFFER_WIDTH
    }

    /// A blank screen writing in the given colours.
    pub fn new(foreground: Color, background: Color) -> (r: Writer)
        ensures
            r.wf(),
            r.column_position == 0,
            forall|i: int|
                0 <= i < BUFFER_HEIGHT * BUFFER_WIDTH ==> r.buffer@[i] == blank_cell(r.color_code),
    {
        let color_code = ColorCode::new(foreground, background);
        let mut buffer: Vec<ScreenChar> = Vec::new();
        let mut i: usize = 0;
        while i < BUFFER_HEIGHT * BUFFER_WIDTH
            invariant
                i <= BUFFER_HEIGHT * BUFFER_WIDTH,
                buffer@.len() == i,
                forall|j: int| 0 <= j < i ==> buffer@[j] == blank_cell(color_code),
            decreases BUFFER_HEIGHT * BUFFER_WIDTH - i,
        {
            buffer.push(ScreenChar { ascii_character: 32u8, color_code });
            i = i + 1;
        }
        Writer { column_position: 0, color_code, buffer }
    }

    /// Blanks one row.
    pub fn clear_row(&mut self, row: usize)
        requires
            old(self).wf(),
            row < BUFFER_HEIGHT,
        ensures
            final(self).wf(),
            final(self).column_position == old(self).column_position,
            final(self).color_code == old(self).color_code,
            final(self).buffer@.len() == old(self).buffer@.len(),
            forall|i: int|
                row * BUFFER_WIDTH <= i < (row + 1) * BUFFER_WIDTH ==> final(self).buffer@[i]
                    == blank_cell(old(self).color_code),
            forall|i: int|
                0 <= i < old(self).buffer@.len() && !(row * BUFFER_WIDTH <= i < (row + 1)
                    * BUFFER_WIDTH) ==> final(self).buffer@[i] == old(self).buffer@[i],
    {
        let blank = ScreenChar { ascii_character: 32u8, color_code: self.color_code };
        let mut col: usize = 0;
        while col < BUFFER_WIDTH
            invariant
                old(self).wf(),
                row < BUFFER_HEIGHT,
                col <= BUFFER_WIDTH,
                blank == blank_cell(old(self).color_code),
                self.column_position == old(self).column_position,
                self.color_code == old(self).color_code,
                self.buffer@.len() == old(self).buffer@.len(),
                forall|i: int|
                    row * BUFFER_WIDTH <= i < row * BUFFER_WIDTH + col ==> self.buffer@[i]
                        == blank_cell(old(self).color_code),
                forall|i: int|
                    0 <= i < old(self).buffer@.len() && !(row * BUFFER_WIDTH <= i < row
                        * BUFFER_WIDTH + col) ==> self.buffer@[i] == old(self).buffer@[i],
            decreases BUFFER_WIDTH - col,
        {
            let p = &mut self.buffer[row * BUFFER_WIDTH + col];
            *p = blank;
            col = col + 1;
        }
    }

    /// Scrolls the screen up one row and blanks the last row.
    pub fn new_line(&mut self)
        requires
            old(self).wf(),
        ensures
            final(self).wf(),
            scrolled(*old(self), *final(self)),
    {
        let mut i: usize = BUFFER_WIDTH;
        while i < BUFFER_HEIGHT * BUFFER_WIDTH
            invariant
                old(self).wf(),
                BUFFER_WIDTH <= i <= BUFFER_HEIGHT * BUFFER_WIDTH,
                self.column_position == old(self).column_position,
                self.color_code == old(self).color_code,
                self.buffer@.len() == old(self).buffer@.len(),
                forall|j: int|
                    0 <= j < i - BUFFER_WIDTH ==> self.buffer@[j] == old(self).buffer@[j
                        + BUFFER_WIDTH],
                forall|j: int|
                    i - BUFFER_WIDTH <= j < old(self).buffer@.len() ==> self.buffer@[j] == old(
                        self,
                    ).buffer@[j],
            decreases BUFFER_HEIGHT * BUFFER_WIDTH - i,
        {
            let c = self.buffer[i];
            let p = &mut self.buffer[i - BUFFER_WIDTH];
            *p = c;
            i = i + 1;
        }
        self.clear_row(BUFFER_HEIGHT - 1);
        self.column_position = 0;
    }

    /// Writes one byte: a newline scrolls, anything else lands at the
    /// cursor on the last row — after a scroll if that row was full.
    pub fn write_byte(&mut self, byte: u8)
        requires
            old(self).wf(),
        ensures
            final(self).wf(),
            wrote_byte(*old(self), *final(self), byte),
    {
        if byte == 10u8 {
            self.new_line();
        } else {
            if self.column_position >= BUFFER_WIDTH {
                self.new_line();
            }
            let ghost mid = *self;
            let row = BUFFER_HEIGHT - 1;
            let col = self.column_position;
            let color_code = self.color_code;
            let p = &mut self.buffer[row * BUFFER_WIDTH + col];
            *p = ScreenChar { ascii_character: byte, color_code };
            self.column_position = self.column_position + 1;
            proof {
                assert(wrote_at(mid, *self, mid.column_position as int, byte));
            }
        }
    }

    /// Writes a string byte by byte, replacing unprintable bytes with the
    /// replacement glyph of code page 437.
    pub fn write_string(&mut self, s: &[u8])
        requires
            old(self).wf(),
        ensures
            final(self).wf(),
            wrote_string(*old(self), *final(self), s@),
    {
        let mut k: usize = 0;
        proof {
            assert(s@.take(0) =~= Seq::<u8>::empty());
        }
        while k < s.len()
            invariant
                old(self).wf(),
                self.wf(),
                k <= s@.len(),
                wrote_string(*old(self), *self, s@.take(k as int)),
            decreases s@.len() - k,
        {
            let ghost pre_step = *self;
            let byte = s[k];
            if (0x20 <= byte && byte <= 0x7e) || byte == 10u8 {
                self.write_byte(byte);
            } else {
                self.write_byte(0xfe);
            }
            proof {
                lemma_wrote_string_step(
                    *old(self),
                    pre_step,
                    *self,
                    s@.take(k as int),
                    s@[k as int],
                );
                assert(s@.take(k as int).push(s@[k as int]) =~= s@.take(k + 1));
            }
            k = k + 1;
        }
        proof {
            assert(s@.take(s@.len() as int) =~= s@);
        }
    }
}

} // verus!
