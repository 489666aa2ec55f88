//! Model of the text-mode display the handlers print diagnostics to.
//!
//! The real device is a memory-mapped 25-by-80 grid of character cells;
//! here the grid is owned data, so every write, line shift and clear is
//! verified against the view [`ScreenState`]. The unverified shell copies
//! the grid into the device's memory.

use vstd::prelude::*;
use vstd::string::StringSliceAdditionalSpecFns;

verus! {

/// Height of the text buffer in rows.
pub const TEXT_BUFFER_HEIGHT: usize = 25;

/// Width of the text buffer in columns.
pub const TEXT_BUFFER_WIDTH: usize = 80;

/// The sixteen standard text-mode colors.
#[derive(Debug, Clone, Copy, PartialEq, Eq, Structural)]
pub enum Color {
    Black,
    Blue,
    Green,
    Cyan,
    Red,
    Magenta,
    Brown,
    LightGray,
    DarkGray,
    LightBlue,
    LightGreen,
    LightCyan,
    LightRed,
    Pink,
    Yellow,
    White,
}

/// The wire value of a color.
pub open spec fn color_value(c: Color) -> u8 {
    match c {
        Color::Black => 0,
        Color::Blue => 1,
        Color::Green => 2,
        Color::Cyan => 3,
        Color::Red => 4,
        Color::Magenta => 5,
        Color::Brown => 6,
        Color::LightGray => 7,
        Color::DarkGray => 8,
        Color::LightBlue => 9,
        Color::LightGreen => 10,
        Color::LightCyan => 11,
        Color::LightRed => 12,
        Color::Pink => 13,
        Color::Yellow => 14,
        Color::White => 15,
    }
}

impl Color {
    /// The wire value of this color.
    pub fn as_u8(self) -> (r: u8)
        ensures
            r == color_value(self),
    {
        match self {
            Color::Black => 0,
            Color::Blue => 1,
            Color::Green => 2,
            Color::Cyan => 3,
            Color::Red => 4,
            Color::Magenta => 5,
            Color::Brown => 6,
            Color::LightGray => 7,
            Color::DarkGray => 8,
            Color::LightBlue => 9,
            Color::LightGreen => 10,
            Color::LightCyan => 11,
            Color::LightRed => 12,
            Color::Pink => 13,
            Color::Yellow => 14,
            Color::White => 15,
        }
    }
}

/// A full color attribute: background color in the high nibble, foreground
/// color in the low nibble.
#[derive(Debug, Clone, Copy, PartialEq, Eq, Structural)]
pub struct ColorCode(pub u8);

impl ColorCode {
    /// The attribute byte combining the given foreground and background
    /// colors, with the background placed in the high nibble.
    pub fn new(foreground: Color, background: Color) -> (r: ColorCode)
        ensures
            r.0 == color_value(background) * 16 + color_value(foreground),
    {
        let fg = foreground.as_u8();
        let bg = background.as_u8();
        assert(fg < 16 && bg < 16);
        let code = (bg << 4) | fg;
        assert((bg << 4) | fg == bg * 16 + fg) by (bit_vector)
            requires
                fg < 16 && bg < 16,
        ;
        ColorCode(code)
    }
}

/// One character cell: a code-page byte and its color attribute.
#[derive(Debug, Clone, Copy, PartialEq, Eq, Structural)]
pub struct ScreenCharacter {
    pub ascii_character: u8,
    pub color_code: ColorCode,
}

/// The character grid of the display.
pub struct Buffer {
    pub chars: Vec<Vec<ScreenCharacter>>,
}

/// The cursor-carrying writer over the grid: new text enters the bottom
/// row at the current column; full or finished lines shift the whole grid
/// up by one row.
pub struct Writer {
    pub column_position: usize,
    pub color_code: ColorCode,
    pub buffer: Buffer,
}

/// The mathematical view of a [`Writer`]: the grid as a sequence of rows,
/// the current column, and the current color attribute.
#[verifier::ext_equal]
pub ghost struct ScreenState {
    pub rows: Seq<Seq<ScreenCharacter>>,
    pub column: int,
    pub color: ColorCode,
}

impl View for Writer {
    type V = ScreenState;

    open spec fn view(&self) -> ScreenState {
        ScreenState {
            rows: self.buffer.chars@.map_values(|r: Vec<ScreenCharacter>| r@),
            column: self.column_position as int,
            color: self.color_code,
        }
    }
}

/// A blank cell in the given color.
pub open spec fn spec_blank(color: ColorCode) -> ScreenCharacter {
    ScreenCharacter { ascii_character: 0x20, color_code: color }
}

/// A full row of blank cells.
pub open spec fn spec_blank_row(color: ColorCode) -> Seq<ScreenCharacter> {
    Seq::new(80, |c: int| spec_blank(color))
}

/// Replacing one row with blanks.
pub open spec fn spec_clear_row(s: ScreenState, row: int) -> ScreenState {
    ScreenState { rows: s.rows.update(row, spec_blank_row(s.color)), ..s }
}

/// The line shift: every row moves up by one, the freed bottom row is
/// blank, and the cursor returns to the first column.
pub open spec fn spec_new_line(s: ScreenState) -> ScreenState {
    ScreenState {
        rows: Seq::new(
            25,
            |r: int| if r < 24 {
                s.rows[r + 1]
            } else {
                spec_blank_row(s.color)
            },
        ),
        column: 0,
        color: s.color,
    }
}

/// Writing one byte: a line feed shifts the grid; any other byte lands in
/// the bottom row at the cursor — after a shift if the row is already
/// full — and advances the cursor.
pub open spec fn spec_put_byte(s: ScreenState, byte: u8) -> ScreenState {
    if byte == 0x0a {
        spec_new_line(s)
    } else {
        let base = if s.column >= 80 {
            spec_new_line(s)
        } else {
            s
        };
        ScreenState {
            rows: base.rows.update(
                24,
                base.rows[24].update(
                    base.column,
                    ScreenCharacter { ascii_character: byte, color_code: s.color },
                ),
            ),
            column: base.column + 1,
            color: s.color,
        }
    }
}

/// How string output treats each byte: printable bytes and the line feed
/// pass through; everything else prints the replacement glyph 0xfe.
pub open spec fn spec_translate_byte(byte: u8) -> u8 {
    if 0x20 <= byte && byte <= 0x7e {
        byte
    } else if byte == 0x0a {
        byte
    } else {
        0xfe
    }
}

/// Writing a whole byte sequence, front to back.
pub open spec fn spec_put_bytes(s: ScreenState, bytes: Seq<u8>) -> ScreenState
    decreases bytes.len(),
{
    if bytes.len() <= 0 {
        s
    } else {
        spec_put_bytes(spec_put_byte(s, spec_translate_byte(bytes[0])), bytes.skip(1))
    }
}

/// Appending one byte to a write is the same as writing it after the rest.
pub proof fn lemma_put_bytes_snoc(s: ScreenState, bytes: Seq<u8>, byte: u8)
    ensures
        spec_put_bytes(s, bytes.push(byte)) == spec_put_byte(
            spec_put_bytes(s, bytes),
            spec_translate_byte(byte),
        ),
    decreases bytes.len(),
{
    if bytes.len() == 0 {
        assert(bytes.push(byte)[0] == byte);
        assert(bytes.push(byte).skip(1) =~= Seq::<u8>::empty());
        assert(spec_put_bytes(
            spec_put_byte(s, spec_translate_byte(byte)),
            Seq::<u8>::empty(),
        ) == spec_put_byte(s, spec_translate_byte(byte)));
    } else {
        assert(bytes.push(byte)[0] == bytes[0]);
        assert(bytes.push(byte).skip(1) =~= bytes.skip(1).push(byte));
        lemma_put_bytes_snoc(spec_put_byte(s, spec_translate_byte(bytes[0])), bytes.skip(1), byte);
    }
}

/// The number of bytes in the UTF-8 form of a character.
pub open spec fn spec_utf8_len(c: char) -> int {
    if (c as u32) < 0x80 {
        1
    } else if (c as u32) < 0x800 {
        2
    } else if (c as u32) < 0x10000 {
        3
    } else {
        4
    }
}

/// Writing one character as the display's byte stream shows it: an ASCII
/// character as its translated byte, any other character as one
/// replacement glyph per byte of its UTF-8 form — every byte of a
/// multi-byte form is outside the printable range.
pub open spec fn spec_put_char(s: ScreenState, c: char) -> ScreenState {
    if (c as u32) < 0x80 {
        spec_put_byte(s, spec_translate_byte(c as u8))
    } else {
        spec_put_bytes(s, Seq::new(spec_utf8_len(c) as nat, |i: int| 0xfeu8))
    }
}

/// The character of one hex digit, lower case.
pub open spec fn spec_hex_digit(d: u8) -> u8 {
    if d < 10 {
        (0x30 + d) as u8
    } else {
        (0x57 + d) as u8
    }
}

/// The nibble of `value` at position `i`, counting 0 as the most
/// significant of the sixteen.
pub open spec fn spec_nibble(value: u64, i: int) -> u8 {
    ((value >> (((15 - i) * 4) as u64)) & 0xf) as u8
}

/// The printed hex form of a value: `0x` followed by all sixteen digits,
/// most significant first.
pub open spec fn spec_hex_bytes(value: u64) -> Seq<u8> {
    seq![0x30u8, 0x78u8] + Seq::new(16, |i: int| spec_hex_digit(spec_nibble(value, i)))
}

impl Writer {
    /// Well-formedness: the fixed grid dimensions, and a cursor that never
    /// passes the row width.
    pub open spec fn wf(self) -> bool {
        &&& self.buffer.chars@.len() == 25
        &&& forall|r: int| 0 <= r < 25 ==> (#[trigger] self.buffer.chars@[r])@.len() == 80
        &&& self.column_position <= 80
    }

    /// A writer over a blank grid, at the first column, in the given
    /// color.
    pub fn new(color_code: ColorCode) -> (w: Writer)
        ensures
            w.wf(),
            w@.column == 0,
            w@.color == color_code,
            forall|r: int| 0 <= r < 25 ==> w@.rows[r] == spec_blank_row(color_code),
    {
        let blank = ScreenCharacter { ascii_character: 0x20, color_code };
        let mut chars: Vec<Vec<ScreenCharacter>> = Vec::new();
        let mut r: usize = 0;
        while r < TEXT_BUFFER_HEIGHT
            invariant
                r <= 25,
                chars@.len() == r,
                blank == spec_blank(color_code),
                forall|i: int| 0 <= i < r ==> (#[trigger] chars@[i])@ == spec_blank_row(color_code),
            decreases 25 - r,
        {
            let mut row_vec: Vec<ScreenCharacter> = Vec::new();
            let mut c: usize = 0;
            while c < TEXT_BUFFER_WIDTH
                invariant
                    c <= 80,
                    row_vec@.len() == c,
                    blank == spec_blank(color_code),
                    forall|j: int| 0 <= j < c ==> row_vec@[j] == spec_blank(color_code),
                decreases 80 - c,
            {
                row_vec.push(blank);
                c = c + 1;
            }
            assert(row_vec@ =~= spec_blank_row(color_code));
            chars.push(row_vec);
            r = r + 1;
        }
        Writer { column_position: 0, color_code, buffer: Buffer { chars } }
    }

    /// Replace every cell of the given row with blanks in the current
    /// color; called once the row has scrolled out of the writable line.
    pub fn clear_row(&mut self, row: usize)
        requires
            old(self).wf(),
            row < 25,
        ensures
            final(self).wf(),
            final(self)@ == spec_clear_row(old(self)@, row as int),
    {
        let blank = ScreenCharacter { ascii_character: 0x20, color_code: self.color_code };
        let mut col: usize = 0;
        while col < TEXT_BUFFER_WIDTH
            invariant
                col <= 80,
                row < 25,
                self.buffer.chars@.len() == 25,
                forall|i: int| 0 <= i < 25 ==> (#[trigger] self.buffer.chars@[i])@.len() == 80,
                self.column_position == old(self).column_position,
                self.color_code == old(self).color_code,
                old(self).wf(),
                blank == spec_blank(old(self).color_code),
                forall|i: int|
                    0 <= i < 25 && i != row ==> self.buffer.chars@[i] == old(self).buffer.chars@[i],
                forall|j: int|
                    0 <= j < col ==> (self.buffer.chars@[row as int])@[j] == spec_blank(
                        old(self).color_code,
                    ),
            decreases 80 - col,
        {
            self.buffer.chars[row][col] = blank;
            col = col + 1;
        }
        assert(self@.rows =~~= spec_clear_row(old(self)@, row as int).rows);
        assert(self@ =~= spec_clear_row(old(self)@, row as int));
    }

    /// Shift all rows up by one, blank the freed bottom row, and return
    /// the cursor to the first column.
    pub fn new_line(&mut self)
        requires
            old(self).wf(),
        ensures
            final(self).wf(),
            final(self)@ == spec_new_line(old(self)@),
    {
        let mut row: usize = 1;
        while row < TEXT_BUFFER_HEIGHT
            invariant
                1 <= row <= 25,
                self.buffer.chars@.len() == 25,
                forall|i: int| 0 <= i < 25 ==> (#[trigger] self.buffer.chars@[i])@.len() == 80,
                self.column_position == old(self).column_position,
                self.color_code == old(self).color_code,
                old(self).wf(),
                forall|i: int|
                    0 <= i < row - 1 ==> (#[trigger] self.buffer.chars@[i])@ == (old(
                        self,
                    ).buffer.chars@[i + 1])@,
                forall|i: int|
                    row - 1 <= i < 25 ==> (#[trigger] self.buffer.chars@[i])@ == (old(
                        self,
                    ).buffer.chars@[i])@,
            decreases 25 - row,
        {
            let mut col: usize = 0;
            while col < TEXT_BUFFER_WIDTH
                invariant
                    1 <= row < 25,
                    col <= 80,
                    self.buffer.chars@.len() == 25,
                    forall|i: int| 0 <= i < 25 ==> (#[trigger] self.buffer.chars@[i])@.len() == 80,
                    self.column_position == old(self).column_position,
                    self.color_code == old(self).color_code,
                    old(self).wf(),
                    forall|i: int|
                        0 <= i < row - 1 ==> (#[trigger] self.buffer.chars@[i])@ == (old(
                            self,
                        ).buffer.chars@[i + 1])@,
                    forall|i: int|
                        row <= i < 25 ==> (#[trigger] self.buffer.chars@[i])@ == (old(
                            self,
                        ).buffer.chars@[i])@,
                    forall|j: int|
                        0 <= j < col ==> #[trigger] ((self.buffer.chars@[row - 1])@[j]) == (old(
                            self,
                        ).buffer.chars@[row as int])@[j],
                    forall|j: int|
                        col <= j < 80 ==> #[trigger] ((self.buffer.chars@[row - 1])@[j]) == (old(
                            self,
                        ).buffer.chars@[row - 1])@[j],
                decreases 80 - col,
            {
                let ch = self.buffer.chars[row][col];
                self.buffer.chars[row - 1][col] = ch;
                col = col + 1;
            }
            assert((self.buffer.chars@[row - 1])@ =~= (old(self).buffer.chars@[row as int])@);
            row = row + 1;
        }
        self.clear_row(TEXT_BUFFER_HEIGHT - 1);
        self.column_position = 0;
        assert(self@.rows =~~= spec_new_line(old(self)@).rows);
        assert(self@ =~= spec_new_line(old(self)@));
    }

    /// Write one byte into the buffer: a line feed shifts the grid up;
    /// any other byte lands at the cursor in the bottom row — after a
    /// shift if the row is full — and the cursor advances.
    pub fn write_byte(&mut self, byte: u8)
        requires
            old(self).wf(),
        ensures
            final(self).wf(),
            final(self)@ == spec_put_byte(old(self)@, byte),
    {
        if byte == 0x0a {
            self.new_line();
        } else {
            // If the column would overflow the buffer width, insert a new
            // line before continuing.
            if self.column_position >= TEXT_BUFFER_WIDTH {
                self.new_line();
            }
            let col = self.column_position;
            let ch = ScreenCharacter { ascii_character: byte, color_code: self.color_code };
            self.buffer.chars[TEXT_BUFFER_HEIGHT - 1][col] = ch;
            self.column_position = col + 1;
            assert(self@.rows =~~= spec_put_byte(old(self)@, byte).rows);
            assert(self@ =~= spec_put_byte(old(self)@, byte));
        }
    }

    /// Write each byte of the string into the buffer: bytes in the
    /// printable range 0x20..=0x7e and the line feed pass through;
    /// anything else prints the replacement glyph.
    pub fn write_string(&mut self, input_string: &str)
        requires
            old(self).wf(),
        ensures
            final(self).wf(),
            final(self)@ == spec_put_bytes(old(self)@, input_string.spec_bytes()),
    {
        let bytes = input_string.as_bytes();
        let n = bytes.len();
        let mut i: usize = 0;
        while i < n
            invariant
                self.wf(),
                i <= n,
                n == bytes@.len(),
                bytes@ == input_string.spec_bytes(),
                self@ == spec_put_bytes(old(self)@, bytes@.subrange(0, i as int)),
            decreases n - i,
        {
            let byte = bytes[i];
            proof {
                assert(bytes@.subrange(0, i + 1) =~= bytes@.subrange(0, i as int).push(byte));
                lemma_put_bytes_snoc(old(self)@, bytes@.subrange(0, i as int), byte);
            }
            if 0x20 <= byte && byte <= 0x7e {
                self.write_byte(byte);
            } else if byte == 0x0a {
                self.new_line();
            } else {
                self.write_byte(0xfe);
            }
            i = i + 1;
        }
        assert(bytes@.subrange(0, n as int) =~= bytes@);
    }

    /// Write the full hex form of a value: `0x` and all sixteen digits,
    /// most significant first — the shape in which handlers print
    /// addresses and error codes.
    pub fn write_hex(&mut self, value: u64)
        requires
            old(self).wf(),
        ensures
            final(self).wf(),
            final(self)@ == spec_put_bytes(old(self)@, spec_hex_bytes(value)),
    {
        proof {
            let e = Seq::<u8>::empty();
            assert(spec_put_bytes(old(self)@, e) == old(self)@);
            lemma_put_bytes_snoc(old(self)@, e, 0x30);
            lemma_put_bytes_snoc(old(self)@, e.push(0x30), 0x78);
            assert(e.push(0x30).push(0x78) =~= seq![0x30u8, 0x78u8]);
        }
        self.write_byte(0x30);
        self.write_byte(0x78);
        let ghost digits = Seq::new(16, |i: int| spec_hex_digit(spec_nibble(value, i)));
        let mut i: usize = 0;
        while i < 16
            invariant
                i <= 16,
                self.wf(),
                digits == Seq::new(16, |k: int| spec_hex_digit(spec_nibble(value, k))),
                self@ == spec_put_bytes(
                    old(self)@,
                    seq![0x30u8, 0x78u8] + digits.subrange(0, i as int),
                ),
            decreases 16 - i,
        {
            let shift: u64 = ((15 - i) as u64) * 4;
            let nib: u8 = ((value >> shift) & 0xf) as u8;
            assert((value >> shift) & 0xf < 16) by (bit_vector);
            let ch: u8 = if nib < 10 {
                0x30 + nib
            } else {
                0x57 + nib
            };
            proof {
                assert(nib == spec_nibble(value, i as int));
                assert(ch == spec_hex_digit(nib));
                assert(spec_translate_byte(ch) == ch);
                assert((seq![0x30u8, 0x78u8] + digits.subrange(0, i + 1)) =~= (seq![
                    0x30u8,
                    0x78u8,
                ] + digits.subrange(0, i as int)).push(ch));
                lemma_put_bytes_snoc(
                    old(self)@,
                    seq![0x30u8, 0x78u8] + digits.subrange(0, i as int),
                    ch,
                );
            }
            self.write_byte(ch);
            i = i + 1;
        }
        assert(digits.subrange(0, 16) =~= digits);
    }

    /// Write one character as string output would: an ASCII character as
    /// its translated byte, any other as one replacement glyph per byte
    /// of its UTF-8 form.
    pub fn write_char(&mut self, c: char)
        requires
            old(self).wf(),
        ensures
            final(self).wf(),
            final(self)@ == spec_put_char(old(self)@, c),
    {
        let code = c as u32;
        if code < 0x80 {
            let byte = c as u8;
            if (0x20 <= byte && byte <= 0x7e) || byte == 0x0a {
                self.write_byte(byte);
            } else {
                self.write_byte(0xfe);
            }
        } else {
            let n: usize = if code < 0x800 {
                2
            } else if code < 0x10000 {
                3
            } else {
                4
            };
            assert(n == spec_utf8_len(c));
            let ghost fill = Seq::new(spec_utf8_len(c) as nat, |i: int| 0xfeu8);
            let mut i: usize = 0;
            while i < n
                invariant
                    i <= n,
                    self.wf(),
                    n == spec_utf8_len(c),
                    fill == Seq::new(spec_utf8_len(c) as nat, |k: int| 0xfeu8),
                    self@ == spec_put_bytes(old(self)@, fill.subrange(0, i as int)),
                decreases n - i,
            {
                proof {
                    assert(fill.subrange(0, i + 1) =~= fill.subrange(0, i as int).push(0xfeu8));
                    lemma_put_bytes_snoc(old(self)@, fill.subrange(0, i as int), 0xfeu8);
                }
                self.write_byte(0xfe);
                i = i + 1;
            }
            assert(fill.subrange(0, n as int) =~= fill);
        }
    }
}

} // verus!
