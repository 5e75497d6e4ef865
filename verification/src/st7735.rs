//! The ST7735 colour LCD: panel variants, colours, and the rendering of
//! 8 by 12 pixel characters into blocks of pixels for the panel.

use vstd::prelude::*;

verus! {

/// The variant of the panel, told apart by the colour of the tab on its
/// protective film.
#[derive(Clone, Copy, Debug, PartialEq, Eq)]
pub enum St7735Type {
    GreenTab,
    RedTab,
    BlackTab,
}

impl St7735Type {
    /// The number by which the panel driver knows this variant.
    pub open spec fn spec_code(self) -> u8 {
        match self {
            St7735Type::GreenTab => 0,
            St7735Type::RedTab => 1,
            St7735Type::BlackTab => 2,
        }
    }

    /// The number by which the panel driver knows this variant.
    #[verifier::when_used_as_spec(spec_code)]
    pub fn code(self) -> (code: u8)
        ensures
            code == self.spec_code(),
    {
        match self {
            St7735Type::GreenTab => 0,
            St7735Type::RedTab => 1,
            St7735Type::BlackTab => 2,
        }
    }
}

/// The colours the instrument draws with.
#[derive(Clone, Copy, Debug, PartialEq, Eq)]
pub enum St7735Color {
    Black,
    Blue,
    Green,
    Red,
    White,
}

impl St7735Color {
    /// The colour as a packed 16-bit pixel: five bits of red, six of green,
    /// five of blue.
    pub open spec fn spec_rgb565(self) -> u16 {
        match self {
            St7735Color::Black => 0x0000,
            St7735Color::Blue => 0x001f,
            St7735Color::Green => 0x07e0,
            St7735Color::Red => 0xf800,
            St7735Color::White => 0xffff,
        }
    }

    /// The colour as a packed 16-bit pixel.
    #[verifier::when_used_as_spec(spec_rgb565)]
    pub fn rgb565(self) -> (pixel: u16)
        ensures
            pixel == self.spec_rgb565(),
    {
        match self {
            St7735Color::Black => 0x0000,
            St7735Color::Blue => 0x001f,
            St7735Color::Green => 0x07e0,
            St7735Color::Red => 0xf800,
            St7735Color::White => 0xffff,
        }
    }
}

/// Width of a character cell in pixels.
pub const GLYPH_WIDTH: u8 = 8;

/// Height of a character cell in pixels.
pub const GLYPH_HEIGHT: u8 = 12;

/// Number of characters a font holds: the 7-bit character set.
pub const FONT_GLYPHS: u8 = 128;

/// Size of a font in bytes: one byte for each row of each character.
pub const FONT_BYTES: usize = 1536;

/// A font: for each character twelve bytes, one for each row from the top,
/// with the leftmost pixel of the row in the lowest bit.
pub type Font = [u8; FONT_BYTES];

/// One character cell ready to be sent to the panel.
#[derive(Debug, PartialEq, Eq)]
pub struct Glyph {
    /// Leftmost column of the cell.
    pub x0: u8,
    /// Topmost row of the cell.
    pub y0: u8,
    /// Rightmost column of the cell.
    pub x1: u8,
    /// Bottom row of the cell.
    pub y1: u8,
    /// The pixels of the cell, row by row from the top, each row from the
    /// left.
    pub pixels: Vec<u16>,
}

/// What a `Glyph` stands for: a window on the panel and the pixels that fill
/// it.
pub struct GlyphView {
    pub x0: int,
    pub y0: int,
    pub x1: int,
    pub y1: int,
    pub pixels: Seq<u16>,
}

impl View for Glyph {
    type V = GlyphView;

    open spec fn view(&self) -> GlyphView {
        GlyphView {
            x0: self.x0 as int,
            y0: self.y0 as int,
            x1: self.x1 as int,
            y1: self.y1 as int,
            pixels: self.pixels@,
        }
    }
}

/// Whether the font has the pixel in row `row`, column `col` of character
/// `c` set.
pub open spec fn font_pixel(font: Seq<u8>, c: u8, row: int, col: int) -> bool {
    (font[c as int * 12 + row] >> (col as u8)) & 1 == 1
}

/// The 96 pixels of character `c`: foreground where the font has the pixel
/// set, background elsewhere.
pub open spec fn glyph_pixels(font: Seq<u8>, c: u8, fg: u16, bg: u16) -> Seq<u16> {
    Seq::new(
        96,
        |k: int|
            if font_pixel(font, c, k / 8, k % 8) {
                fg
            } else {
                bg
            },
    )
}

/// Character `c` drawn with its top left corner at column `x`, row `y`.
pub open spec fn glyph(
    font: Seq<u8>,
    x: int,
    y: int,
    c: u8,
    fg: St7735Color,
    bg: St7735Color,
) -> GlyphView {
    GlyphView {
        x0: x,
        y0: y,
        x1: x + 7,
        y1: y + 11,
        pixels: glyph_pixels(font, c, fg.spec_rgb565(), bg.spec_rgb565()),
    }
}

/// Whether a cell with its top left corner at column `x`, row `y` lies on a
/// panel `width` pixels wide and `height` pixels high.
pub open spec fn cell_fits(x: int, y: int, width: int, height: int) -> bool {
    x <= width - 8 && y <= height - 12
}

proof fn lemma_shift_step(bits: u8, col: u8)
    requires
        col < 8,
    ensures
        (bits >> col) >> 1u8 == bits >> ((col + 1) as u8),
{
    assert((bits >> col) >> 1u8 == bits >> ((col + 1) as u8)) by (bit_vector)
        requires
            col < 8,
    ;
}

/// Renders character `c` at column `x`, row `y`, without asking whether the
/// cell lies on the panel. Characters outside the 7-bit set have no shape
/// and render to nothing.
pub fn st7735_putc_unchecked(
    x: u8,
    y: u8,
    c: u8,
    fg: St7735Color,
    bg: St7735Color,
    font: &Font,
) -> (cell: Option<Glyph>)
    requires
        x <= 248,
        y <= 244,
    ensures
        cell is Some <==> c < 128,
        cell matches Some(g) ==> g@ == glyph(font@, x as int, y as int, c, fg, bg),
{
    if c >= FONT_GLYPHS {
        return None;
    }
    let fg_pixel: u16 = fg.rgb565();
    let bg_pixel: u16 = bg.rgb565();
    let mut pixels: Vec<u16> = Vec::new();
    let mut yrow: usize = 0;
    while yrow < 12
        invariant
            yrow <= 12,
            c < 128,
            fg_pixel == fg.spec_rgb565(),
            bg_pixel == bg.spec_rgb565(),
            pixels@.len() == 8 * yrow,
            forall|k: int|
                0 <= k < pixels@.len() ==> pixels@[k] == glyph_pixels(
                    font@,
                    c,
                    fg_pixel,
                    bg_pixel,
                )[k],
        decreases 12 - yrow,
    {
        let row: u8 = font[(c as usize) * 12 + yrow];
        let mut bits: u8 = row;
        let mut col: u8 = 0;
        assert(row >> 0u8 == row) by (bit_vector);
        while col < 8
            invariant
                col <= 8,
                yrow < 12,
                c < 128,
                row == font@[c as int * 12 + yrow as int],
                bits == row >> col,
                pixels@.len() == 8 * yrow + col,
                forall|k: int|
                    0 <= k < pixels@.len() ==> pixels@[k] == glyph_pixels(
                        font@,
                        c,
                        fg_pixel,
                        bg_pixel,
                    )[k],
            decreases 8 - col,
        {
            proof {
                lemma_shift_step(row, col);
            }
            if bits & 0b1 == 0b1 {
                pixels.push(fg_pixel);
            } else {
                pixels.push(bg_pixel);
            }
            bits = bits >> 1u8;
            col = col + 1;
        }
        yrow = yrow + 1;
    }
    proof {
        assert(pixels@ =~= glyph_pixels(font@, c, fg_pixel, bg_pixel));
    }
    Some(Glyph { x0: x, y0: y, x1: x + 7, y1: y + 11, pixels })
}

/// Renders character `c` at column `x`, row `y` of a panel `width` pixels
/// wide and `height` pixels high. There is nothing to draw where the cell
/// would not lie wholly on the panel, nor for a character outside the 7-bit
/// set.
pub fn st7735_putc(
    x: u8,
    y: u8,
    c: u8,
    fg: St7735Color,
    bg: St7735Color,
    width: u8,
    height: u8,
    font: &Font,
) -> (cell: Option<Glyph>)
    ensures
        cell is Some <==> c < 128 && cell_fits(x as int, y as int, width as int, height as int),
        cell matches Some(g) ==> g@ == glyph(font@, x as int, y as int, c, fg, bg),
{
    if x as u16 + GLYPH_WIDTH as u16 > width as u16 || y as u16 + GLYPH_HEIGHT as u16
        > height as u16 {
        return None;
    }
    st7735_putc_unchecked(x, y, c, fg, bg, font)
}

/// The cells that printing `text` from column `x` on row `y` draws on a
/// panel `width` pixels wide: one for each character in turn, each eight
/// columns to the right of the one before, up to the first that would reach
/// past the right edge. A character outside the 7-bit set takes up its cell
/// but draws nothing.
pub open spec fn printed(
    font: Seq<u8>,
    x: int,
    y: int,
    text: Seq<u8>,
    fg: St7735Color,
    bg: St7735Color,
    width: int,
) -> Seq<GlyphView>
    decreases text.len(),
{
    if text.len() == 0 || x > width - 8 {
        Seq::empty()
    } else {
        let rest = printed(font, x + 8, y, text.drop_first(), fg, bg, width);
        if text[0] < 128 {
            seq![glyph(font, x, y, text[0], fg, bg)] + rest
        } else {
            rest
        }
    }
}

/// The views of a run of glyphs.
pub open spec fn glyph_views(cells: Seq<Glyph>) -> Seq<GlyphView> {
    Seq::new(cells.len(), |i: int| cells[i]@)
}

/// Printing a text is printing its first `n` characters and then the rest,
/// `8 * n` columns further right, so long as those first characters all fit.
proof fn lemma_printed_split(
    font: Seq<u8>,
    x: int,
    y: int,
    text: Seq<u8>,
    fg: St7735Color,
    bg: St7735Color,
    width: int,
    n: int,
)
    requires
        0 <= n <= text.len(),
        n > 0 ==> x + 8 * (n - 1) <= width - 8,
    ensures
        printed(font, x, y, text, fg, bg, width) == printed(
            font,
            x,
            y,
            text.take(n),
            fg,
            bg,
            width,
        ) + printed(font, x + 8 * n, y, text.skip(n), fg, bg, width),
        x + 8 * n > width - 8 || n == text.len() ==> printed(font, x, y, text, fg, bg, width)
            == printed(font, x, y, text.take(n), fg, bg, width),
    decreases n,
{
    if n == 0 {
        assert(text.skip(0) =~= text);
    } else {
        let tail = text.drop_first();
        lemma_printed_split(font, x + 8, y, tail, fg, bg, width, n - 1);
        assert(tail.take(n - 1) =~= text.take(n).drop_first());
        assert(tail.skip(n - 1) =~= text.skip(n));
    }
}

/// Printing draws at most one cell for each character, and every cell that
/// it draws is a whole cell on the given row that ends before the right
/// edge of the panel.
pub proof fn lemma_printed_on_panel(
    font: Seq<u8>,
    x: int,
    y: int,
    text: Seq<u8>,
    fg: St7735Color,
    bg: St7735Color,
    width: int,
    k: int,
)
    requires
        0 <= k < printed(font, x, y, text, fg, bg, width).len(),
    ensures
        printed(font, x, y, text, fg, bg, width).len() <= text.len(),
        x <= printed(font, x, y, text, fg, bg, width)[k].x0,
        printed(font, x, y, text, fg, bg, width)[k].x1 == printed(
            font,
            x,
            y,
            text,
            fg,
            bg,
            width,
        )[k].x0 + 7,
        printed(font, x, y, text, fg, bg, width)[k].x1 < width,
        printed(font, x, y, text, fg, bg, width)[k].y0 == y,
        printed(font, x, y, text, fg, bg, width)[k].y1 == y + 11,
        printed(font, x, y, text, fg, bg, width)[k].pixels.len() == 96,
    decreases text.len(),
{
    lemma_printed_len(font, x, y, text, fg, bg, width);
    if text[0] < 128 && k == 0 {
    } else if text[0] < 128 {
        lemma_printed_on_panel(font, x + 8, y, text.drop_first(), fg, bg, width, k - 1);
    } else {
        lemma_printed_on_panel(font, x + 8, y, text.drop_first(), fg, bg, width, k);
    }
}

proof fn lemma_printed_len(
    font: Seq<u8>,
    x: int,
    y: int,
    text: Seq<u8>,
    fg: St7735Color,
    bg: St7735Color,
    width: int,
)
    ensures
        printed(font, x, y, text, fg, bg, width).len() <= text.len(),
    decreases text.len(),
{
    if text.len() > 0 && x <= width - 8 {
        lemma_printed_len(font, x + 8, y, text.drop_first(), fg, bg, width);
    }
}

/// Prints `text` from column `x0` on row `y` of a panel `width` pixels wide
/// and `height` pixels high: the cells to send to the panel, in order.
/// Nothing is drawn where the row of cells would reach below the bottom
/// edge.
pub fn st7735_print(
    x0: u8,
    y: u8,
    text: &[u8],
    fg: St7735Color,
    bg: St7735Color,
    width: u8,
    height: u8,
    font: &Font,
) -> (cells: Vec<Glyph>)
    ensures
        glyph_views(cells@) == if y <= height - 12 {
            printed(font@, x0 as int, y as int, text@, fg, bg, width as int)
        } else {
            Seq::empty()
        },
{
    let mut cells: Vec<Glyph> = Vec::new();
    if y as u16 + GLYPH_HEIGHT as u16 > height as u16 {
        return cells;
    }
    let mut x: u8 = x0;
    let mut i: usize = 0;
    while i < text.len()
        invariant
            i <= text.len(),
            y <= height - 12,
            x == x0 + 8 * i,
            i > 0 ==> x0 + 8 * (i - 1) <= width - 8,
            glyph_views(cells@) == printed(
                font@,
                x0 as int,
                y as int,
                text@.take(i as int),
                fg,
                bg,
                width as int,
            ),
        decreases text.len() - i,
    {
        if x as u16 + GLYPH_WIDTH as u16 > width as u16 {
            proof {
                lemma_printed_split(font@, x0 as int, y as int, text@, fg, bg, width as int, i as int);
            }
            return cells;
        }
        let c: u8 = text[i];
        if let Some(cell) = st7735_putc_unchecked(x, y, c, fg, bg, font) {
            cells.push(cell);
        }
        proof {
            let next = text@.take(i + 1);
            lemma_printed_split(font@, x0 as int, y as int, next, fg, bg, width as int, i as int);
            assert(next.take(i as int) =~= text@.take(i as int));
            assert(next.skip(i as int) =~= seq![c]);
            assert(seq![c].drop_first() =~= Seq::<u8>::empty());
            assert(printed(font@, x + 8, y as int, Seq::<u8>::empty(), fg, bg, width as int)
                =~= Seq::<GlyphView>::empty());
        }
        x = x + GLYPH_WIDTH;
        i = i + 1;
    }
    proof {
        assert(text@.take(i as int) =~= text@);
    }
    cells
}

} // verus!
