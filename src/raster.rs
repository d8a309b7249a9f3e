//! Decoded RGBA images and the half-block text they render to.

use vstd::prelude::*;
use crate::escape::{bg_rgb, bg_seq, fg_rgb, fg_seq, reset_seq, style_reset};

verus! {

/// The upper-half-block glyph: foreground above, background below.
pub open spec fn glyph() -> char {
    '\u{2580}'
}

/// A decoded image: `width` by `height` pixels, four bytes each (red,
/// green, blue, alpha), row after row.
pub struct RasterImage {
    pub width: u32,
    pub height: u32,
    pub pixels: Vec<u8>,
}

/// What an image holds: its size and its RGBA bytes.
pub struct RasterView {
    pub width: nat,
    pub height: nat,
    pub pixels: Seq<u8>,
}

impl RasterView {
    /// The colour of pixel (`x`, `y`), alpha dropped.
    pub open spec fn rgb(&self, x: int, y: int) -> (u8, u8, u8) {
        let i = 4 * (y * self.width + x);
        (self.pixels[i], self.pixels[i + 1], self.pixels[i + 2])
    }

    /// Every pixel has colour `c`.
    pub open spec fn uniform(&self, c: (u8, u8, u8)) -> bool {
        forall|x: int, y: int|
            0 <= x < self.width && 0 <= y < self.height ==> #[trigger] self.rgb(x, y) == c
    }
}

impl View for RasterImage {
    type V = RasterView;

    open spec fn view(&self) -> RasterView {
        RasterView { width: self.width as nat, height: self.height as nat, pixels: self.pixels@ }
    }
}

impl RasterImage {
    /// The buffer holds exactly one RGBA quadruple per pixel.
    pub open spec fn wf(&self) -> bool {
        self.pixels@.len() == self.width as int * self.height as int * 4
    }
}

/// One terminal cell: upper pixel as foreground, lower as background,
/// styling reset after the glyph.
pub open spec fn cell_seq(up: (u8, u8, u8), lo: (u8, u8, u8)) -> Seq<char> {
    fg_seq(up.0, up.1, up.2) + bg_seq(lo.0, lo.1, lo.2) + seq![glyph()] + reset_seq()
}

/// The first `n` cells of text line `pair`, which shows pixel rows
/// `2 * pair` and `2 * pair + 1`.
pub open spec fn row_seq(img: RasterView, pair: int, n: nat) -> Seq<char>
    decreases n,
{
    if n == 0 {
        Seq::empty()
    } else {
        row_seq(img, pair, (n - 1) as nat) + cell_seq(
            img.rgb(n - 1, 2 * pair),
            img.rgb(n - 1, 2 * pair + 1),
        )
    }
}

/// The text lines of an image with an even number of rows.
pub open spec fn frame_seq(img: RasterView) -> Seq<Seq<char>> {
    Seq::new((img.height / 2) as nat, |p: int| row_seq(img, p, img.width))
}

/// `n` copies of the cell that shows colour `c` above and below.
pub open spec fn repeat_cell(c: (u8, u8, u8), n: nat) -> Seq<char>
    decreases n,
{
    if n == 0 {
        Seq::empty()
    } else {
        repeat_cell(c, (n - 1) as nat) + cell_seq(c, c)
    }
}

/// How many glyphs a line holds.
pub open spec fn glyph_count(s: Seq<char>) -> nat
    decreases s.len(),
{
    if s.len() == 0 {
        0
    } else {
        glyph_count(s.drop_last()) + if s.last() == glyph() { 1nat } else { 0nat }
    }
}

proof fn lemma_glyph_count_add(a: Seq<char>, b: Seq<char>)
    ensures
        glyph_count(a + b) == glyph_count(a) + glyph_count(b),
    decreases b.len(),
{
    if b.len() == 0 {
        assert(a + b =~= a);
    } else {
        lemma_glyph_count_add(a, b.drop_last());
        assert((a + b).drop_last() =~= a + b.drop_last());
    }
}

proof fn lemma_glyph_free(s: Seq<char>)
    requires
        forall|i: int| 0 <= i < s.len() ==> s[i] != glyph(),
    ensures
        glyph_count(s) == 0,
    decreases s.len(),
{
    if s.len() > 0 {
        lemma_glyph_free(s.drop_last());
    }
}

proof fn lemma_decimal_glyph_free(n: nat)
    ensures
        forall|i: int| 0 <= i < crate::escape::decimal(n).len() ==> crate::escape::decimal(n)[i] != glyph(),
    decreases n,
{
    let d = crate::escape::decimal(n);
    assert(crate::escape::digit_char(n % 10) != glyph());
    if n >= 10 {
        lemma_decimal_glyph_free(n / 10);
        let h = crate::escape::decimal(n / 10);
        assert(d == h + seq![crate::escape::digit_char(n % 10)]);
        assert forall|i: int| 0 <= i < d.len() implies d[i] != glyph() by {
            if i < h.len() {
                assert(d[i] == h[i]);
            }
        }
    } else {
        assert(crate::escape::digit_char(n) != glyph());
    }
}

proof fn lemma_colour_glyph_free(r: u8, g: u8, b: u8)
    ensures
        glyph_count(fg_seq(r, g, b)) == 0,
        glyph_count(bg_seq(r, g, b)) == 0,
        glyph_count(reset_seq()) == 0,
{
    lemma_decimal_glyph_free(r as nat);
    lemma_decimal_glyph_free(g as nat);
    lemma_decimal_glyph_free(b as nat);
    lemma_glyph_free(fg_seq(r, g, b));
    lemma_glyph_free(bg_seq(r, g, b));
    lemma_glyph_free(reset_seq());
}

/// Every cell holds exactly one glyph.
pub proof fn lemma_cell_one_glyph(up: (u8, u8, u8), lo: (u8, u8, u8))
    ensures
        glyph_count(cell_seq(up, lo)) == 1,
{
    lemma_colour_glyph_free(up.0, up.1, up.2);
    lemma_colour_glyph_free(lo.0, lo.1, lo.2);
    let f = fg_seq(up.0, up.1, up.2);
    let b = bg_seq(lo.0, lo.1, lo.2);
    lemma_glyph_count_add(f, b);
    lemma_glyph_count_add(f + b, seq![glyph()]);
    lemma_glyph_count_add(f + b + seq![glyph()], reset_seq());
    assert(seq![glyph()].drop_last() =~= Seq::<char>::empty());
    assert(glyph_count(Seq::<char>::empty()) == 0);
    assert(glyph_count(seq![glyph()]) == 1);
}

/// A line of `n` cells holds `n` glyphs.
pub proof fn lemma_row_glyphs(img: RasterView, pair: int, n: nat)
    ensures
        glyph_count(row_seq(img, pair, n)) == n,
    decreases n,
{
    if n > 0 {
        lemma_row_glyphs(img, pair, (n - 1) as nat);
        let up = img.rgb(n - 1, 2 * pair);
        let lo = img.rgb(n - 1, 2 * pair + 1);
        lemma_glyph_count_add(row_seq(img, pair, (n - 1) as nat), cell_seq(up, lo));
        lemma_cell_one_glyph(up, lo);
    }
}

/// An image of even height renders to half as many lines as it has pixel
/// rows, each line holding one glyph per pixel column.
pub proof fn lemma_frame_shape(img: RasterView)
    requires
        img.height % 2 == 0,
    ensures
        frame_seq(img).len() * 2 == img.height,
        forall|p: int| 0 <= p < frame_seq(img).len() ==> glyph_count(#[trigger] frame_seq(img)[p]) == img.width,
{
    assert forall|p: int| 0 <= p < frame_seq(img).len() implies glyph_count(#[trigger] frame_seq(img)[p]) == img.width by {
        lemma_row_glyphs(img, p, img.width);
    }
}

proof fn lemma_uniform_row(img: RasterView, c: (u8, u8, u8), pair: int, n: nat)
    requires
        img.uniform(c),
        0 <= 2 * pair,
        2 * pair + 1 < img.height,
        n <= img.width,
    ensures
        row_seq(img, pair, n) == repeat_cell(c, n),
    decreases n,
{
    if n > 0 {
        lemma_uniform_row(img, c, pair, (n - 1) as nat);
        assert(img.rgb(n - 1, 2 * pair) == c);
        assert(img.rgb(n - 1, 2 * pair + 1) == c);
    }
}

/// An image of one colour renders to lines that each hold `width` glyphs,
/// every one of them in that colour, above and below.
pub proof fn lemma_uniform_frame(img: RasterView, c: (u8, u8, u8))
    requires
        img.uniform(c),
        img.height % 2 == 0,
    ensures
        forall|p: int| 0 <= p < frame_seq(img).len() ==> #[trigger] frame_seq(img)[p] == repeat_cell(c, img.width),
        forall|p: int| 0 <= p < frame_seq(img).len() ==> glyph_count(#[trigger] frame_seq(img)[p]) == img.width,
{
    lemma_frame_shape(img);
    assert forall|p: int| 0 <= p < frame_seq(img).len() implies #[trigger] frame_seq(img)[p] == repeat_cell(c, img.width) by {
        lemma_uniform_row(img, c, p, img.width);
    }
}

proof fn lemma_pixel_index(w: int, h: int, y: int, x: int)
    requires
        0 <= x < w,
        0 <= y < h,
    ensures
        0 <= y * w + x,
        y * w + x < h * w,
        (y * w + x) * 4 + 3 < w * h * 4,
{
    assert(0 <= y * w) by (nonlinear_arith) requires 0 <= y, 0 <= w;
    assert(y * w + x < (y + 1) * w) by (nonlinear_arith) requires x < w;
    assert((y + 1) * w <= h * w) by (nonlinear_arith) requires y + 1 <= h, 0 <= w;
    assert(h * w == w * h) by (nonlinear_arith);
}

/// Text line `pair` of `img`: one cell per pixel column.
pub fn render_row(img: &RasterImage, pair: usize) -> (s: String)
    requires
        img.wf(),
        2 * pair + 1 < img.height,
    ensures
        s@ == row_seq(img@, pair as int, img.width as nat),
{
    let w = img.width as usize;
    let len = img.pixels.len();
    let mut s = String::new();
    let mut x: usize = 0;
    while x < w
        invariant
            img.wf(),
            2 * pair + 1 < img.height,
            w == img.width,
            len == img.pixels@.len(),
            x <= w,
            s@ == row_seq(img@, pair as int, x as nat),
        decreases w - x,
    {
        proof {
            lemma_pixel_index(w as int, img.height as int, 2 * pair as int, x as int);
            lemma_pixel_index(w as int, img.height as int, 2 * pair + 1, x as int);
        }
        let up = ((2 * pair) * w + x) * 4;
        let lo = ((2 * pair + 1) * w + x) * 4;
        let fg = fg_rgb(img.pixels[up], img.pixels[up + 1], img.pixels[up + 2]);
        let bg = bg_rgb(img.pixels[lo], img.pixels[lo + 1], img.pixels[lo + 2]);
        let reset = style_reset();
        s.append(fg.as_str());
        s.append(bg.as_str());
        proof {
            reveal_strlit("\u{2580}");
        }
        s.append("\u{2580}");
        s.append(reset.as_str());
        proof {
            assert(4 * (2 * pair * w + x) == up);
            assert(4 * ((2 * pair + 1) * w + x) == lo);
        }
        x = x + 1;
    }
    s
}

/// The text lines of an image with an even number of rows, one line per
/// pair of pixel rows.
pub fn render_lines(img: &RasterImage) -> (lines: Vec<String>)
    requires
        img.wf(),
        img.height % 2 == 0,
    ensures
        lines@.len() == frame_seq(img@).len(),
        forall|p: int| 0 <= p < lines@.len() ==> #[trigger] lines@[p]@ == frame_seq(img@)[p],
{
    let n = (img.height / 2) as usize;
    let mut lines: Vec<String> = Vec::new();
    let mut p: usize = 0;
    while p < n
        invariant
            img.wf(),
            img.height % 2 == 0,
            n == img.height / 2,
            p <= n,
            lines@.len() == p,
            forall|q: int| 0 <= q < p ==> #[trigger] lines@[q]@ == frame_seq(img@)[q],
        decreases n - p,
    {
        let line = render_row(img, p);
        lines.push(line);
        p = p + 1;
    }
    lines
}

} // verus!
