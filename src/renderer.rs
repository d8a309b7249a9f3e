//! Sizing an image to a character grid and rendering it as half-block text.

use vstd::prelude::*;
use rayon::iter::{IntoParallelIterator, ParallelIterator};
use crate::raster::{
    frame_seq, glyph_count, lemma_frame_shape, render_row, row_seq, RasterImage, RasterView,
};

verus! {

/// The pixel rows an image of `w` by `h` pixels gets at `xsize` columns:
/// `xsize * r` for an aspect ratio `r = w / h` under one, `xsize / r`
/// otherwise, rounded down and then up to the next even number. An image
/// without pixels gets none.
pub open spec fn target_height(xsize: nat, w: nat, h: nat) -> nat {
    let q = if w == 0 || h == 0 {
        0
    } else if w < h {
        xsize * w / h
    } else {
        xsize * h / w
    };
    if q % 2 == 1 { q + 1 } else { q }
}

/// The RGBA bytes that a nearest-neighbour resize of `src` (`src_w` by
/// `src_h` pixels) to `w` by `h` pixels produces.
pub uninterp spec fn nearest_resized(src: Seq<u8>, src_w: nat, src_h: nat, w: nat, h: nat) -> Seq<u8>;

/// `img` resized to `w` by `h` pixels.
pub open spec fn resized_view(img: RasterView, w: nat, h: nat) -> RasterView {
    RasterView { width: w, height: h, pixels: nearest_resized(img.pixels, img.width, img.height, w, h) }
}

/// The resize of an image `src_w` pixels wide to `w` by `h` pixels fits
/// in memory: the result in bytes, and the intermediate of `src_w` by `h`
/// pixels of four `f32` channels that the resize goes through.
pub open spec fn resize_fits(src_w: nat, w: nat, h: nat) -> bool {
    w <= u32::MAX && h <= u32::MAX && w * h * 4 <= isize::MAX && src_w * h * 16 <= isize::MAX
}

/// Relies on image's `imageops::resize` with `FilterType::Nearest`, which
/// returns an RGBA buffer of exactly `width` by `height` pixels and does not
/// panic once its allocations fit.
#[verifier::external_body]
pub(crate) fn resize_nearest(img: &RasterImage, width: u32, height: u32) -> (r: RasterImage)
    requires
        img.wf(),
        resize_fits(img.width as nat, width as nat, height as nat),
    ensures
        r.wf(),
        r.width == width,
        r.height == height,
        r.pixels@ == nearest_resized(img.pixels@, img.width as nat, img.height as nat, width as nat, height as nat),
{
    let src = image::RgbaImage::from_raw(img.width, img.height, img.pixels.clone()).unwrap();
    let out = image::imageops::resize(&src, width, height, image::imageops::FilterType::Nearest);
    RasterImage { width, height, pixels: out.into_raw() }
}

/// Relies on rayon: collecting an indexed parallel iterator into a `Vec`
/// keeps the order of the indices. Each line is made by `render_row`.
#[verifier::external_body]
fn render_rows_parallel(img: &RasterImage, pairs: usize) -> (lines: Vec<String>)
    requires
        img.wf(),
        pairs * 2 == img.height,
    ensures
        lines@.len() == pairs,
        forall|p: int| 0 <= p < lines@.len() ==> #[trigger] lines@[p]@ == row_seq(img@, p, img.width as nat),
{
    (0..pairs).into_par_iter().map(|p| render_row(img, p)).collect()
}

/// Renders images to `xsize` columns of half-block cells.
pub struct Renderer {
    pub xsize: usize,
    pub ysize: usize,
}

impl Renderer {
    /// The pixel size an image is resized to before rendering: `xsize`
    /// columns and an even number of rows that follows its aspect ratio.
    pub fn max_size(&self, image: &RasterImage) -> (r: (usize, usize))
        requires
            self.xsize < usize::MAX,
        ensures
            r.0 == self.xsize,
            r.1 == target_height(self.xsize as nat, image.width as nat, image.height as nat),
            r.1 % 2 == 0,
    {
        let xsize = self.xsize;
        let w = image.width;
        let h = image.height;
        let q: usize = if w == 0 || h == 0 {
            0
        } else if w < h {
            assert((xsize as int) * (w as int) <= u128::MAX) by (nonlinear_arith)
                requires xsize <= usize::MAX, w <= u32::MAX, usize::MAX < 0x1_0000_0000_0000_0000;
            let big = (xsize as u128) * (w as u128);
            assert(big / (h as u128) <= xsize) by (nonlinear_arith)
                requires big == xsize * w, w < h, h > 0, xsize >= 0;
            (big / (h as u128)) as usize
        } else {
            assert((xsize as int) * (h as int) <= u128::MAX) by (nonlinear_arith)
                requires xsize <= usize::MAX, h <= u32::MAX, usize::MAX < 0x1_0000_0000_0000_0000;
            let big = (xsize as u128) * (h as u128);
            assert(big / (w as u128) <= xsize) by (nonlinear_arith)
                requires big == xsize * h, h <= w, w > 0, xsize >= 0;
            (big / (w as u128)) as usize
        };
        if q % 2 == 1 {
            (xsize, q + 1)
        } else {
            (xsize, q)
        }
    }

    /// Whether `render_image` can take `image`: its buffer matches its
    /// size, and the resized frame fits in memory.
    pub fn can_render(&self, image: &RasterImage) -> (b: bool)
        ensures
            b == (image.wf() && self.xsize < usize::MAX && resize_fits(
                image.width as nat,
                self.xsize as nat,
                target_height(self.xsize as nat, image.width as nat, image.height as nat),
            )),
    {
        let w = image.width as u128;
        let h = image.height as u128;
        let len = image.pixels.len() as u128;
        assert(w * h * 4 <= u128::MAX) by (nonlinear_arith)
            requires w <= u32::MAX, h <= u32::MAX;
        if len != w * h * 4 || self.xsize == usize::MAX {
            return false;
        }
        let (x, th) = self.max_size(image);
        let x = x as u128;
        let th = th as u128;
        let limit = isize::MAX as u128;
        if x > u32::MAX as u128 || th > u32::MAX as u128 {
            return false;
        }
        assert(x * th * 4 <= u128::MAX) by (nonlinear_arith)
            requires x <= u32::MAX, th <= u32::MAX;
        assert(w * th * 16 <= u128::MAX) by (nonlinear_arith)
            requires w <= u32::MAX, th <= u32::MAX;
        x * th * 4 <= limit && w * th * 16 <= limit
    }

    /// Renders `image` to text lines: resized to `max_size` by nearest
    /// neighbour, then one line per pair of pixel rows, one glyph per
    /// column. Lines are rendered in parallel.
    pub fn render_image(&self, image: &RasterImage) -> (lines: Vec<String>)
        requires
            image.wf(),
            self.xsize < usize::MAX,
            resize_fits(
                image.width as nat,
                self.xsize as nat,
                target_height(self.xsize as nat, image.width as nat, image.height as nat),
            ),
        ensures
            ({
                let h = target_height(self.xsize as nat, image.width as nat, image.height as nat);
                &&& h % 2 == 0
                &&& lines@.len() * 2 == h
                &&& forall|p: int| 0 <= p < lines@.len() ==> glyph_count(#[trigger] lines@[p]@) == self.xsize
                &&& forall|p: int| 0 <= p < lines@.len() ==>
                    #[trigger] lines@[p]@ == frame_seq(resized_view(image@, self.xsize as nat, h))[p]
            }),
    {
        let (w, h) = self.max_size(image);
        let small = resize_nearest(image, w as u32, h as u32);
        let lines = render_rows_parallel(&small, h / 2);
        proof {
            let th = target_height(self.xsize as nat, image.width as nat, image.height as nat);
            assert(small@ == resized_view(image@, self.xsize as nat, th));
            lemma_frame_shape(small@);
            assert forall|p: int| 0 <= p < lines@.len() implies
                #[trigger] lines@[p]@ == frame_seq(resized_view(image@, self.xsize as nat, th))[p] by {
                assert(lines@[p]@ == row_seq(small@, p, small.width as nat));
            }
        }
        lines
    }
}

} // verus!
