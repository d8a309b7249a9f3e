//! The frame a preview shows, and the text that draws it on screen.

use vstd::prelude::*;
use crate::escape::{goto, goto_seq};
use crate::protocol::frame_view;
use crate::raster::{frame_seq, lemma_frame_shape, render_lines, RasterImage};
use crate::renderer::{resize_fits, resize_nearest, resized_view, target_height, Renderer};

verus! {

/// Line `i` of a frame drawn at (`xpos`, `ypos`) lies on the screen: its
/// one-based cell fits termion's coordinates.
pub open spec fn line_visible(xpos: u16, ypos: u16, i: int) -> bool {
    xpos < u16::MAX && ypos + i < u16::MAX
}

/// The first `n` lines of a frame, each placed at its cell: column
/// `xpos`, row `ypos + i` (zero-based). Lines past the last row that can
/// be addressed are left out.
pub open spec fn drawlist_spec(xpos: u16, ypos: u16, lines: Seq<Seq<char>>, n: nat) -> Seq<char>
    decreases n,
{
    if n == 0 {
        Seq::empty()
    } else {
        let prev = drawlist_spec(xpos, ypos, lines, (n - 1) as nat);
        if line_visible(xpos, ypos, n - 1) {
            prev + goto_seq((xpos + 1) as u16, (ypos + n) as u16) + lines[n - 1]
        } else {
            prev
        }
    }
}

/// The frame of a preview at (`xpos`, `ypos`), `xsize` cells wide, and the
/// image it was rendered from.
pub struct ImgView {
    pub xpos: u16,
    pub ypos: u16,
    pub xsize: usize,
    pub buffer: Vec<String>,
    pub raw: RasterImage,
}

/// `raw` can be rendered at `xsize` columns.
pub open spec fn renderable(raw: RasterImage, xsize: usize) -> bool {
    &&& raw.wf()
    &&& xsize < usize::MAX
    &&& resize_fits(raw.width as nat, xsize as nat, target_height(xsize as nat, raw.width as nat, raw.height as nat))
}

/// The lines `raw` renders to at `xsize` columns.
pub open spec fn rendered(raw: RasterImage, xsize: usize) -> Seq<Seq<char>> {
    frame_seq(resized_view(raw@, xsize as nat, target_height(xsize as nat, raw.width as nat, raw.height as nat)))
}

impl ImgView {
    /// A view of a decoded image, with nothing rendered yet.
    pub fn new_from_file(xpos: u16, ypos: u16, xsize: usize, raw: RasterImage) -> (v: ImgView)
        ensures
            v.xpos == xpos,
            v.ypos == ypos,
            v.xsize == xsize,
            v.raw == raw,
            v.buffer@.len() == 0,
    {
        ImgView { xpos, ypos, xsize, buffer: Vec::new(), raw }
    }

    /// The pixel size the image is resized to before rendering.
    pub fn max_size(&self) -> (r: (usize, usize))
        requires
            self.xsize < usize::MAX,
        ensures
            r.0 == self.xsize,
            r.1 == target_height(self.xsize as nat, self.raw.width as nat, self.raw.height as nat),
    {
        let renderer = Renderer { xsize: self.xsize, ysize: 0 };
        renderer.max_size(&self.raw)
    }

    /// Renders the image into the buffer, one line after another.
    pub fn render(&mut self)
        requires
            renderable(old(self).raw, old(self).xsize),
        ensures
            frame_view(final(self).buffer) == rendered(old(self).raw, old(self).xsize),
            final(self).raw == old(self).raw,
            final(self).xsize == old(self).xsize,
            final(self).xpos == old(self).xpos,
            final(self).ypos == old(self).ypos,
    {
        let (w, h) = self.max_size();
        let small = resize_nearest(&self.raw, w as u32, h as u32);
        let lines = render_lines(&small);
        proof {
            lemma_frame_shape(small@);
            assert(small@ == resized_view(self.raw@, w as nat, h as nat));
            assert(frame_view(lines) =~= frame_seq(small@));
        }
        self.buffer = lines;
    }

    /// Replaces the image and renders it.
    pub fn set_raw_img(&mut self, img: RasterImage)
        requires
            renderable(img, old(self).xsize),
        ensures
            final(self).raw == img,
            frame_view(final(self).buffer) == rendered(img, old(self).xsize),
            final(self).xsize == old(self).xsize,
            final(self).xpos == old(self).xpos,
            final(self).ypos == old(self).ypos,
    {
        self.raw = img;
        self.render();
    }

    /// Replaces the whole frame at once.
    pub fn set_image_data(&mut self, frame: Vec<String>)
        ensures
            final(self).buffer == frame,
            final(self).raw == old(self).raw,
            final(self).xsize == old(self).xsize,
            final(self).xpos == old(self).xpos,
            final(self).ypos == old(self).ypos,
    {
        self.buffer = frame;
    }

    /// Renders the image if nothing is shown yet.
    pub fn refresh(&mut self)
        requires
            renderable(old(self).raw, old(self).xsize),
        ensures
            old(self).buffer@.len() == 0 ==> frame_view(final(self).buffer) == rendered(old(self).raw, old(self).xsize),
            old(self).buffer@.len() > 0 ==> *final(self) == *old(self),
    {
        if self.buffer.len() == 0 {
            self.render();
        }
    }

    /// The frame as text that draws each line at its place on screen.
    pub fn get_drawlist(&self) -> (s: String)
        ensures
            s@ == drawlist_spec(self.xpos, self.ypos, frame_view(self.buffer), self.buffer@.len()),
    {
        let n = self.buffer.len();
        let mut s = String::new();
        let mut i: usize = 0;
        while i < n
            invariant
                n == self.buffer@.len(),
                i <= n,
                s@ == drawlist_spec(self.xpos, self.ypos, frame_view(self.buffer), i as nat),
            decreases n - i,
        {
            if self.xpos < 65535 && i < 65535 - (self.ypos as usize) {
                let g = goto(self.xpos + 1, ((self.ypos as usize) + i + 1) as u16);
                s.append(g.as_str());
                s.append(self.buffer[i].as_str());
            }
            i = i + 1;
        }
        s
    }
}

} // verus!
