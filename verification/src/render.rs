//! The frame renderer: turns one decoded frame into a colored glyph canvas.
//!
//! Each source pixel becomes one cell of the canvas; the cell shows the ramp
//! glyph chosen for the pixel's luminance, drawn in the pixel's own color
//! over an opaque black background.

use vstd::prelude::*;
use vstd::arithmetic::div_mod::lemma_fundamental_div_mod_converse;
use vstd::arithmetic::mul::lemma_mul_inequality;
use crate::imgio::draw_of;
use crate::imgio::draw_text_rgba;
use crate::imgio::font_data_of;
use crate::imgio::glyph_box_of;
use crate::imgio::in_draw_box;
use crate::ramp::GlyphRamp;
use crate::ramp::luminance_of;
use crate::ramp::pixel_glyph_index;

verus! {

/// Width, in canvas pixels, of the cell drawn for one source pixel.
pub const DEFAULT_CELL_W: u32 = 20;

/// Height, in canvas pixels, of the cell drawn for one source pixel.
pub const DEFAULT_CELL_H: u32 = 20;

/// Horizontal glyph rasterization scale, in font units.
pub const DEFAULT_GLYPH_SCALE_X: u32 = 36;

/// Vertical glyph rasterization scale, in font units.
pub const DEFAULT_GLYPH_SCALE_Y: u32 = 28;

/// The renderer's configuration: cell size and glyph scale.
pub struct RenderConfig {
    pub cell_w: u32,
    pub cell_h: u32,
    pub scale_x: u32,
    pub scale_y: u32,
}

impl RenderConfig {
    /// Cells are non-empty and the glyph scale stays within the range the
    /// rasterizer is relied upon for.
    pub open spec fn wf(&self) -> bool {
        &&& 1 <= self.cell_w
        &&& 1 <= self.cell_h
        &&& 1 <= self.scale_x <= 0x1_0000
        &&& 1 <= self.scale_y <= 0x1_0000
    }

    /// The default configuration.
    pub fn new_default() -> (c: RenderConfig)
        ensures
            c.wf(),
            c == (RenderConfig {
                cell_w: DEFAULT_CELL_W,
                cell_h: DEFAULT_CELL_H,
                scale_x: DEFAULT_GLYPH_SCALE_X,
                scale_y: DEFAULT_GLYPH_SCALE_Y,
            }),
    {
        RenderConfig {
            cell_w: DEFAULT_CELL_W,
            cell_h: DEFAULT_CELL_H,
            scale_x: DEFAULT_GLYPH_SCALE_X,
            scale_y: DEFAULT_GLYPH_SCALE_Y,
        }
    }
}

/// A decoded frame: its dimensions and its pixels as RGBA bytes in
/// row-major order, four bytes per pixel.
pub struct Frame {
    pub width: u32,
    pub height: u32,
    pub data: Vec<u8>,
}

impl Frame {
    /// The buffer holds exactly four bytes for each pixel.
    pub open spec fn wf(&self) -> bool {
        self.data@.len() == 4 * self.width * self.height
    }

    /// Builds a frame, rejecting a buffer whose length does not match the
    /// dimensions.
    pub fn new(width: u32, height: u32, data: Vec<u8>) -> (r: Option<Frame>)
        ensures
            match r {
                Some(f) => {
                    &&& f.width == width
                    &&& f.height == height
                    &&& f.data@ == data@
                    &&& f.wf()
                },
                None => data@.len() != 4 * width * height,
            },
    {
        proof {
            assert(4 * (width as int) * (height as int) <= u128::MAX) by (nonlinear_arith)
                requires
                    width <= u32::MAX,
                    height <= u32::MAX,
            ;
        }
        if data.len() as u128 == 4u128 * (width as u128) * (height as u128) {
            Some(Frame { width, height, data })
        } else {
            None
        }
    }
}

/// An RGBA canvas owned by the rendering step.
pub struct Canvas {
    pub width: u32,
    pub height: u32,
    pub data: Vec<u8>,
}

impl Canvas {
    /// The buffer holds exactly four bytes for each pixel.
    pub open spec fn wf(&self) -> bool {
        self.data@.len() == 4 * self.width * self.height
    }
}

/// The RGBA bytes of the pixel at index `i` of a row-major buffer.
pub open spec fn pixel_at(data: Seq<u8>, i: int) -> (u8, u8, u8, u8) {
    (data[4 * i], data[4 * i + 1], data[4 * i + 2], data[4 * i + 3])
}

/// The contents of a fresh canvas: every pixel opaque black.
pub open spec fn blank_rgba(w: int, h: int) -> Seq<u8> {
    Seq::new((4 * w * h) as nat, |j: int| if j % 4 == 3 { 255u8 } else { 0u8 })
}

/// The canvas contents after the first `n` pixels of a `w` x `h` frame have
/// been drawn, in row-major order, onto the blank canvas: pixel `i` draws
/// its ramp glyph at cell `(i % w, i / w)` in the pixel's color with alpha
/// forced opaque.
pub open spec fn rendered_prefix(
    w: int,
    h: int,
    data: Seq<u8>,
    ramp: Seq<Seq<char>>,
    font: Seq<u8>,
    sx: int,
    sy: int,
    cw: int,
    ch: int,
    n: int,
) -> Seq<u8>
    decreases n,
{
    if n <= 0 {
        blank_rgba(w * cw, h * ch)
    } else {
        let i = n - 1;
        let p = pixel_at(data, i);
        draw_of(
            rendered_prefix(w, h, data, ramp, font, sx, sy, cw, ch, i),
            w * cw,
            h * ch,
            (p.0, p.1, p.2, 255u8),
            (i % w) * cw,
            (i / w) * ch,
            sx,
            sy,
            font,
            ramp[pixel_glyph_index(p.0, p.1, p.2, p.3)],
        )
    }
}

/// The contents of the finished canvas for a whole frame.
pub open spec fn rendered_rgba(
    w: int,
    h: int,
    data: Seq<u8>,
    ramp: Seq<Seq<char>>,
    font: Seq<u8>,
    sx: int,
    sy: int,
    cw: int,
    ch: int,
) -> Seq<u8> {
    rendered_prefix(w, h, data, ramp, font, sx, sy, cw, ch, w * h)
}

/// Whether the glyph drawn for pixel `k` of a `w`-pixel-wide frame may
/// touch byte `j` of the frame's canvas: `j` lies inside the hull of the
/// glyph's bounding boxes, placed at the pixel's cell.
pub open spec fn cell_may_touch(
    j: int,
    w: int,
    data: Seq<u8>,
    ramp: Seq<Seq<char>>,
    font: Seq<u8>,
    sx: int,
    sy: int,
    cw: int,
    ch: int,
    k: int,
) -> bool {
    let p = pixel_at(data, k);
    in_draw_box(
        j,
        w * cw,
        (k % w) * cw,
        (k / w) * ch,
        glyph_box_of(font, sx, sy, ramp[pixel_glyph_index(p.0, p.1, p.2, p.3)]),
    )
}

/// Renders one frame onto a fresh canvas of `width * cell_w` by
/// `height * cell_h` pixels.  The canvas holds exactly the fold of the
/// rasterizer over the frame's pixels, and every byte that no cell's glyph
/// box touches keeps the opaque black background: unrendered margins stay
/// black.
pub fn render_frame(
    frame: &Frame,
    ramp: &GlyphRamp,
    font: &rusttype::Font<'static>,
    cfg: &RenderConfig,
) -> (c: Canvas)
    requires
        frame.wf(),
        ramp.wf(),
        cfg.wf(),
        frame.width * cfg.cell_w <= 0x4000_0000,
        frame.height * cfg.cell_h <= 0x4000_0000,
        4 * (frame.width * cfg.cell_w) * (frame.height * cfg.cell_h) <= usize::MAX,
    ensures
        c.wf(),
        c.width == frame.width * cfg.cell_w,
        c.height == frame.height * cfg.cell_h,
        c.data@ == rendered_rgba(
            frame.width as int,
            frame.height as int,
            frame.data@,
            ramp@,
            font_data_of(*font),
            cfg.scale_x as int,
            cfg.scale_y as int,
            cfg.cell_w as int,
            cfg.cell_h as int,
        ),
        forall|j: int|
            0 <= j < c.data@.len() && (forall|k: int|
                0 <= k < frame.width * frame.height ==> !cell_may_touch(
                    j,
                    frame.width as int,
                    frame.data@,
                    ramp@,
                    font_data_of(*font),
                    cfg.scale_x as int,
                    cfg.scale_y as int,
                    cfg.cell_w as int,
                    cfg.cell_h as int,
                    k,
                )) ==> c.data@[j] == (if j % 4 == 3 {
                255u8
            } else {
                0u8
            }),
{
    let cw: u32 = frame.width * cfg.cell_w;
    let ch: u32 = frame.height * cfg.cell_h;
    proof {
        assert((cw as int) * (ch as int) <= usize::MAX) by (nonlinear_arith)
            requires
                0 <= cw as int,
                0 <= ch as int,
                4 * (cw as int) * (ch as int) <= usize::MAX,
        ;
        assert(4 * ((cw as int) * (ch as int)) == 4 * (cw as int) * (ch as int))
            by (nonlinear_arith);
    }
    let px_count: usize = (cw as usize) * (ch as usize);
    let total_bytes: usize = 4 * px_count;

    let mut buf: Vec<u8> = Vec::new();
    let mut j: usize = 0;
    while j < total_bytes
        invariant
            j <= total_bytes,
            total_bytes == 4 * cw * ch,
            buf@.len() == j,
            forall|k: int| 0 <= k < j ==> buf@[k] == (if k % 4 == 3 { 255u8 } else { 0u8 }),
        decreases total_bytes - j,
    {
        if j % 4 == 3 {
            buf.push(255);
        } else {
            buf.push(0);
        }
        j = j + 1;
    }
    proof {
        assert(buf@ =~= blank_rgba(cw as int, ch as int));
    }

    let ghost gfont: Seq<u8> = font_data_of(*font);
    let mut i: usize = 0;
    let mut y: u32 = 0;
    while y < frame.height
        invariant
            y <= frame.height,
            i as int == y as int * frame.width as int,
            i <= frame.width * frame.height,
            frame.wf(),
            ramp.wf(),
            cfg.wf(),
            cw == frame.width * cfg.cell_w,
            ch == frame.height * cfg.cell_h,
            frame.width * cfg.cell_w <= 0x4000_0000,
            frame.height * cfg.cell_h <= 0x4000_0000,
            gfont == font_data_of(*font),
            buf@.len() == 4 * cw * ch,
            buf@ == rendered_prefix(
                frame.width as int,
                frame.height as int,
                frame.data@,
                ramp@,
                gfont,
                cfg.scale_x as int,
                cfg.scale_y as int,
                cfg.cell_w as int,
                cfg.cell_h as int,
                i as int,
            ),
            forall|j: int|
                0 <= j < buf@.len() && (forall|k: int|
                    0 <= k < i as int ==> !cell_may_touch(
                        j,
                        frame.width as int,
                        frame.data@,
                        ramp@,
                        gfont,
                        cfg.scale_x as int,
                        cfg.scale_y as int,
                        cfg.cell_w as int,
                        cfg.cell_h as int,
                        k,
                    )) ==> buf@[j] == (if j % 4 == 3 {
                    255u8
                } else {
                    0u8
                }),
        decreases frame.height - y,
    {
        proof {
            lemma_mul_inequality(y as int + 1, frame.height as int, frame.width as int);
        }
        let mut x: u32 = 0;
        while x < frame.width
            invariant
                x <= frame.width,
                y < frame.height,
                i as int == y as int * frame.width as int + x as int,
                (y as int + 1) * frame.width as int <= frame.width * frame.height,
                frame.wf(),
                ramp.wf(),
                cfg.wf(),
                cw == frame.width * cfg.cell_w,
                ch == frame.height * cfg.cell_h,
                frame.width * cfg.cell_w <= 0x4000_0000,
                frame.height * cfg.cell_h <= 0x4000_0000,
                gfont == font_data_of(*font),
                buf@.len() == 4 * cw * ch,
                buf@ == rendered_prefix(
                    frame.width as int,
                    frame.height as int,
                    frame.data@,
                    ramp@,
                    gfont,
                    cfg.scale_x as int,
                    cfg.scale_y as int,
                    cfg.cell_w as int,
                    cfg.cell_h as int,
                    i as int,
                ),
                forall|j: int|
                    0 <= j < buf@.len() && (forall|k: int|
                        0 <= k < i as int ==> !cell_may_touch(
                            j,
                            frame.width as int,
                            frame.data@,
                            ramp@,
                            gfont,
                            cfg.scale_x as int,
                            cfg.scale_y as int,
                            cfg.cell_w as int,
                            cfg.cell_h as int,
                            k,
                        )) ==> buf@[j] == (if j % 4 == 3 {
                        255u8
                    } else {
                        0u8
                    }),
            decreases frame.width - x,
        {
            proof {
                assert(i as int + 1 <= (y as int + 1) * frame.width as int) by {
                    assert((y as int + 1) * frame.width as int
                        == y as int * frame.width as int + frame.width as int) by (nonlinear_arith);
                }
                lemma_mul_inequality(x as int, frame.width as int - 1, cfg.cell_w as int);
                lemma_mul_inequality(frame.width as int - 1, frame.width as int, cfg.cell_w as int);
                lemma_mul_inequality(y as int, frame.height as int - 1, cfg.cell_h as int);
                lemma_mul_inequality(frame.height as int - 1, frame.height as int, cfg.cell_h as int);
                assert(i as int + 1 <= frame.width as int * frame.height as int);
                assert(4 * (frame.width as int) * (frame.height as int)
                    == 4 * (frame.width as int * frame.height as int)) by (nonlinear_arith);
                assert(4 * (i as int) + 4 <= frame.data@.len());
            }
            let data_len: usize = frame.data.len();
            proof {
                assert(4 * (i as int) + 4 <= data_len as int);
            }
            let base: usize = 4 * i;
            let pr = frame.data[base];
            let pg = frame.data[base + 1];
            let pb = frame.data[base + 2];
            let pa = frame.data[base + 3];
            let lum = luminance_of(pr, pg, pb, pa);
            let glyph = ramp.glyph_for(lum);
            let x32: i32 = (x * cfg.cell_w) as i32;
            let y32: i32 = (y * cfg.cell_h) as i32;
            let ghost prev: Seq<u8> = buf@;
            buf = draw_text_rgba(
                buf,
                cw,
                ch,
                (pr, pg, pb, 255),
                x32,
                y32,
                cfg.scale_x,
                cfg.scale_y,
                font,
                glyph,
            );
            proof {
                lemma_fundamental_div_mod_converse(
                    i as int,
                    frame.width as int,
                    y as int,
                    x as int,
                );
                assert(pixel_at(frame.data@, i as int) == (pr, pg, pb, pa));
                assert(buf@ == rendered_prefix(
                    frame.width as int,
                    frame.height as int,
                    frame.data@,
                    ramp@,
                    gfont,
                    cfg.scale_x as int,
                    cfg.scale_y as int,
                    cfg.cell_w as int,
                    cfg.cell_h as int,
                    i as int + 1,
                ));
                assert forall|j: int|
                    0 <= j < buf@.len() && (forall|k: int|
                        0 <= k < i as int + 1 ==> !cell_may_touch(
                            j,
                            frame.width as int,
                            frame.data@,
                            ramp@,
                            gfont,
                            cfg.scale_x as int,
                            cfg.scale_y as int,
                            cfg.cell_w as int,
                            cfg.cell_h as int,
                            k,
                        )) implies buf@[j] == (if j % 4 == 3 {
                    255u8
                } else {
                    0u8
                }) by {
                    assert(!cell_may_touch(
                        j,
                        frame.width as int,
                        frame.data@,
                        ramp@,
                        gfont,
                        cfg.scale_x as int,
                        cfg.scale_y as int,
                        cfg.cell_w as int,
                        cfg.cell_h as int,
                        i as int,
                    ));
                    assert(buf@[j] == prev[j]);
                }
            }
            i = i + 1;
            x = x + 1;
        }
        proof {
            assert(y as int * frame.width as int + frame.width as int
                == (y as int + 1) * frame.width as int) by (nonlinear_arith);
        }
        y = y + 1;
    }

    proof {
        assert(frame.height as int * frame.width as int
            == frame.width as int * frame.height as int);
    }
    Canvas { width: cw, height: ch, data: buf }
}

/// Rendering is deterministic: two canvases rendered from the same frame
/// contents, ramp, font data and configuration hold identical bytes.
pub proof fn lemma_render_deterministic(
    c1: Canvas,
    c2: Canvas,
    w: int,
    h: int,
    data: Seq<u8>,
    ramp: Seq<Seq<char>>,
    font: Seq<u8>,
    sx: int,
    sy: int,
    cw: int,
    ch: int,
)
    requires
        c1.data@ == rendered_rgba(w, h, data, ramp, font, sx, sy, cw, ch),
        c2.data@ == rendered_rgba(w, h, data, ramp, font, sx, sy, cw, ch),
    ensures
        c1.data@ == c2.data@,
{
}

} // verus!
