//! The per-frame batch pipeline: decode, downscale, render, encode; and the
//! batch report that isolates per-frame failures.

use vstd::prelude::*;
use vstd::arithmetic::mul::lemma_mul_inequality;
use crate::imgio::decode_image;
use crate::imgio::decoded_img_of;
use crate::imgio::decoded_of;
use crate::imgio::encode_png;
use crate::imgio::font_data_of;
use crate::imgio::image_dims;
use crate::imgio::image_rgba_bytes;
use crate::imgio::png_of;
use crate::imgio::resize_image;
use crate::imgio::resized_of;
use crate::ramp::GlyphRamp;
use crate::render::Frame;
use crate::render::RenderConfig;
use crate::render::render_frame;
use crate::render::rendered_rgba;

verus! {

/// Width of the working resolution frames are downscaled to.
pub const DEFAULT_TARGET_W: u32 = 240;

/// Height of the working resolution frames are downscaled to.
pub const DEFAULT_TARGET_H: u32 = 135;

/// Why one frame of a batch was not rendered.  A frame's failure is
/// recorded and never aborts its siblings.
#[derive(Debug)]
pub enum FrameError {
    /// The input bytes do not decode as an image.
    Decode(image::error::ImageError),
    /// The decoded image has no pixels.
    Empty,
    /// The rendered canvas could not be encoded.
    Encode(image::error::ImageError),
}

/// Configuration of the per-frame pipeline: the working resolution and the
/// renderer's configuration.
pub struct PipelineConfig {
    pub target_w: u32,
    pub target_h: u32,
    pub render: RenderConfig,
}

impl PipelineConfig {
    /// The working resolution is non-empty and small enough that every
    /// canvas it can produce fits in memory and in i32 coordinates.
    pub open spec fn wf(&self) -> bool {
        &&& self.render.wf()
        &&& 1 <= self.target_w
        &&& 1 <= self.target_h
        &&& self.target_w * self.render.cell_w <= 0x4000_0000
        &&& self.target_h * self.render.cell_h <= 0x4000_0000
        &&& 4 * (self.target_w * self.render.cell_w) * (self.target_h * self.render.cell_h)
            <= u32::MAX
    }

    /// The default configuration.
    pub fn new_default() -> (c: PipelineConfig)
        ensures
            c.wf(),
            c.target_w == DEFAULT_TARGET_W,
            c.target_h == DEFAULT_TARGET_H,
            c.render == (RenderConfig {
                cell_w: crate::render::DEFAULT_CELL_W,
                cell_h: crate::render::DEFAULT_CELL_H,
                scale_x: crate::render::DEFAULT_GLYPH_SCALE_X,
                scale_y: crate::render::DEFAULT_GLYPH_SCALE_Y,
            }),
    {
        let c = PipelineConfig {
            target_w: DEFAULT_TARGET_W,
            target_h: DEFAULT_TARGET_H,
            render: RenderConfig::new_default(),
        };
        proof {
            assert(c.render.wf());
            assert(1 <= c.target_w);
            assert(1 <= c.target_h);
            assert(c.target_w * c.render.cell_w <= 0x4000_0000);
            assert(c.target_h * c.render.cell_h <= 0x4000_0000);
            assert(4 * (c.target_w * c.render.cell_w) * (c.target_h * c.render.cell_h)
                <= u32::MAX) by (nonlinear_arith)
                requires
                    c.target_w == 240,
                    c.render.cell_w == 20,
                    c.target_h == 135,
                    c.render.cell_h == 20,
            ;
        }
        c
    }
}

/// The PNG bytes owed for an input: `None` where the input does not decode
/// or decodes to an image with no pixels; otherwise the PNG encoding of the
/// canvas rendered from the downscaled image.
pub open spec fn process_spec(
    bytes: Seq<u8>,
    ramp: Seq<Seq<char>>,
    font: Seq<u8>,
    cfg: PipelineConfig,
) -> Option<Seq<u8>> {
    match decoded_of(bytes) {
        Option::Some(d) => {
            if 1 <= d.0.0 && 1 <= d.0.1 {
                let rs = resized_of(decoded_img_of(bytes), cfg.target_w as int, cfg.target_h as int);
                Option::Some(png_of(
                    rendered_rgba(
                        rs.0.0,
                        rs.0.1,
                        rs.1,
                        ramp,
                        font,
                        cfg.render.scale_x as int,
                        cfg.render.scale_y as int,
                        cfg.render.cell_w as int,
                        cfg.render.cell_h as int,
                    ),
                    rs.0.0 * cfg.render.cell_w,
                    rs.0.1 * cfg.render.cell_h,
                ))
            } else {
                Option::None
            }
        },
        Option::None => Option::None,
    }
}

/// Processes one frame: decode the input bytes, downscale to the working
/// resolution, render the glyph canvas, and encode it as PNG.  A failure
/// names its stage and touches nothing outside this frame.
pub fn process_frame(
    bytes: &[u8],
    ramp: &GlyphRamp,
    font: &rusttype::Font<'static>,
    cfg: &PipelineConfig,
) -> (r: Result<Vec<u8>, FrameError>)
    requires
        ramp.wf(),
        cfg.wf(),
    ensures
        match r {
            Ok(v) => process_spec(bytes@, ramp@, font_data_of(*font), *cfg) == Some(v@),
            Err(e) => match e {
                FrameError::Decode(_) => decoded_of(bytes@) is None,
                FrameError::Empty => (decoded_of(bytes@) matches Some(d)
                    && (d.0.0 < 1 || d.0.1 < 1)),
                FrameError::Encode(_) => process_spec(bytes@, ramp@, font_data_of(*font), *cfg)
                    is Some,
            },
        },
        (decoded_of(bytes@) matches Some(d) && 1 <= d.0.0 && 1 <= d.0.1) ==> r is Ok,
        r is Ok ==> ({
            let rs = resized_of(decoded_img_of(bytes@), cfg.target_w as int, cfg.target_h as int);
            &&& 1 <= rs.0.0 <= cfg.target_w
            &&& 1 <= rs.0.1 <= cfg.target_h
        }),
{
    let img = match decode_image(bytes) {
        Ok(img) => img,
        Err(e) => {
            return Err(FrameError::Decode(e));
        },
    };
    let d = image_dims(&img);
    if d.0 < 1 || d.1 < 1 {
        return Err(FrameError::Empty);
    }
    let resized = resize_image(&img, cfg.target_w, cfg.target_h);
    let rd = image_dims(&resized);
    let data = image_rgba_bytes(&resized);
    let frame = Frame { width: rd.0, height: rd.1, data };
    proof {
        lemma_mul_inequality(rd.0 as int, cfg.target_w as int, cfg.render.cell_w as int);
        lemma_mul_inequality(rd.1 as int, cfg.target_h as int, cfg.render.cell_h as int);
        lemma_mul_inequality(1, rd.0 as int, cfg.render.cell_w as int);
        lemma_mul_inequality(1, rd.1 as int, cfg.render.cell_h as int);
        assert(4 * ((rd.0 as int) * (cfg.render.cell_w as int))
            * ((rd.1 as int) * (cfg.render.cell_h as int))
            <= 4 * ((cfg.target_w as int) * (cfg.render.cell_w as int))
                * ((cfg.target_h as int) * (cfg.render.cell_h as int))) by (nonlinear_arith)
            requires
                0 <= rd.0 as int <= cfg.target_w as int,
                0 <= rd.1 as int <= cfg.target_h as int,
                0 <= cfg.render.cell_w as int,
                0 <= cfg.render.cell_h as int,
        ;
        assert(usize::MAX >= u32::MAX);
    }
    let canvas = render_frame(&frame, ramp, font, &cfg.render);
    match encode_png(&canvas.data, canvas.width, canvas.height) {
        Ok(v) => Ok(v),
        Err(e) => Err(FrameError::Encode(e)),
    }
}

/// Number of successful outcomes in a batch.
pub open spec fn count_ok(s: Seq<bool>) -> int
    decreases s.len(),
{
    if s.len() == 0 {
        0
    } else {
        count_ok(s.drop_last()) + (if s.last() {
            1int
        } else {
            0int
        })
    }
}

/// The success count never exceeds the batch size.
pub proof fn lemma_count_ok_bounds(s: Seq<bool>)
    ensures
        0 <= count_ok(s) <= s.len(),
    decreases s.len(),
{
    if s.len() > 0 {
        lemma_count_ok_bounds(s.drop_last());
    }
}

/// A batch where every frame succeeds counts every frame as rendered.
pub proof fn lemma_all_ok(s: Seq<bool>)
    requires
        forall|i: int| 0 <= i < s.len() ==> s[i],
    ensures
        count_ok(s) == s.len(),
    decreases s.len(),
{
    if s.len() > 0 {
        lemma_all_ok(s.drop_last());
    }
}

/// A batch of independent frames where exactly one fails reports exactly
/// one failure: every sibling of the failed frame is still rendered.
pub proof fn lemma_single_failure(s: Seq<bool>, k: int)
    requires
        0 <= k < s.len(),
        !s[k],
        forall|i: int| 0 <= i < s.len() && i != k ==> s[i],
    ensures
        count_ok(s) == s.len() - 1,
    decreases s.len(),
{
    if k == s.len() - 1 {
        lemma_all_ok(s.drop_last());
    } else {
        lemma_single_failure(s.drop_last(), k);
    }
}

/// The outcome counts of one batch run.
pub struct BatchReport {
    pub discovered: usize,
    pub rendered: usize,
    pub failed: usize,
}

/// Tallies the per-frame outcomes of a batch into its report: every frame
/// is counted exactly once, as rendered or as failed.
pub fn tally_outcomes(outcomes: &Vec<bool>) -> (rep: BatchReport)
    ensures
        rep.discovered == outcomes@.len(),
        rep.rendered == count_ok(outcomes@),
        rep.failed == outcomes@.len() - count_ok(outcomes@),
{
    let mut rendered: usize = 0;
    let mut i: usize = 0;
    while i < outcomes.len()
        invariant
            i <= outcomes@.len(),
            rendered <= i,
            rendered == count_ok(outcomes@.take(i as int)),
        decreases outcomes@.len() - i,
    {
        proof {
            assert(outcomes@.take(i as int + 1).drop_last() =~= outcomes@.take(i as int));
            assert(outcomes@.take(i as int + 1).last() == outcomes@[i as int]);
        }
        if outcomes[i] {
            rendered = rendered + 1;
        }
        i = i + 1;
    }
    proof {
        assert(outcomes@.take(outcomes@.len() as int) =~= outcomes@);
        lemma_count_ok_bounds(outcomes@);
    }
    BatchReport {
        discovered: outcomes.len(),
        rendered,
        failed: outcomes.len() - rendered,
    }
}

} // verus!
