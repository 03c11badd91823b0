use vstd::prelude::*;

use vstd::arithmetic::div_mod::{
    lemma_fundamental_div_mod, lemma_fundamental_div_mod_converse_div,
    lemma_fundamental_div_mod_converse_mod, lemma_hoist_over_denominator,
    lemma_mod_multiples_vanish,
};

use crate::color::Color;
use crate::raygen::{ctx_wf, pixel_color, pixel_spec, RenderContext};
use crate::shade::GroundPattern;

verus! {

/// Number of horizontal row-bands the viewport is split into, one concurrent
/// unit of work per band.
pub const NUM_BANDS: usize = 16;

/// First row of band `j`, for a viewport of `h` rows: bands are
/// `h / NUM_BANDS` rows tall.
pub open spec fn band_lo(h: int, j: int) -> int {
    j * (h / (NUM_BANDS as int))
}

/// One-past-the-last row of band `j`: the last band absorbs the remainder
/// rows, so the sixteen bands cover `[0, h)` exactly once.
pub open spec fn band_hi(h: int, j: int) -> int {
    if j < NUM_BANDS - 1 {
        (j + 1) * (h / (NUM_BANDS as int))
    } else {
        h
    }
}

/// How many rows the first `j` bands cover.
pub open spec fn covered_rows(h: int, j: int) -> int {
    if j == 0 {
        0
    } else {
        band_hi(h, j - 1)
    }
}

/// The row-major colors of rows `[y0, y1)` of the frame: for each row, the
/// pixel colors of all columns left to right.
pub open spec fn band_spec(ctx: RenderContext, pat: GroundPattern, y0: int, y1: int) -> Seq<
    Color,
> {
    Seq::new(
        ((y1 - y0) * (ctx.width as int)) as nat,
        |i: int|
            pixel_spec(ctx, pat, i % (ctx.width as int), y0 + i / (ctx.width as int)),
    )
}

/// The full row-major frame: all rows of the viewport.
pub open spec fn frame_spec(ctx: RenderContext, pat: GroundPattern) -> Seq<Color> {
    band_spec(ctx, pat, 0, ctx.height as int)
}

/// A finished frame: its size and its row-major pixel colors.  Recreated
/// whole by every render pass, never patched in place.
#[derive(Clone, Debug)]
pub struct PixelBuffer {
    pub width: usize,
    pub height: usize,
    pub pixels: Vec<Color>,
}

/// The buffer holds exactly one color per pixel of its viewport.
pub open spec fn buf_wf(buf: PixelBuffer) -> bool {
    buf.pixels@.len() == buf.height * buf.width
}

/// Each band starts where the one before it ended, and all of them lie
/// within the viewport.
pub proof fn lemma_band_bounds(h: int, j: int)
    requires
        0 <= h,
        0 <= j < NUM_BANDS,
    ensures
        0 <= band_lo(h, j) <= band_hi(h, j) <= h,
        band_lo(h, j) == covered_rows(h, j),
{
    let q = h / (NUM_BANDS as int);
    lemma_fundamental_div_mod(h, NUM_BANDS as int);
    assert(h / 16 >= 0) by (nonlinear_arith)
        requires
            h >= 0,
    ;
    assert(0 <= j * q <= (j + 1) * q) by (nonlinear_arith)
        requires
            0 <= j,
            0 <= q,
    ;
    assert((j + 1) * q <= 16 * q) by (nonlinear_arith)
        requires
            j + 1 <= 16,
            0 <= q,
    ;
}

/// The sixteen bands tile the viewport: the first starts at row zero, each
/// later band starts exactly where the one before it ended, and the last
/// ends at the final row — every row lies in exactly one band, with no gap
/// and no overlap.
pub proof fn lemma_bands_partition(h: int)
    requires
        0 <= h,
    ensures
        band_lo(h, 0) == 0,
        band_hi(h, NUM_BANDS - 1) == h,
        forall|j: int| 0 <= j < NUM_BANDS - 1 ==> #[trigger] band_hi(h, j) == band_lo(h, j + 1),
        forall|j: int| 0 <= j < NUM_BANDS ==> #[trigger] band_lo(h, j) <= band_hi(h, j),
{
    assert forall|j: int| 0 <= j < NUM_BANDS implies #[trigger] band_lo(h, j) <= band_hi(
        h,
        j,
    ) by {
        lemma_band_bounds(h, j);
    }
}

/// Splitting a run of rows anywhere splits its row-major colors into the
/// concatenation of the two parts: the heart of band-by-band rendering.
pub proof fn lemma_band_split(
    ctx: RenderContext,
    pat: GroundPattern,
    y0: int,
    ym: int,
    y1: int,
)
    requires
        0 <= y0 <= ym <= y1,
    ensures
        band_spec(ctx, pat, y0, y1) == band_spec(ctx, pat, y0, ym) + band_spec(
            ctx,
            pat,
            ym,
            y1,
        ),
{
    let w = ctx.width as int;
    let a = band_spec(ctx, pat, y0, ym);
    let b = band_spec(ctx, pat, ym, y1);
    let c = band_spec(ctx, pat, y0, y1);
    assert((y1 - y0) * w == (ym - y0) * w + (y1 - ym) * w) by (nonlinear_arith);
    assert forall|i: int| 0 <= i < c.len() implies c[i] == (a + b)[i] by {
        assert(w >= 1) by (nonlinear_arith)
            requires
                0 <= (y1 - y0),
                (y1 - y0) * w > 0,
        ;
        if i < a.len() {
            assert((a + b)[i] == a[i]);
        } else {
            let k = i - (ym - y0) * w;
            assert((a + b)[i] == b[k]);
            assert(0 <= k < (y1 - ym) * w);
            lemma_hoist_over_denominator(k, ym - y0, w as nat);
            assert(w * (ym - y0) == (ym - y0) * w) by (nonlinear_arith);
            lemma_mod_multiples_vanish(ym - y0, k, w);
            assert(i % w == k % w);
            assert(y0 + i / w == ym + k / w);
        }
    }
    assert(c =~= a + b);
}

/// The sixteen per-band sub-buffers, concatenated in band order: band 0
/// first, band `j - 1` last.
pub open spec fn concat_bands(ctx: RenderContext, pat: GroundPattern, j: int) -> Seq<Color>
    decreases j,
{
    if j <= 0 {
        Seq::empty()
    } else {
        concat_bands(ctx, pat, j - 1) + band_spec(
            ctx,
            pat,
            band_lo(ctx.height as int, j - 1),
            band_hi(ctx.height as int, j - 1),
        )
    }
}

proof fn lemma_concat_bands_prefix(ctx: RenderContext, pat: GroundPattern, j: int)
    requires
        0 <= j <= NUM_BANDS,
    ensures
        concat_bands(ctx, pat, j) == band_spec(
            ctx,
            pat,
            0,
            covered_rows(ctx.height as int, j),
        ),
    decreases j,
{
    let h = ctx.height as int;
    if j == 0 {
        assert(band_spec(ctx, pat, 0, 0) =~= Seq::<Color>::empty());
    } else {
        lemma_concat_bands_prefix(ctx, pat, j - 1);
        lemma_band_bounds(h, j - 1);
        lemma_band_split(ctx, pat, 0, band_lo(h, j - 1), band_hi(h, j - 1));
    }
}

/// Concatenating the per-band sub-buffers in band order reproduces exactly
/// the row-major colors of a single full-frame pass over the same camera
/// snapshot and viewport: the render is deterministic across the band
/// partition.
pub proof fn lemma_concat_bands_is_frame(ctx: RenderContext, pat: GroundPattern)
    ensures
        concat_bands(ctx, pat, NUM_BANDS as int) == frame_spec(ctx, pat),
{
    lemma_concat_bands_prefix(ctx, pat, NUM_BANDS as int);
}

/// Partitions `height` rows into the sixteen bands: fifteen bands of
/// `height / 16` rows, and a final band running to the last row.
pub fn band_ranges(height: usize) -> (v: Vec<(usize, usize)>)
    ensures
        v@.len() == NUM_BANDS,
        forall|j: int|
            #![trigger v@[j]]
            0 <= j < NUM_BANDS ==> v@[j].0 == band_lo(height as int, j) && v@[j].1 == band_hi(
                height as int,
                j,
            ),
{
    let step: usize = height / NUM_BANDS;
    proof {
        lemma_fundamental_div_mod(height as int, NUM_BANDS as int);
    }
    let mut v: Vec<(usize, usize)> = Vec::new();
    let mut j: usize = 0;
    while j < NUM_BANDS - 1
        invariant
            j <= NUM_BANDS - 1,
            v@.len() == j,
            step == height as int / (NUM_BANDS as int),
            16 * step <= height,
            forall|k: int|
                #![trigger v@[k]]
                0 <= k < j ==> v@[k].0 == band_lo(height as int, k) && v@[k].1 == band_hi(
                    height as int,
                    k,
                ),
        decreases NUM_BANDS - 1 - j,
    {
        proof {
            assert(0 <= j * step <= (j + 1) * step <= 16 * step) by (nonlinear_arith)
                requires
                    0 <= j,
                    j + 1 <= 16,
                    0 <= step,
            ;
        }
        v.push((j * step, (j + 1) * step));
        j += 1;
    }
    proof {
        assert(0 <= 15 * step <= 16 * step) by (nonlinear_arith)
            requires
                0 <= step,
        ;
    }
    v.push((15 * step, height));
    v
}

/// Renders rows `[y0, y1)` of the frame into a row-major sub-buffer: the
/// work of one band's worker, independent of every other band.
pub fn render_band(ctx: &RenderContext, pat: GroundPattern, y0: usize, y1: usize) -> (pix: Vec<
    Color,
>)
    requires
        ctx_wf(*ctx),
        y0 <= y1,
        y1 <= ctx.height,
    ensures
        pix@ == band_spec(*ctx, pat, y0 as int, y1 as int),
{
    let w: usize = ctx.width;
    let mut pix: Vec<Color> = Vec::new();
    let mut y: usize = y0;
    while y < y1
        invariant
            ctx_wf(*ctx),
            w == ctx.width,
            y0 <= y <= y1,
            y1 <= ctx.height,
            pix@.len() == (y - y0) * w,
            forall|i: int|
                0 <= i < pix@.len() ==> #[trigger] pix@[i] == pixel_spec(
                    *ctx,
                    pat,
                    i % (w as int),
                    y0 + i / (w as int),
                ),
        decreases y1 - y,
    {
        let mut x: usize = 0;
        while x < w
            invariant
                ctx_wf(*ctx),
                w == ctx.width,
                y0 <= y < y1,
                y1 <= ctx.height,
                x <= w,
                pix@.len() == (y - y0) * w + x,
                forall|i: int|
                    0 <= i < pix@.len() ==> #[trigger] pix@[i] == pixel_spec(
                        *ctx,
                        pat,
                        i % (w as int),
                        y0 + i / (w as int),
                    ),
            decreases w - x,
        {
            let c = pixel_color(ctx, pat, x, y);
            proof {
                lemma_fundamental_div_mod_converse_div(
                    pix@.len() as int,
                    w as int,
                    y - y0,
                    x as int,
                );
                lemma_fundamental_div_mod_converse_mod(
                    pix@.len() as int,
                    w as int,
                    y - y0,
                    x as int,
                );
            }
            pix.push(c);
            x += 1;
        }
        proof {
            assert((y - y0) * w + w == (y + 1 - y0) * w) by (nonlinear_arith);
        }
        y += 1;
    }
    proof {
        assert(pix@ =~= band_spec(*ctx, pat, y0 as int, y1 as int));
    }
    pix
}

/// Renders the whole frame band by band and concatenates the sub-buffers in
/// band order into one row-major pixel buffer.
pub fn render(ctx: &RenderContext, pat: GroundPattern) -> (buf: PixelBuffer)
    requires
        ctx_wf(*ctx),
    ensures
        buf.width == ctx.width,
        buf.height == ctx.height,
        buf.pixels@ == frame_spec(*ctx, pat),
        buf_wf(buf),
{
    let bands = band_ranges(ctx.height);
    let mut pixels: Vec<Color> = Vec::new();
    proof {
        assert(band_spec(*ctx, pat, 0, 0) =~= Seq::<Color>::empty());
    }
    let mut j: usize = 0;
    while j < NUM_BANDS
        invariant
            ctx_wf(*ctx),
            j <= NUM_BANDS,
            bands@.len() == NUM_BANDS,
            forall|k: int|
                #![trigger bands@[k]]
                0 <= k < NUM_BANDS ==> bands@[k].0 == band_lo(ctx.height as int, k)
                    && bands@[k].1 == band_hi(ctx.height as int, k),
            pixels@ == band_spec(*ctx, pat, 0, covered_rows(ctx.height as int, j as int)),
        decreases NUM_BANDS - j,
    {
        proof {
            lemma_band_bounds(ctx.height as int, j as int);
        }
        let y0: usize = bands[j].0;
        let y1: usize = bands[j].1;
        let mut sub = render_band(ctx, pat, y0, y1);
        proof {
            lemma_band_split(*ctx, pat, 0, y0 as int, y1 as int);
        }
        pixels.append(&mut sub);
        j += 1;
    }
    proof {
        assert((ctx.height as int) * (ctx.width as int) == (ctx.width as int) * (
        ctx.height as int)) by (nonlinear_arith);
    }
    PixelBuffer { width: ctx.width, height: ctx.height, pixels }
}

/// Renders the whole frame in one single-threaded pass: one worker walking
/// every row.  Returns exactly the same buffer as the banded render.
pub fn render_single(ctx: &RenderContext, pat: GroundPattern) -> (buf: PixelBuffer)
    requires
        ctx_wf(*ctx),
    ensures
        buf.width == ctx.width,
        buf.height == ctx.height,
        buf.pixels@ == frame_spec(*ctx, pat),
        buf_wf(buf),
{
    let pixels = render_band(ctx, pat, 0, ctx.height);
    proof {
        assert((ctx.height as int) * (ctx.width as int) == (ctx.width as int) * (
        ctx.height as int)) by (nonlinear_arith);
    }
    PixelBuffer { width: ctx.width, height: ctx.height, pixels }
}

} // verus!
