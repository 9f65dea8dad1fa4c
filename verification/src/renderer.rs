//! The renderer: per-frame orchestration of the two-pass multisample
//! coverage technique.
//!
//! The first pass accumulates one coverage sample per draw call into an
//! intermediate texture; the output pass counts the samples for each pixel
//! and determines its final color. Each `draw` turns the frame's glyph
//! outlines into a script of buffer uploads and draw calls; the embedder
//! executes the script against the GPU and presents the output texture.

use vstd::prelude::*;
use vstd::std_specs::cmp::PartialEqSpec;

use crate::cached::{concat_wgpu_bytes, BufferWrite, Cached, CachedBuffer};
use crate::pipelines::{spec_pipelines, Pipelines};
use crate::ratio::{Ratio, RatioVec2};
use crate::structs::{
    BezierCurveInstance, FirstPassUniform, OutputPassUniform, Vec2Bits, Vec4Bits, WgpuStruct,
    F32_ONE_BITS, F32_ZERO_BITS, MIN_UNIFORM_BUFFER_OFFSET_ALIGNMENT,
};

verus! {

/// Number of sub-pixel coverage samples accumulated per frame.
pub const SAMPLE_COUNT: usize = 6;

/// Pixel extent of a texture: the key that sizes the cached render
/// targets.
#[derive(Debug, Clone, Copy)]
pub struct Extent2d {
    pub width: u32,
    pub height: u32,
}

impl PartialEq for Extent2d {
    fn eq(&self, other: &Extent2d) -> (r: bool) {
        self.width == other.width && self.height == other.height
    }
}

impl vstd::std_specs::cmp::PartialEqSpecImpl for Extent2d {
    open spec fn obeys_eq_spec() -> bool {
        true
    }

    open spec fn eq_spec(&self, other: &Extent2d) -> bool {
        self.width == other.width && self.height == other.height
    }
}

/// One sub-pixel coverage sample: a jitter offset in sixths of a pixel and
/// the color channels the sample contributes to.
#[derive(Debug, Clone, Copy, PartialEq, Eq, Structural)]
pub struct SampleDesc {
    /// Horizontal jitter, in sixths of a pixel.
    pub offset_x_sixths: u32,
    /// Vertical jitter, in sixths of a pixel.
    pub offset_y_sixths: u32,
    /// RGBA channel mask, each channel 1.0 or 0.0 as a bit pattern.
    pub components: Vec4Bits,
}

/// An RGBA channel mask with the given color channels selected.
///
/// Metadata is stored in the alpha channel on all samples, to ensure that
/// every pixel gets some metadata.
pub open spec fn spec_mask(red: bool, green: bool, blue: bool) -> Vec4Bits {
    Vec4Bits {
        r: if red { F32_ONE_BITS } else { F32_ZERO_BITS },
        g: if green { F32_ONE_BITS } else { F32_ZERO_BITS },
        b: if blue { F32_ONE_BITS } else { F32_ZERO_BITS },
        a: F32_ONE_BITS,
    }
}

/// The fixed six-sample jitter table: two samples per color channel,
/// spread across the pixel.
pub open spec fn spec_sample(i: int) -> SampleDesc {
    if i == 0 {
        SampleDesc { offset_x_sixths: 0, offset_y_sixths: 4, components: spec_mask(false, false, true) }
    } else if i == 1 {
        SampleDesc { offset_x_sixths: 1, offset_y_sixths: 1, components: spec_mask(false, false, true) }
    } else if i == 2 {
        SampleDesc { offset_x_sixths: 2, offset_y_sixths: 5, components: spec_mask(false, true, false) }
    } else if i == 3 {
        SampleDesc { offset_x_sixths: 3, offset_y_sixths: 2, components: spec_mask(false, true, false) }
    } else if i == 4 {
        SampleDesc { offset_x_sixths: 4, offset_y_sixths: 3, components: spec_mask(true, false, false) }
    } else {
        SampleDesc { offset_x_sixths: 5, offset_y_sixths: 0, components: spec_mask(true, false, false) }
    }
}

/// An RGBA channel mask with the given color channels selected.
pub fn mask(red: bool, green: bool, blue: bool) -> (r: Vec4Bits)
    ensures
        r == spec_mask(red, green, blue),
{
    Vec4Bits {
        r: if red { F32_ONE_BITS } else { F32_ZERO_BITS },
        g: if green { F32_ONE_BITS } else { F32_ZERO_BITS },
        b: if blue { F32_ONE_BITS } else { F32_ZERO_BITS },
        a: F32_ONE_BITS,
    }
}

/// The `i`-th entry of the sample jitter table.
pub fn sample_descriptor(i: usize) -> (r: SampleDesc)
    requires
        i < SAMPLE_COUNT,
    ensures
        r == spec_sample(i as int),
{
    if i == 0 {
        SampleDesc { offset_x_sixths: 0, offset_y_sixths: 4, components: mask(false, false, true) }
    } else if i == 1 {
        SampleDesc { offset_x_sixths: 1, offset_y_sixths: 1, components: mask(false, false, true) }
    } else if i == 2 {
        SampleDesc { offset_x_sixths: 2, offset_y_sixths: 5, components: mask(false, true, false) }
    } else if i == 3 {
        SampleDesc { offset_x_sixths: 3, offset_y_sixths: 2, components: mask(false, true, false) }
    } else if i == 4 {
        SampleDesc { offset_x_sixths: 4, offset_y_sixths: 3, components: mask(true, false, false) }
    } else {
        SampleDesc { offset_x_sixths: 5, offset_y_sixths: 0, components: mask(true, false, false) }
    }
}

/// The control points of one quadratic Bezier curve, relative to the
/// glyph's offset, in ems.
#[derive(Debug, Clone, Copy, PartialEq, Eq, Structural)]
pub struct CurvePoints {
    /// Start point.
    pub p0: Vec2Bits,
    /// Middle control point.
    pub p1: Vec2Bits,
    /// End point.
    pub p2: Vec2Bits,
}

/// One glyph outline: an offset plus its quadratic Bezier curves.
#[derive(Debug, Clone)]
pub struct Glyph {
    /// XY offset of the glyph, measured in ems.
    pub offset: Vec2Bits,
    /// Bezier curve data for the glyph, measured in ems.
    pub curves: Vec<CurvePoints>,
}

/// A value describing one frame's rendering request.
#[derive(Debug, Clone)]
pub struct DrawParams {
    /// Size of the output texture, in pixels.
    pub output_size: Extent2d,
    /// Number of pixels in the texture per em in the font; positive.
    pub px_per_em: Ratio,
    /// XY em-space coordinates to be displayed at the center of screen.
    pub translation: RatioVec2,
    /// The glyph outlines to render, in order.
    pub glyphs: Vec<Glyph>,
    /// Gamma value (typically 2.2), as an IEEE binary32 bit pattern;
    /// forwarded verbatim into the resolve shader's uniform block.
    pub gamma: u32,
    /// Whether to enable subpixel anti-aliasing; forwarded verbatim.
    pub subpixel_aa: bool,
}

/// The curve-instance record for one curve of one glyph.
pub open spec fn instance_of(offset: Vec2Bits, c: CurvePoints) -> BezierCurveInstance {
    BezierCurveInstance { offset, p0: c.p0, p1: c.p1, p2: c.p2 }
}

/// The curve-instance records of one glyph, in curve order.
pub open spec fn glyph_instances(g: Glyph) -> Seq<BezierCurveInstance> {
    g.curves@.map(|i: int, c: CurvePoints| instance_of(g.offset, c))
}

/// The curve-instance records of all glyphs, flattened in glyph order.
pub open spec fn all_instances(gs: Seq<Glyph>) -> Seq<BezierCurveInstance>
    decreases gs.len(),
{
    if gs.len() == 0 {
        Seq::empty()
    } else {
        all_instances(gs.drop_last()) + glyph_instances(gs.last())
    }
}

/// The sum of curve counts across all glyphs.
pub open spec fn total_curves(gs: Seq<Glyph>) -> nat
    decreases gs.len(),
{
    if gs.len() == 0 {
        0
    } else {
        total_curves(gs.drop_last()) + gs.last().curves@.len()
    }
}

/// The flattened instance list holds exactly one record per curve: its
/// length is the sum of curve counts across all glyphs.
pub proof fn lemma_all_instances_len(gs: Seq<Glyph>)
    ensures
        all_instances(gs).len() == total_curves(gs),
    decreases gs.len(),
{
    if gs.len() > 0 {
        lemma_all_instances_len(gs.drop_last());
    }
}

/// Flattens all glyphs' curves into one ordered sequence of curve-instance
/// records, each carrying its glyph's offset.
pub fn bezier_instances(glyphs: &Vec<Glyph>) -> (r: Vec<BezierCurveInstance>)
    ensures
        r@ == all_instances(glyphs@),
{
    let mut r: Vec<BezierCurveInstance> = Vec::new();
    let mut gi: usize = 0;
    while gi < glyphs.len()
        invariant
            0 <= gi <= glyphs@.len(),
            r@ == all_instances(glyphs@.take(gi as int)),
        decreases glyphs@.len() - gi,
    {
        let g: &Glyph = &glyphs[gi];
        let mut ci: usize = 0;
        while ci < g.curves.len()
            invariant
                0 <= ci <= g.curves@.len(),
                gi < glyphs@.len(),
                *g == glyphs@[gi as int],
                r@ == all_instances(glyphs@.take(gi as int)) + glyph_instances(
                    glyphs@[gi as int],
                ).take(ci as int),
            decreases g.curves@.len() - ci,
        {
            let c = g.curves[ci];
            r.push(BezierCurveInstance { offset: g.offset, p0: c.p0, p1: c.p1, p2: c.p2 });
            proof {
                assert(glyph_instances(glyphs@[gi as int]).take(ci as int + 1) =~= glyph_instances(
                    glyphs@[gi as int],
                ).take(ci as int).push(instance_of(g.offset, c)));
            }
            ci += 1;
        }
        proof {
            assert(glyph_instances(glyphs@[gi as int]).take(g.curves@.len() as int)
                =~= glyph_instances(glyphs@[gi as int]));
            assert(glyphs@.take(gi as int + 1).drop_last() =~= glyphs@.take(gi as int));
        }
        gi += 1;
    }
    proof {
        assert(glyphs@.take(glyphs@.len() as int) =~= glyphs@);
    }
    r
}

/// Exact per-frame coordinates, before rounding to GPU floats.
#[derive(Debug, Clone)]
pub struct FrameCoords {
    /// Scale from ems to normalized device coordinates.
    pub ndc_per_em: RatioVec2,
    /// Per-sample translation: the pan translation with the sample's
    /// sub-pixel jitter baked in, in ems; one entry per sample.
    pub sample_translations: Vec<RatioVec2>,
}

/// Computes the em-to-NDC scale: `(2 / width, 2 / height) * px_per_em`,
/// exactly.
pub fn ndc_scale(ppe: Ratio, width: u32, height: u32) -> (r: RatioVec2)
    requires
        ppe.small(),
        0 < ppe.num,
        width > 0,
        height > 0,
    ensures
        r.x.num == 2 * ppe.num,
        r.x.den == ppe.den * width,
        r.y.num == 2 * ppe.num,
        r.y.den == ppe.den * height,
        r.x.wf(),
        r.y.wf(),
{
    proof {
        let pd = ppe.den as int;
        let b: int = 0x1000_0000_0000_0000;
        assert(0 < pd * width <= b * 0x1_0000_0000) by (nonlinear_arith)
            requires
                0 < pd <= b,
                0 < width <= 0xffff_ffff,
                b == 0x1000_0000_0000_0000,
        ;
        assert(0 < pd * height <= b * 0x1_0000_0000) by (nonlinear_arith)
            requires
                0 < pd <= b,
                0 < height <= 0xffff_ffff,
                b == 0x1000_0000_0000_0000,
        ;
    }
    RatioVec2 {
        x: Ratio { num: 2 * ppe.num, den: ppe.den * (width as i128) },
        y: Ratio { num: 2 * ppe.num, den: ppe.den * (height as i128) },
    }
}

/// Combines the pan translation with one sample's jitter, exactly:
/// `t + (sixths / 6) / px_per_em`, the jitter being `sixths` sixths of a
/// pixel converted to ems.
pub fn jitter_translation(t: Ratio, ppe: Ratio, sixths: u32) -> (r: Ratio)
    requires
        t.small(),
        ppe.small(),
        0 < ppe.num,
        sixths <= 6,
    ensures
        r.num == t.num * 6 * ppe.num + sixths * ppe.den * t.den,
        r.den == t.den * 6 * ppe.num,
        r.wf(),
{
    proof {
        let tn = t.num as int;
        let td = t.den as int;
        let pn = ppe.num as int;
        let pd = ppe.den as int;
        let s = sixths as int;
        let b: int = 0x1000_0000_0000_0000;
        assert(-6 * b * b <= tn * 6 * pn <= 6 * b * b) by (nonlinear_arith)
            requires
                -b <= tn <= b,
                0 < pn <= b,
                b == 0x1000_0000_0000_0000,
        ;
        assert(0 <= s * pd <= 6 * b && 0 <= s * pd * td <= 6 * b * b) by (nonlinear_arith)
            requires
                0 <= s <= 6,
                0 < pd <= b,
                0 < td <= b,
                b == 0x1000_0000_0000_0000,
        ;
        assert(0 < td * 6 * pn <= 6 * b * b) by (nonlinear_arith)
            requires
                0 < td <= b,
                0 < pn <= b,
                b == 0x1000_0000_0000_0000,
        ;
    }
    let num: i128 = t.num * 6 * ppe.num + (sixths as i128) * ppe.den * t.den;
    let den: i128 = t.den * 6 * ppe.num;
    Ratio { num, den }
}

/// Computes one frame's exact coordinates from its parameters: the
/// em-to-NDC scale, and one jittered translation per sample.
pub fn frame_coords(params: &DrawParams) -> (r: FrameCoords)
    requires
        params.output_size.width > 0,
        params.output_size.height > 0,
        params.px_per_em.small(),
        0 < params.px_per_em.num,
        params.translation.x.small(),
        params.translation.y.small(),
    ensures
        r.ndc_per_em.x.num == 2 * params.px_per_em.num,
        r.ndc_per_em.x.den == params.px_per_em.den * params.output_size.width,
        r.ndc_per_em.y.num == 2 * params.px_per_em.num,
        r.ndc_per_em.y.den == params.px_per_em.den * params.output_size.height,
        r.ndc_per_em.x.wf(),
        r.ndc_per_em.y.wf(),
        r.sample_translations@.len() == SAMPLE_COUNT,
        forall|k: int|
            0 <= k < SAMPLE_COUNT ==> {
                let t = #[trigger] r.sample_translations@[k];
                let s = spec_sample(k);
                let px = params.translation.x;
                let py = params.translation.y;
                let ppe = params.px_per_em;
                &&& t.x.num == px.num * 6 * ppe.num + s.offset_x_sixths * ppe.den * px.den
                &&& t.x.den == px.den * 6 * ppe.num
                &&& t.y.num == py.num * 6 * ppe.num + s.offset_y_sixths * ppe.den * py.den
                &&& t.y.den == py.den * 6 * ppe.num
                &&& t.x.wf()
                &&& t.y.wf()
            },
{
    let ndc_per_em = ndc_scale(
        params.px_per_em,
        params.output_size.width,
        params.output_size.height,
    );
    let mut sample_translations: Vec<RatioVec2> = Vec::new();
    let mut k: usize = 0;
    while k < SAMPLE_COUNT
        invariant
            0 <= k <= SAMPLE_COUNT,
            params.px_per_em.small(),
            0 < params.px_per_em.num,
            params.translation.x.small(),
            params.translation.y.small(),
            sample_translations@.len() == k,
            forall|j: int|
                0 <= j < k ==> {
                    let t = #[trigger] sample_translations@[j];
                    let s = spec_sample(j);
                    let px = params.translation.x;
                    let py = params.translation.y;
                    let ppe = params.px_per_em;
                    &&& t.x.num == px.num * 6 * ppe.num + s.offset_x_sixths * ppe.den * px.den
                    &&& t.x.den == px.den * 6 * ppe.num
                    &&& t.y.num == py.num * 6 * ppe.num + s.offset_y_sixths * ppe.den * py.den
                    &&& t.y.den == py.den * 6 * ppe.num
                    &&& t.x.wf()
                    &&& t.y.wf()
                },
        decreases SAMPLE_COUNT - k,
    {
        let s = sample_descriptor(k);
        let tx = jitter_translation(params.translation.x, params.px_per_em, s.offset_x_sixths);
        let ty = jitter_translation(params.translation.y, params.px_per_em, s.offset_y_sixths);
        sample_translations.push(RatioVec2 { x: tx, y: ty });
        k += 1;
    }
    FrameCoords { ndc_per_em, sample_translations }
}

/// One frame's coordinates rounded to GPU form: every value an IEEE
/// binary32 bit pattern. The embedder produces these from `FrameCoords`
/// by rounding each exact rational to the nearest 32-bit float.
#[derive(Debug, Clone)]
pub struct FrameBits {
    /// Scale from ems to normalized device coordinates.
    pub scale: Vec2Bits,
    /// Per-sample jittered translation, in ems; one entry per sample.
    pub sample_translations: Vec<Vec2Bits>,
}

/// Builds the six first-pass uniform blocks: each takes its channel mask
/// from the sample table and carries the frame's scale and that sample's
/// jittered translation.
pub fn first_pass_uniform_records(frame: &FrameBits) -> (r: Vec<FirstPassUniform>)
    requires
        frame.sample_translations@.len() == SAMPLE_COUNT,
    ensures
        r@.len() == SAMPLE_COUNT,
        forall|k: int|
            0 <= k < SAMPLE_COUNT ==> (#[trigger] r@[k]) == (FirstPassUniform {
                components: spec_sample(k).components,
                scale: frame.scale,
                translation: frame.sample_translations@[k],
            }),
{
    let mut r: Vec<FirstPassUniform> = Vec::new();
    let mut k: usize = 0;
    while k < SAMPLE_COUNT
        invariant
            0 <= k <= SAMPLE_COUNT,
            frame.sample_translations@.len() == SAMPLE_COUNT,
            r@.len() == k,
            forall|j: int|
                0 <= j < k ==> (#[trigger] r@[j]) == (FirstPassUniform {
                    components: spec_sample(j).components,
                    scale: frame.scale,
                    translation: frame.sample_translations@[j],
                }),
        decreases SAMPLE_COUNT - k,
    {
        let s = sample_descriptor(k);
        r.push(
            FirstPassUniform {
                components: s.components,
                scale: frame.scale,
                translation: frame.sample_translations[k],
            },
        );
        k += 1;
    }
    r
}

/// Which of the three pipelines a draw call runs.
#[derive(Debug, Clone, Copy, PartialEq, Eq, Structural)]
pub enum PipelineKind {
    /// First-pass flat-triangle coverage.
    Triangles,
    /// First-pass curve-interior correction.
    Beziers,
    /// Output-pass resolve.
    Output,
}

/// One draw call of the frame script.
#[derive(Debug, Clone, Copy, PartialEq, Eq, Structural)]
pub struct DrawCall {
    /// The pipeline bound for the call.
    pub pipeline: PipelineKind,
    /// Dynamic byte offset selecting the call's uniform block.
    pub uniform_offset: u32,
    /// Number of vertices drawn.
    pub vertex_count: u32,
    /// Number of instances drawn.
    pub instance_count: u32,
}

/// Everything the embedder executes for one non-degenerate frame: the
/// uniform records, the buffer uploads, and the draw calls of both render
/// passes. Both passes clear their target to transparent and must be
/// submitted together, in order, so the output pass reads the first
/// pass's writes.
#[derive(Debug, Clone)]
pub struct FrameScript {
    /// Number of curve instances drawn by every first-pass call.
    pub instance_count: u32,
    /// The six first-pass uniform blocks, in sample order.
    pub first_pass_uniforms: Vec<FirstPassUniform>,
    /// The output-pass uniform block.
    pub output_pass_uniform: OutputPassUniform,
    /// Upload rewriting the curve-instance buffer.
    pub bezier_writes: Vec<BufferWrite>,
    /// Uploads rewriting the first-pass uniform buffer, one block per
    /// sample at its aligned stride offset.
    pub first_pass_uniform_writes: Vec<BufferWrite>,
    /// Upload rewriting the output-pass uniform buffer.
    pub output_pass_uniform_writes: Vec<BufferWrite>,
    /// The first pass's draw calls: six triangle-coverage calls, then six
    /// curve-coverage calls, each instanced over every curve.
    pub first_pass_draws: Vec<DrawCall>,
    /// The output pass's single full-screen draw call.
    pub output_pass_draw: DrawCall,
}

/// What one `draw` call produced: either the defined degenerate result
/// (the embedder presents its 1x1 dummy texture and issues no GPU work
/// beyond it) or a frame script to execute.
#[derive(Debug, Clone)]
pub enum DrawResult {
    /// Zero output area or zero curve instances: no frame is rendered.
    Degenerate,
    /// A frame script to execute.
    Frame(FrameScript),
}

/// How one texture cache steps across a draw: its key becomes `size`, and
/// the stored object is recreated only if the key changed.
pub open spec fn texture_cache_step<T>(
    pre: Cached<Extent2d, T>,
    post: Cached<Extent2d, T>,
    size: Extent2d,
) -> bool {
    &&& post.spec_key() == Some(size)
    &&& (pre.spec_hit(size) ==> post == pre)
    &&& (!pre.spec_hit(size) ==> post.generation@ == pre.generation@ + 1)
}

/// How one buffer cache steps across a draw: its key becomes `len`, and
/// the stored object is recreated only if the key changed.
pub open spec fn buffer_cache_step<B>(
    pre: Cached<usize, B>,
    post: Cached<usize, B>,
    len: usize,
) -> bool {
    &&& post.spec_key() == Some(len)
    &&& (pre.spec_hit(len) ==> post == pre)
    &&& (!pre.spec_hit(len) ==> post.generation@ == pre.generation@ + 1)
}

/// Law: two draws with identical output size do not recreate a cached
/// texture. If a cache steps to `size` and then steps to the same `size`
/// again, the second step changes nothing: the same underlying object is
/// reused and no new generation is created.
pub proof fn lemma_cache_stability<T>(
    pre: Cached<Extent2d, T>,
    mid: Cached<Extent2d, T>,
    post: Cached<Extent2d, T>,
    size: Extent2d,
)
    requires
        texture_cache_step(pre, mid, size),
        texture_cache_step(mid, post, size),
    ensures
        post == mid,
{
    assert(mid.spec_hit(size));
}

/// Law: a draw with a changed output size recreates a cached texture,
/// keyed to the new extent: the step from a cache holding `size1` to a
/// request for a different `size2` constructs exactly one new object.
pub proof fn lemma_cache_resize<T>(
    mid: Cached<Extent2d, T>,
    post: Cached<Extent2d, T>,
    size1: Extent2d,
    size2: Extent2d,
)
    requires
        mid.spec_key() == Some(size1),
        texture_cache_step(mid, post, size2),
        size1.width != size2.width || size1.height != size2.height,
    ensures
        post.spec_key() == Some(size2),
        post.generation@ == mid.generation@ + 1,
{
    assert(!mid.spec_hit(size2));
}

/// GPU state for font rendering using a two-pass multisample-coverage
/// method.
///
/// The renderer owns the resource caches and the pipeline descriptions;
/// the GPU objects themselves (of types `T` for textures and `B` for
/// buffers) are created by factories the embedder passes into `draw`, so
/// the orchestration here is independent of any GPU API.
pub struct Renderer<T, B> {
    /// Texture accumulating samples during the first pass, cached by
    /// extent.
    pub first_pass_texture: Cached<Extent2d, T>,
    /// Texture holding colors during the output pass, cached by extent.
    pub output_pass_texture: Cached<Extent2d, T>,
    /// Buffer containing Bezier curve data.
    pub bezier_instance_buffer: CachedBuffer<BezierCurveInstance, B>,
    /// Uniform buffer for the first pass.
    pub first_pass_uniform_buffer: CachedBuffer<FirstPassUniform, B>,
    /// Uniform buffer for the output pass.
    pub output_pass_uniform_buffer: CachedBuffer<OutputPassUniform, B>,
    /// Shader pipeline descriptions.
    pub pipelines: Pipelines,
}

impl<T, B> Renderer<T, B> {
    /// Constructs a renderer with empty caches and the fixed pipeline
    /// set.
    pub fn new() -> (r: Self)
        ensures
            r.first_pass_texture.cached is None,
            r.first_pass_texture.generation@ == 0,
            r.output_pass_texture.cached is None,
            r.output_pass_texture.generation@ == 0,
            r.bezier_instance_buffer.inner.cached is None,
            r.bezier_instance_buffer.inner.generation@ == 0,
            r.first_pass_uniform_buffer.inner.cached is None,
            r.first_pass_uniform_buffer.inner.generation@ == 0,
            r.output_pass_uniform_buffer.inner.cached is None,
            r.output_pass_uniform_buffer.inner.generation@ == 0,
            r.pipelines == spec_pipelines(),
    {
        Renderer {
            first_pass_texture: Cached::new(),
            output_pass_texture: Cached::new(),
            bezier_instance_buffer: CachedBuffer::new(),
            first_pass_uniform_buffer: CachedBuffer::new(),
            output_pass_uniform_buffer: CachedBuffer::new(),
            pipelines: Pipelines::new(),
        }
    }

    /// Renders one frame: sizes the cached resources, rewrites the
    /// buffers, and scripts the two render passes.
    ///
    /// If either output dimension is zero the renderer's state is left
    /// untouched and no GPU work is scripted; if the glyphs yield zero
    /// curve instances, only the two texture caches have been sized.
    /// In both cases the degenerate result stands for the 1x1 dummy
    /// texture the embedder returns instead.
    pub fn draw<FT1, FT2, FB1, FB2, FB3>(
        &mut self,
        params: &DrawParams,
        frame: &FrameBits,
        make_first_pass_texture: FT1,
        make_output_pass_texture: FT2,
        make_bezier_buffer: FB1,
        make_first_pass_uniform_buffer: FB2,
        make_output_pass_uniform_buffer: FB3,
    ) -> (r: DrawResult) where
        FT1: FnOnce(Extent2d) -> T,
        FT2: FnOnce(Extent2d) -> T,
        FB1: FnOnce(usize) -> B,
        FB2: FnOnce(usize) -> B,
        FB3: FnOnce(usize) -> B,

        requires
            frame.sample_translations@.len() == SAMPLE_COUNT,
            total_curves(params.glyphs@) <= u32::MAX,
            call_requires(make_first_pass_texture, (params.output_size,)),
            call_requires(make_output_pass_texture, (params.output_size,)),
            forall|n: usize| call_requires(make_bezier_buffer, (n,)),
            forall|n: usize| call_requires(make_first_pass_uniform_buffer, (n,)),
            forall|n: usize| call_requires(make_output_pass_uniform_buffer, (n,)),
        ensures
            (params.output_size.width == 0 || params.output_size.height == 0) ==> {
                &&& r is Degenerate
                &&& *final(self) == *old(self)
            },
            (params.output_size.width > 0 && params.output_size.height > 0) ==> {
                &&& texture_cache_step(
                    old(self).first_pass_texture,
                    final(self).first_pass_texture,
                    params.output_size,
                )
                &&& texture_cache_step(
                    old(self).output_pass_texture,
                    final(self).output_pass_texture,
                    params.output_size,
                )
                &&& final(self).pipelines == old(self).pipelines
                &&& (total_curves(params.glyphs@) == 0 ==> {
                    &&& r is Degenerate
                    &&& final(self).bezier_instance_buffer == old(self).bezier_instance_buffer
                    &&& final(self).first_pass_uniform_buffer == old(
                        self,
                    ).first_pass_uniform_buffer
                    &&& final(self).output_pass_uniform_buffer == old(
                        self,
                    ).output_pass_uniform_buffer
                })
                &&& (total_curves(params.glyphs@) > 0 ==> {
                    &&& r matches DrawResult::Frame(script)
                    &&& script.instance_count == total_curves(params.glyphs@)
                    &&& buffer_cache_step(
                        old(self).bezier_instance_buffer.inner,
                        final(self).bezier_instance_buffer.inner,
                        total_curves(params.glyphs@) as usize,
                    )
                    &&& buffer_cache_step(
                        old(self).first_pass_uniform_buffer.inner,
                        final(self).first_pass_uniform_buffer.inner,
                        SAMPLE_COUNT,
                    )
                    &&& buffer_cache_step(
                        old(self).output_pass_uniform_buffer.inner,
                        final(self).output_pass_uniform_buffer.inner,
                        1,
                    )
                    &&& script.first_pass_uniforms@.len() == SAMPLE_COUNT
                    &&& forall|k: int|
                        0 <= k < SAMPLE_COUNT ==> (#[trigger] script.first_pass_uniforms@[k])
                            == (FirstPassUniform {
                            components: spec_sample(k).components,
                            scale: frame.scale,
                            translation: frame.sample_translations@[k],
                        })
                    &&& script.output_pass_uniform == (OutputPassUniform {
                        sample_count: SAMPLE_COUNT as u32,
                        subpixel_aa: if params.subpixel_aa { 1u32 } else { 0u32 },
                        gamma: params.gamma,
                    })
                    &&& script.bezier_writes@.len() == 1
                    &&& script.bezier_writes@[0].offset == 0
                    &&& script.bezier_writes@[0].bytes@ == concat_wgpu_bytes(
                        all_instances(params.glyphs@),
                    )
                    &&& script.first_pass_uniform_writes@.len() == SAMPLE_COUNT
                    &&& forall|k: int|
                        0 <= k < SAMPLE_COUNT ==> {
                            &&& (#[trigger] script.first_pass_uniform_writes@[k]).offset == k
                                * MIN_UNIFORM_BUFFER_OFFSET_ALIGNMENT
                            &&& script.first_pass_uniform_writes@[k].bytes@
                                == script.first_pass_uniforms@[k].spec_bytes()
                        }
                    &&& script.output_pass_uniform_writes@.len() == 1
                    &&& script.output_pass_uniform_writes@[0].offset == 0
                    &&& script.output_pass_uniform_writes@[0].bytes@
                        == script.output_pass_uniform.spec_bytes()
                    &&& script.first_pass_draws@.len() == 2 * SAMPLE_COUNT
                    &&& forall|i: int|
                        0 <= i < 2 * SAMPLE_COUNT ==> {
                            let d = #[trigger] script.first_pass_draws@[i];
                            &&& d.pipeline == (if i < SAMPLE_COUNT {
                                PipelineKind::Triangles
                            } else {
                                PipelineKind::Beziers
                            })
                            &&& d.uniform_offset == (i % (SAMPLE_COUNT as int))
                                * MIN_UNIFORM_BUFFER_OFFSET_ALIGNMENT
                            &&& d.vertex_count == 3
                            &&& d.instance_count == script.instance_count
                        }
                    &&& script.output_pass_draw == (DrawCall {
                        pipeline: PipelineKind::Output,
                        uniform_offset: 0,
                        vertex_count: 4,
                        instance_count: 1,
                    })
                })
            },
    {
        // Avoid crash on resizing texture.
        if params.output_size.width == 0 || params.output_size.height == 0 {
            return DrawResult::Degenerate;
        }
        let size = params.output_size;
        self.first_pass_texture.get(size, make_first_pass_texture);
        self.output_pass_texture.get(size, make_output_pass_texture);

        // Prepare bezier data.
        let bezier_data = bezier_instances(&params.glyphs);
        proof {
            lemma_all_instances_len(params.glyphs@);
        }

        // Avoid crash on empty draw call.
        if bezier_data.len() == 0 {
            return DrawResult::Degenerate;
        }
        let instance_count = bezier_data.len() as u32;

        // Prepare uniform data.
        let first_pass_uniforms = first_pass_uniform_records(frame);
        let output_pass_uniform = OutputPassUniform {
            sample_count: SAMPLE_COUNT as u32,
            subpixel_aa: if params.subpixel_aa {
                1
            } else {
                0
            },
            gamma: params.gamma,
        };

        // Resize and populate buffers.
        let bezier_writes = self.bezier_instance_buffer.with_data(
            &bezier_data,
            make_bezier_buffer,
        );
        let first_pass_uniform_writes = self.first_pass_uniform_buffer.with_data(
            &first_pass_uniforms,
            make_first_pass_uniform_buffer,
        );
        let mut output_pass_uniform_data: Vec<OutputPassUniform> = Vec::new();
        output_pass_uniform_data.push(output_pass_uniform);
        let output_pass_uniform_writes = self.output_pass_uniform_buffer.with_data(
            &output_pass_uniform_data,
            make_output_pass_uniform_buffer,
        );

        // Script the first render pass: for each sample, one draw with the
        // triangle-coverage pipeline, then for each sample one draw with
        // the curve-coverage pipeline.
        let mut first_pass_draws: Vec<DrawCall> = Vec::new();
        let mut i: usize = 0;
        while i < SAMPLE_COUNT
            invariant
                0 <= i <= SAMPLE_COUNT,
                first_pass_draws@.len() == i,
                forall|j: int|
                    0 <= j < i ==> (#[trigger] first_pass_draws@[j]) == (DrawCall {
                        pipeline: PipelineKind::Triangles,
                        uniform_offset: (j * MIN_UNIFORM_BUFFER_OFFSET_ALIGNMENT) as u32,
                        vertex_count: 3,
                        instance_count,
                    }),
            decreases SAMPLE_COUNT - i,
        {
            let uniform_buffer_offset = (i as u32) * (MIN_UNIFORM_BUFFER_OFFSET_ALIGNMENT as u32);
            first_pass_draws.push(
                DrawCall {
                    pipeline: PipelineKind::Triangles,
                    uniform_offset: uniform_buffer_offset,
                    vertex_count: 3,
                    instance_count,
                },
            );
            i += 1;
        }
        let mut i: usize = 0;
        while i < SAMPLE_COUNT
            invariant
                0 <= i <= SAMPLE_COUNT,
                first_pass_draws@.len() == SAMPLE_COUNT + i,
                forall|j: int|
                    0 <= j < SAMPLE_COUNT ==> (#[trigger] first_pass_draws@[j]) == (DrawCall {
                        pipeline: PipelineKind::Triangles,
                        uniform_offset: (j * MIN_UNIFORM_BUFFER_OFFSET_ALIGNMENT) as u32,
                        vertex_count: 3,
                        instance_count,
                    }),
                forall|j: int|
                    SAMPLE_COUNT <= j < SAMPLE_COUNT + i ==> (#[trigger] first_pass_draws@[j])
                        == (DrawCall {
                        pipeline: PipelineKind::Beziers,
                        uniform_offset: ((j - SAMPLE_COUNT) * MIN_UNIFORM_BUFFER_OFFSET_ALIGNMENT)
                            as u32,
                        vertex_count: 3,
                        instance_count,
                    }),
            decreases SAMPLE_COUNT - i,
        {
            let uniform_buffer_offset = (i as u32) * (MIN_UNIFORM_BUFFER_OFFSET_ALIGNMENT as u32);
            first_pass_draws.push(
                DrawCall {
                    pipeline: PipelineKind::Beziers,
                    uniform_offset: uniform_buffer_offset,
                    vertex_count: 3,
                    instance_count,
                },
            );
            i += 1;
        }

        // Script the output render pass: one full-screen draw.
        let output_pass_draw = DrawCall {
            pipeline: PipelineKind::Output,
            uniform_offset: 0,
            vertex_count: 4,
            instance_count: 1,
        };

        DrawResult::Frame(
            FrameScript {
                instance_count,
                first_pass_uniforms,
                output_pass_uniform,
                bezier_writes,
                first_pass_uniform_writes,
                output_pass_uniform_writes,
                first_pass_draws,
                output_pass_draw,
            },
        )
    }
}

} // verus!
