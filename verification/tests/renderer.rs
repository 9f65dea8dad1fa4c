//! Tests of the per-frame orchestration: degenerate cases, resource
//! caching, coordinate formulas, uniform contents and the draw-call
//! script.

use std::cell::Cell;
use std::rc::Rc;

use teqxt::pipelines::{Blend, FrontFace, PrimitiveTopology, RenderTarget};
use teqxt::ratio::{Ratio, RatioVec2};
use teqxt::renderer::{
    bezier_instances, frame_coords, jitter_translation, ndc_scale, sample_descriptor,
    CurvePoints, DrawParams, DrawResult, Extent2d, FrameBits, Glyph, PipelineKind, Renderer,
    SAMPLE_COUNT,
};
use teqxt::structs::{Vec2Bits, WgpuStruct, F32_ONE_BITS};

struct Counters {
    textures: Rc<Cell<u32>>,
    buffers: Rc<Cell<u32>>,
}

fn texture_factory(counters: &Counters) -> impl FnOnce(Extent2d) -> u32 {
    let n = Rc::clone(&counters.textures);
    move |_size: Extent2d| {
        n.set(n.get() + 1);
        n.get()
    }
}

fn buffer_factory(counters: &Counters) -> impl FnOnce(usize) -> u32 {
    let n = Rc::clone(&counters.buffers);
    move |_len: usize| {
        n.set(n.get() + 1);
        n.get()
    }
}

fn bits(v: f32) -> u32 {
    v.to_bits()
}

fn point(x: f32, y: f32) -> Vec2Bits {
    Vec2Bits { x: bits(x), y: bits(y) }
}

fn glyph_with_curves(offset: Vec2Bits, n: usize) -> Glyph {
    let mut curves: Vec<CurvePoints> = Vec::new();
    for i in 0..n {
        let p = point(i as f32, i as f32 + 1.0);
        curves.push(CurvePoints { p0: p, p1: point(0.0, 0.0), p2: point(1.0, 1.0) });
    }
    Glyph { offset, curves }
}

fn params_with(size: Extent2d, glyphs: Vec<Glyph>) -> DrawParams {
    DrawParams {
        output_size: size,
        px_per_em: Ratio::new(50, 1),
        translation: RatioVec2 { x: Ratio::new(0, 1), y: Ratio::new(0, 1) },
        glyphs,
        gamma: bits(2.2),
        subpixel_aa: false,
    }
}

fn frame_bits() -> FrameBits {
    FrameBits {
        scale: point(0.5, 1.0),
        sample_translations: vec![point(0.0, 0.0); SAMPLE_COUNT],
    }
}

fn run_draw(
    renderer: &mut Renderer<u32, u32>,
    counters: &Counters,
    params: &DrawParams,
) -> DrawResult {
    renderer.draw(
        params,
        &frame_bits(),
        texture_factory(counters),
        texture_factory(counters),
        buffer_factory(counters),
        buffer_factory(counters),
        buffer_factory(counters),
    )
}

fn new_counters() -> Counters {
    Counters { textures: Rc::new(Cell::new(0)), buffers: Rc::new(Cell::new(0)) }
}

#[test]
fn degenerate_zero_size_issues_no_work() {
    let mut renderer: Renderer<u32, u32> = Renderer::new();
    let counters = new_counters();
    for size in [
        Extent2d { width: 0, height: 100 },
        Extent2d { width: 100, height: 0 },
        Extent2d { width: 0, height: 0 },
    ] {
        let params = params_with(size, vec![glyph_with_curves(point(0.0, 0.0), 3)]);
        let r = run_draw(&mut renderer, &counters, &params);
        assert!(matches!(r, DrawResult::Degenerate));
    }
    // No texture or buffer was created for any zero-sized request.
    assert_eq!(counters.textures.get(), 0);
    assert_eq!(counters.buffers.get(), 0);
}

#[test]
fn degenerate_empty_glyphs_returns_dummy() {
    let mut renderer: Renderer<u32, u32> = Renderer::new();
    let counters = new_counters();
    let empty = params_with(Extent2d { width: 64, height: 64 }, vec![]);
    let r = run_draw(&mut renderer, &counters, &empty);
    assert!(matches!(r, DrawResult::Degenerate));
    // A glyph list whose glyphs hold zero curves is just as degenerate.
    let hollow = params_with(
        Extent2d { width: 64, height: 64 },
        vec![glyph_with_curves(point(0.0, 0.0), 0), glyph_with_curves(point(1.0, 0.0), 0)],
    );
    let r = run_draw(&mut renderer, &counters, &hollow);
    assert!(matches!(r, DrawResult::Degenerate));
    // No buffer was touched.
    assert_eq!(counters.buffers.get(), 0);
}

#[test]
fn instance_count_is_sum_of_curve_counts() {
    let mut renderer: Renderer<u32, u32> = Renderer::new();
    let counters = new_counters();
    let params = params_with(
        Extent2d { width: 100, height: 100 },
        vec![glyph_with_curves(point(1.0, 2.0), 5), glyph_with_curves(point(3.0, 4.0), 7)],
    );
    match run_draw(&mut renderer, &counters, &params) {
        DrawResult::Frame(script) => {
            assert_eq!(script.instance_count, 12);
            assert_eq!(script.bezier_writes.len(), 1);
            assert_eq!(script.bezier_writes[0].offset, 0);
            assert_eq!(
                script.bezier_writes[0].bytes.len() as u64,
                12 * teqxt::structs::BezierCurveInstance::wgpu_stride(),
            );
        },
        DrawResult::Degenerate => panic!("expected a frame"),
    }
}

#[test]
fn flattened_instances_carry_their_glyph_offset() {
    let g1 = glyph_with_curves(point(1.0, 2.0), 2);
    let g2 = glyph_with_curves(point(3.0, 4.0), 1);
    let instances = bezier_instances(&vec![g1, g2]);
    assert_eq!(instances.len(), 3);
    assert_eq!(instances[0].offset, point(1.0, 2.0));
    assert_eq!(instances[1].offset, point(1.0, 2.0));
    assert_eq!(instances[2].offset, point(3.0, 4.0));
    assert_eq!(instances[2].p2, point(1.0, 1.0));
}

#[test]
fn cache_stability_across_draws() {
    let mut renderer: Renderer<u32, u32> = Renderer::new();
    let counters = new_counters();
    let size = Extent2d { width: 100, height: 100 };
    let params = params_with(size, vec![glyph_with_curves(point(0.0, 0.0), 3)]);
    run_draw(&mut renderer, &counters, &params);
    assert_eq!(counters.textures.get(), 2);
    assert_eq!(counters.buffers.get(), 3);
    // Same output size and instance count: nothing is recreated.
    run_draw(&mut renderer, &counters, &params);
    assert_eq!(counters.textures.get(), 2);
    assert_eq!(counters.buffers.get(), 3);
    // A changed output size recreates exactly the two textures.
    let resized = params_with(Extent2d { width: 200, height: 100 }, params.glyphs.clone());
    run_draw(&mut renderer, &counters, &resized);
    assert_eq!(counters.textures.get(), 4);
    assert_eq!(counters.buffers.get(), 3);
    // A changed curve count recreates exactly the instance buffer.
    let regrown = params_with(Extent2d { width: 200, height: 100 }, vec![
        glyph_with_curves(point(0.0, 0.0), 4),
    ]);
    run_draw(&mut renderer, &counters, &regrown);
    assert_eq!(counters.textures.get(), 4);
    assert_eq!(counters.buffers.get(), 4);
}

#[test]
fn sample_count_invariant() {
    let mut renderer: Renderer<u32, u32> = Renderer::new();
    let counters = new_counters();
    for curves in [1usize, 3, 11] {
        let params = params_with(
            Extent2d { width: 32, height: 32 },
            vec![glyph_with_curves(point(0.0, 0.0), curves)],
        );
        match run_draw(&mut renderer, &counters, &params) {
            DrawResult::Frame(script) => {
                // Exactly six uniform blocks, at offsets that are
                // multiples of the dynamic-offset alignment, regardless
                // of glyph count.
                assert_eq!(script.first_pass_uniforms.len(), 6);
                assert_eq!(script.first_pass_uniform_writes.len(), 6);
                for (i, op) in script.first_pass_uniform_writes.iter().enumerate() {
                    assert_eq!(op.offset, i as u64 * 256);
                    assert_eq!(op.offset % 256, 0);
                }
            },
            DrawResult::Degenerate => panic!("expected a frame"),
        }
    }
}

#[test]
fn gamma_and_subpixel_passthrough() {
    let mut renderer: Renderer<u32, u32> = Renderer::new();
    let counters = new_counters();
    let mut params = params_with(
        Extent2d { width: 100, height: 100 },
        vec![glyph_with_curves(point(0.0, 0.0), 2)],
    );
    params.gamma = bits(1.8);
    params.subpixel_aa = true;
    match run_draw(&mut renderer, &counters, &params) {
        DrawResult::Frame(script) => {
            assert_eq!(script.output_pass_uniform.gamma, 1.8f32.to_bits());
            assert_eq!(script.output_pass_uniform.subpixel_aa, 1);
            assert_eq!(script.output_pass_uniform.sample_count, 6);
            let bytes = &script.output_pass_uniform_writes[0].bytes;
            assert_eq!(&bytes[8..12], &1.8f32.to_bits().to_le_bytes());
        },
        DrawResult::Degenerate => panic!("expected a frame"),
    }
}

#[test]
fn scale_correctness() {
    // For output_size = (200, 100) and px_per_em = 50, ndc_per_em must be
    // exactly (2/200*50, 2/100*50) = (0.5, 1.0).
    let scale = ndc_scale(Ratio::new(50, 1), 200, 100);
    assert!(scale.x.value_eq(&Ratio::new(1, 2)));
    assert!(scale.y.value_eq(&Ratio::new(1, 1)));
    assert_eq!(scale.x.num as f64 / scale.x.den as f64, 0.5);
    assert_eq!(scale.y.num as f64 / scale.y.den as f64, 1.0);
}

#[test]
fn frame_coordinate_formulas() {
    let params = params_with(
        Extent2d { width: 200, height: 100 },
        vec![glyph_with_curves(point(0.0, 0.0), 1)],
    );
    let coords = frame_coords(&params);
    assert!(coords.ndc_per_em.x.value_eq(&Ratio::new(1, 2)));
    assert!(coords.ndc_per_em.y.value_eq(&Ratio::new(1, 1)));
    assert_eq!(coords.sample_translations.len(), 6);
    // With a zero pan translation the sample jitter alone remains:
    // sample 2 sits at (2/6, 5/6) of a pixel, i.e. (2, 5)/(6 * 50) ems.
    let t2 = coords.sample_translations[2];
    assert!(t2.x.value_eq(&Ratio::new(2, 300)));
    assert!(t2.y.value_eq(&Ratio::new(5, 300)));
}

#[test]
fn jitter_translation_exact_value() {
    // t = 1/4 em pan, px_per_em = 50, jitter 5 sixths of a pixel:
    // 1/4 + (5/6)/50 = 1/4 + 1/60 = 16/60.
    let t = jitter_translation(Ratio::new(1, 4), Ratio::new(50, 1), 5);
    assert!(t.value_eq(&Ratio::new(16, 60)));
}

#[test]
fn draw_call_script_structure() {
    let mut renderer: Renderer<u32, u32> = Renderer::new();
    let counters = new_counters();
    let params = params_with(
        Extent2d { width: 100, height: 100 },
        vec![glyph_with_curves(point(0.0, 0.0), 4)],
    );
    match run_draw(&mut renderer, &counters, &params) {
        DrawResult::Frame(script) => {
            assert_eq!(script.first_pass_draws.len(), 12);
            for (i, call) in script.first_pass_draws.iter().enumerate() {
                let expected = if i < 6 { PipelineKind::Triangles } else { PipelineKind::Beziers };
                assert_eq!(call.pipeline, expected);
                assert_eq!(call.uniform_offset, (i as u32 % 6) * 256);
                assert_eq!(call.vertex_count, 3);
                assert_eq!(call.instance_count, 4);
            }
            assert_eq!(script.output_pass_draw.pipeline, PipelineKind::Output);
            assert_eq!(script.output_pass_draw.vertex_count, 4);
            assert_eq!(script.output_pass_draw.uniform_offset, 0);
            assert_eq!(script.output_pass_draw.instance_count, 1);
        },
        DrawResult::Degenerate => panic!("expected a frame"),
    }
}

#[test]
fn first_pass_uniforms_take_masks_from_sample_table() {
    let mut renderer: Renderer<u32, u32> = Renderer::new();
    let counters = new_counters();
    let params = params_with(
        Extent2d { width: 100, height: 100 },
        vec![glyph_with_curves(point(0.0, 0.0), 1)],
    );
    match run_draw(&mut renderer, &counters, &params) {
        DrawResult::Frame(script) => {
            for (k, block) in script.first_pass_uniforms.iter().enumerate() {
                let desc = sample_descriptor(k);
                assert_eq!(block.components, desc.components);
                assert_eq!(block.scale, point(0.5, 1.0));
            }
        },
        DrawResult::Degenerate => panic!("expected a frame"),
    }
}

#[test]
fn sample_table_channels_and_jitter() {
    let expected: [(u32, u32); 6] = [(0, 4), (1, 1), (2, 5), (3, 2), (4, 3), (5, 0)];
    let mut reds: u32 = 0;
    let mut greens: u32 = 0;
    let mut blues: u32 = 0;
    for k in 0..6usize {
        let s = sample_descriptor(k);
        assert_eq!((s.offset_x_sixths, s.offset_y_sixths), expected[k]);
        // Metadata rides in the alpha channel on every sample.
        assert_eq!(s.components.a, F32_ONE_BITS);
        reds += u32::from(s.components.r == F32_ONE_BITS);
        greens += u32::from(s.components.g == F32_ONE_BITS);
        blues += u32::from(s.components.b == F32_ONE_BITS);
    }
    // Two samples per color channel.
    assert_eq!((reds, greens, blues), (2, 2, 2));
}

#[test]
fn pipeline_configuration() {
    let renderer: Renderer<u32, u32> = Renderer::new();
    let p = renderer.pipelines;
    // The two coverage pipelines differ only in winding.
    assert_eq!(p.render_triangles.front_face, FrontFace::Cw);
    assert_eq!(p.render_beziers.front_face, FrontFace::Ccw);
    for spec in [p.render_triangles, p.render_beziers] {
        assert_eq!(spec.topology, PrimitiveTopology::TriangleList);
        assert_eq!(spec.color_blend, Blend::Additive);
        assert_eq!(spec.alpha_blend, Blend::Replace);
        assert_eq!(spec.target, RenderTarget::SampleTexture);
        assert!(spec.instance_input);
        assert!(spec.dynamic_uniform_offset);
    }
    assert_eq!(p.render_output.topology, PrimitiveTopology::TriangleStrip);
    assert_eq!(p.render_output.color_blend, Blend::Alpha);
    assert_eq!(p.render_output.alpha_blend, Blend::Alpha);
    assert_eq!(p.render_output.target, RenderTarget::OutputTexture);
    assert!(!p.render_output.instance_input);
    assert!(!p.render_output.dynamic_uniform_offset);
}

#[test]
fn ratio_value_comparison() {
    assert!(Ratio::new(1, 2).value_eq(&Ratio::new(50, 100)));
    assert!(!Ratio::new(1, 2).value_eq(&Ratio::new(51, 100)));
    assert!(Ratio::new(-3, 6).value_eq(&Ratio::new(-1, 2)));
    assert!(!Ratio::new(-1, 2).value_eq(&Ratio::new(1, 2)));
}

#[test]
fn sample_translations_flow_into_uniform_blocks() {
    let mut renderer: Renderer<u32, u32> = Renderer::new();
    let counters = new_counters();
    let params = params_with(
        Extent2d { width: 100, height: 100 },
        vec![glyph_with_curves(point(0.0, 0.0), 1)],
    );
    let mut frame = frame_bits();
    for (k, t) in frame.sample_translations.iter_mut().enumerate() {
        *t = point(k as f32, -(k as f32));
    }
    let result = renderer.draw(
        &params,
        &frame,
        texture_factory(&counters),
        texture_factory(&counters),
        buffer_factory(&counters),
        buffer_factory(&counters),
        buffer_factory(&counters),
    );
    match result {
        DrawResult::Frame(script) => {
            for (k, block) in script.first_pass_uniforms.iter().enumerate() {
                assert_eq!(block.translation, point(k as f32, -(k as f32)));
                // The byte image carries the same words at the block's tail.
                let bytes = &script.first_pass_uniform_writes[k].bytes;
                assert_eq!(&bytes[24..28], &(k as f32).to_bits().to_le_bytes());
            }
        },
        DrawResult::Degenerate => panic!("expected a frame"),
    }
}
