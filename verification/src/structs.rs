//! Fixed-layout records transferred to the GPU, together with each type's
//! required byte size and array stride.
//!
//! GPU memory layout rules (padding to vector boundaries, dynamic-offset
//! alignment) are independent of the natural in-memory layout, so every
//! record type states its padded size and its array stride explicitly, and
//! serializes itself to the exact little-endian byte image that is uploaded.
//!
//! Scalar fields that the GPU reads as 32-bit floats are carried here as
//! their IEEE binary32 bit patterns (`u32`); the renderer only moves them,
//! it never computes on them.

use vstd::prelude::*;

verus! {

/// Bit pattern of the 32-bit float `1.0`.
pub const F32_ONE_BITS: u32 = 0x3f80_0000;

/// Bit pattern of the 32-bit float `0.0`.
pub const F32_ZERO_BITS: u32 = 0;

/// The least multiple of `m` that is at least `x`.
pub open spec fn round_up(x: int, m: int) -> int
    recommends
        m > 0,
{
    ((x + m - 1) / m) * m
}

/// Pads `size` to the length of a GPU vector type with `align_vec_size`
/// 32-bit components.
///
/// For example, if `align_vec_size` is `4`, then `size` is padded to the
/// next `vec4<f32>` boundary.
pub fn wgpu_align(size: u64, align_vec_size: u64) -> (r: u64)
    requires
        1 <= align_vec_size <= 16,
        size <= 0xffff_0000,
    ensures
        r == round_up(size as int, 4 * align_vec_size as int),
        size <= r < size + 4 * align_vec_size,
        r as int % (4 * align_vec_size as int) == 0,
{
    let m: u64 = 4 * align_vec_size;
    let q: u64 = (size + m - 1) / m;
    proof {
        let x = size as int;
        let mi = m as int;
        let qi = (x + mi - 1) / mi;
        assert(qi * mi % mi == 0) by (nonlinear_arith)
            requires mi > 0
        ;
        assert(x <= qi * mi < x + mi) by (nonlinear_arith)
            requires
                mi > 0,
                x >= 0,
                qi == (x + mi - 1) / mi,
        ;
    }
    q * m
}

/// A pair of 32-bit float bit patterns: one 2D point or vector.
#[derive(Debug, Default, Clone, Copy, PartialEq, Eq, Structural)]
pub struct Vec2Bits {
    pub x: u32,
    pub y: u32,
}

/// A quadruple of 32-bit float bit patterns: one RGBA value.
#[derive(Debug, Default, Clone, Copy, PartialEq, Eq, Structural)]
pub struct Vec4Bits {
    pub r: u32,
    pub g: u32,
    pub b: u32,
    pub a: u32,
}

/// The little-endian byte image of a 32-bit word.
pub open spec fn u32_le_bytes(x: u32) -> Seq<u8> {
    seq![
        (x & 0xff) as u8,
        ((x >> 8) & 0xff) as u8,
        ((x >> 16) & 0xff) as u8,
        ((x >> 24) & 0xff) as u8,
    ]
}

/// Appends the little-endian byte image of `x` to `out`.
pub fn push_u32_le(out: &mut Vec<u8>, x: u32)
    ensures
        final(out)@ == old(out)@ + u32_le_bytes(x),
{
    out.push((x & 0xff) as u8);
    out.push(((x >> 8) & 0xff) as u8);
    out.push(((x >> 16) & 0xff) as u8);
    out.push(((x >> 24) & 0xff) as u8);
    proof {
        assert(out@ =~= old(out)@ + u32_le_bytes(x));
    }
}

/// The byte image of a 2D vector: its two words in order.
pub open spec fn vec2_le_bytes(v: Vec2Bits) -> Seq<u8> {
    u32_le_bytes(v.x) + u32_le_bytes(v.y)
}

/// The byte image of an RGBA value: its four words in order.
pub open spec fn vec4_le_bytes(v: Vec4Bits) -> Seq<u8> {
    u32_le_bytes(v.r) + u32_le_bytes(v.g) + u32_le_bytes(v.b) + u32_le_bytes(v.a)
}

/// Trait for records that are sent to the GPU as raw bytes.
///
/// `wgpu_size` is the record's padded standalone size and `wgpu_stride` the
/// spacing of consecutive records in an array; both are fixed per type, and
/// the byte image is never longer than the size.
pub trait WgpuStruct: Sized {
    /// The exact byte image uploaded for one record.
    spec fn spec_bytes(&self) -> Seq<u8>;

    /// Length of the byte image, the same for every record of the type.
    spec fn spec_byte_len() -> u64;

    /// Padded size of the record, in bytes.
    spec fn spec_size() -> u64;

    /// Spacing of consecutive records in a GPU-resident array, in bytes.
    spec fn spec_stride() -> u64;

    /// Length of the byte image of one record.
    fn wgpu_byte_len() -> (r: u64)
        ensures
            r == Self::spec_byte_len(),
    ;

    /// Size of the type in WGPU.
    ///
    /// This must be at least as large as the byte image, and must be
    /// aligned to the record's WGPU alignment.
    fn wgpu_size() -> (r: u64)
        ensures
            r == Self::spec_size(),
    ;

    /// Stride for arrays of the record in WGPU.
    ///
    /// This must be at least as large as the size. It may be larger.
    fn wgpu_stride() -> (r: u64)
        ensures
            r == Self::spec_stride(),
    ;

    /// Serializes the record to the bytes the GPU reads.
    fn to_wgpu_bytes(&self) -> (r: Vec<u8>)
        ensures
            r@ == self.spec_bytes(),
            r@.len() == Self::spec_byte_len(),
    ;

    /// The byte length, size and stride order themselves the same way for
    /// every record type.
    proof fn stride_facts()
        ensures
            Self::spec_byte_len() <= Self::spec_size(),
            Self::spec_size() <= Self::spec_stride(),
            0 < Self::spec_stride(),
    ;

    /// Every record of the type serializes to the same number of bytes.
    proof fn bytes_len_facts(&self)
        ensures
            self.spec_bytes().len() == Self::spec_byte_len(),
    ;
}

/// Minimum spacing between successive uniform blocks addressed through
/// per-draw dynamic offsets.
///
/// This is a hardware-dependent lower bound; the value here is the GPU
/// API's downlevel default limit, which every supported adapter satisfies.
pub const MIN_UNIFORM_BUFFER_OFFSET_ALIGNMENT: u64 = 256;

/// One quadratic Bezier curve in 2D em space, as uploaded per instance.
#[derive(Debug, Default, Clone, Copy, PartialEq, Eq, Structural)]
pub struct BezierCurveInstance {
    /// Global offset for the glyph.
    pub offset: Vec2Bits,
    /// Start point, relative to `offset`.
    pub p0: Vec2Bits,
    /// Middle control point, relative to `offset`.
    pub p1: Vec2Bits,
    /// End point, relative to `offset`.
    pub p2: Vec2Bits,
}

impl WgpuStruct for BezierCurveInstance {
    open spec fn spec_bytes(&self) -> Seq<u8> {
        vec2_le_bytes(self.offset) + vec2_le_bytes(self.p0) + vec2_le_bytes(self.p1)
            + vec2_le_bytes(self.p2)
    }

    open spec fn spec_byte_len() -> u64 {
        32
    }

    open spec fn spec_size() -> u64 {
        32
    }

    open spec fn spec_stride() -> u64 {
        32
    }

    fn wgpu_byte_len() -> (r: u64) {
        32
    }

    fn wgpu_size() -> (r: u64) {
        wgpu_align(32, 2)
    }

    fn wgpu_stride() -> (r: u64) {
        Self::wgpu_size()
    }

    fn to_wgpu_bytes(&self) -> (r: Vec<u8>) {
        let mut out: Vec<u8> = Vec::new();
        push_u32_le(&mut out, self.offset.x);
        push_u32_le(&mut out, self.offset.y);
        push_u32_le(&mut out, self.p0.x);
        push_u32_le(&mut out, self.p0.y);
        push_u32_le(&mut out, self.p1.x);
        push_u32_le(&mut out, self.p1.y);
        push_u32_le(&mut out, self.p2.x);
        push_u32_le(&mut out, self.p2.y);
        proof {
            assert(out@ =~= self.spec_bytes());
        }
        out
    }

    proof fn stride_facts() {
    }

    proof fn bytes_len_facts(&self) {
    }
}

/// Per-sample uniform data for the first pass.
#[derive(Debug, Default, Clone, Copy, PartialEq, Eq, Structural)]
pub struct FirstPassUniform {
    /// Color components the sample is written to (RGBA, each 1.0 or 0.0).
    pub components: Vec4Bits,
    /// Global scale that converts ems to normalized device coordinates.
    pub scale: Vec2Bits,
    /// Global translation applied before the scale, in ems.
    pub translation: Vec2Bits,
}

impl WgpuStruct for FirstPassUniform {
    open spec fn spec_bytes(&self) -> Seq<u8> {
        vec4_le_bytes(self.components) + vec2_le_bytes(self.scale)
            + vec2_le_bytes(self.translation)
    }

    open spec fn spec_byte_len() -> u64 {
        32
    }

    open spec fn spec_size() -> u64 {
        32
    }

    open spec fn spec_stride() -> u64 {
        MIN_UNIFORM_BUFFER_OFFSET_ALIGNMENT
    }

    fn wgpu_byte_len() -> (r: u64) {
        32
    }

    fn wgpu_size() -> (r: u64) {
        wgpu_align(32, 4)
    }

    // Several of these records share one buffer, and a dynamic offset
    // selects a different one for each draw call, so the stride must be a
    // multiple of the minimum dynamic-offset alignment.
    fn wgpu_stride() -> (r: u64) {
        MIN_UNIFORM_BUFFER_OFFSET_ALIGNMENT
    }

    fn to_wgpu_bytes(&self) -> (r: Vec<u8>) {
        let mut out: Vec<u8> = Vec::new();
        push_u32_le(&mut out, self.components.r);
        push_u32_le(&mut out, self.components.g);
        push_u32_le(&mut out, self.components.b);
        push_u32_le(&mut out, self.components.a);
        push_u32_le(&mut out, self.scale.x);
        push_u32_le(&mut out, self.scale.y);
        push_u32_le(&mut out, self.translation.x);
        push_u32_le(&mut out, self.translation.y);
        proof {
            assert(out@ =~= self.spec_bytes());
        }
        out
    }

    proof fn stride_facts() {
    }

    proof fn bytes_len_facts(&self) {
    }
}

/// Resolve-time uniform data for the output pass.
#[derive(Debug, Default, Clone, Copy, PartialEq, Eq, Structural)]
pub struct OutputPassUniform {
    /// Number of samples per pixel accumulated in the first pass.
    pub sample_count: u32,
    /// Whether subpixel anti-aliasing is enabled (0 = off, 1 = on).
    pub subpixel_aa: u32,
    /// Gamma value (typically 2.2), as an IEEE binary32 bit pattern.
    pub gamma: u32,
}

impl WgpuStruct for OutputPassUniform {
    open spec fn spec_bytes(&self) -> Seq<u8> {
        u32_le_bytes(self.sample_count) + u32_le_bytes(self.subpixel_aa)
            + u32_le_bytes(self.gamma)
    }

    open spec fn spec_byte_len() -> u64 {
        12
    }

    open spec fn spec_size() -> u64 {
        16
    }

    open spec fn spec_stride() -> u64 {
        16
    }

    fn wgpu_byte_len() -> (r: u64) {
        12
    }

    fn wgpu_size() -> (r: u64) {
        wgpu_align(12, 2)
    }

    fn wgpu_stride() -> (r: u64) {
        Self::wgpu_size()
    }

    fn to_wgpu_bytes(&self) -> (r: Vec<u8>) {
        let mut out: Vec<u8> = Vec::new();
        push_u32_le(&mut out, self.sample_count);
        push_u32_le(&mut out, self.subpixel_aa);
        push_u32_le(&mut out, self.gamma);
        proof {
            assert(out@ =~= self.spec_bytes());
        }
        out
    }

    proof fn stride_facts() {
    }

    proof fn bytes_len_facts(&self) {
    }
}

} // verus!
