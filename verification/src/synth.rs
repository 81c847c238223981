//! Chunk texture synthesis: every pixel of a chunk gets the colour of its
//! biome, a grayscale tint is composited on top, and the finished rows are
//! flipped vertically to match the target image orientation.
//!
//! The elevation, moisture and tint fields are sampled by the caller (they
//! come from noise functions evaluated at the chunk's `sample_points`) and
//! handed in as one `FieldSample` per pixel, in row-major order.

use vstd::prelude::*;
use rayon::iter::IntoParallelRefIterator;
use rayon::iter::ParallelIterator;
use crate::biome::{Rgba, classify, spec_classify, spec_color};
use crate::config::MAX_CHUNK_SIZE;
use crate::grid::{byte_index, pixel_index};

verus! {

/// Alpha weight of the grayscale tint overlay composited over the biome
/// colour of each pixel.
pub const TINT_ALPHA: u8 = 64;

/// The three field values sampled at one pixel: fixed-point elevation and
/// moisture (see `FIELD_UNIT`), and the tint already reduced to a gray byte.
#[derive(Clone, Copy, Debug, PartialEq, Eq, Structural)]
pub struct FieldSample {
    /// Fixed-point elevation, `FIELD_UNIT` standing for 1.0.
    pub elevation: u32,
    /// Fixed-point moisture, `FIELD_UNIT` standing for 1.0.
    pub moisture: u32,
    /// Grayscale tint of the pixel, 0 to 255.
    pub shade: u8,
}

/// What source-over alpha compositing of `overlay` onto `base` returns, each
/// pixel given as (r, g, b, a) bytes. The exact value goes through rounded
/// 32-bit float arithmetic; it is a function of the two pixels alone.
pub uninterp spec fn blend_over(base: (u8, u8, u8, u8), overlay: (u8, u8, u8, u8)) -> (
    u8,
    u8,
    u8,
    u8,
);

/// Relies on image's `Pixel::blend` for `Rgba<u8>`: source-over alpha
/// compositing of `overlay` onto `base`, a pure function of the two pixels.
/// Its source returns the base unchanged for a fully transparent overlay and
/// the overlay itself for a fully opaque one.
#[verifier::external_body]
fn blend_pixel(base: (u8, u8, u8, u8), overlay: (u8, u8, u8, u8)) -> (r: (u8, u8, u8, u8))
    ensures
        r == blend_over(base, overlay),
        overlay.3 == 0 ==> r == base,
        overlay.3 == 255 ==> r == overlay,
{
    let mut p = image::Rgba([base.0, base.1, base.2, base.3]);
    image::Pixel::blend(&mut p, &image::Rgba([overlay.0, overlay.1, overlay.2, overlay.3]));
    (p.0[0], p.0[1], p.0[2], p.0[3])
}

/// The finished colour of one pixel: the colour of the biome classified from
/// the sample's elevation and moisture, with the sample's gray tint
/// composited on top at `TINT_ALPHA`.
pub open spec fn spec_shaded(s: FieldSample) -> Rgba {
    let base = spec_color(spec_classify(s.elevation as int, s.moisture as int));
    let t = blend_over((base.r, base.g, base.b, base.a), (s.shade, s.shade, s.shade, TINT_ALPHA));
    (Rgba { r: t.0, g: t.1, b: t.2, a: t.3 })
}

/// Computes the finished colour of one pixel from its field sample.
pub fn shaded_pixel(s: FieldSample) -> (c: Rgba)
    ensures
        c == spec_shaded(s),
{
    let base = classify(s.elevation, s.moisture).color();
    let t = blend_pixel((base.r, base.g, base.b, base.a), (s.shade, s.shade, s.shade, TINT_ALPHA));
    Rgba { r: t.0, g: t.1, b: t.2, a: t.3 }
}

/// Relies on rayon's parallel iterator `map` + `collect` over a slice: the
/// result has one element per input element, in input order, each the image
/// of its input under the mapped closure — here the verified `shaded_pixel`.
#[verifier::external_body]
fn shade_all(samples: &Vec<FieldSample>) -> (out: Vec<Rgba>)
    ensures
        out@.len() == samples@.len(),
        forall|i: int| 0 <= i < samples@.len() ==> #[trigger] out@[i] == spec_shaded(samples@[i]),
{
    samples.par_iter().map(|s| shaded_pixel(*s)).collect()
}

/// Relies on image's `flip_vertical_in_place` on a square RGBA8 image built
/// with `RgbaImage::from_raw` and unwrapped with `into_raw`: the order of the
/// pixel rows is reversed and each row's bytes are kept as they were.
#[verifier::external_body]
fn flip_rows(data: Vec<u8>, size: u32) -> (r: Vec<u8>)
    requires
        data@.len() == 4 * size * size,
    ensures
        r@.len() == data@.len(),
        forall|x: int, y: int, ch: int|
            0 <= x < size && 0 <= y < size && 0 <= ch < 4 ==> #[trigger] r@[byte_index(
                size as int,
                x,
                y,
                ch,
            )] == data@[byte_index(size as int, x, size - 1 - y, ch)],
{
    let mut img = image::RgbaImage::from_raw(size, size, data).unwrap();
    image::imageops::flip_vertical_in_place(&mut img);
    img.into_raw()
}

/// Channel `ch` of a colour: 0 is red, 1 is green, 2 is blue, 3 is alpha.
pub open spec fn channel(c: Rgba, ch: int) -> u8 {
    if ch == 0 {
        c.r
    } else if ch == 1 {
        c.g
    } else if ch == 2 {
        c.b
    } else {
        c.a
    }
}

/// A finished square RGBA8 pixel buffer of one chunk.
#[derive(Clone, Debug)]
pub struct PixelBuffer {
    /// Side length in pixels.
    pub size: usize,
    /// RGBA8 bytes, row-major, four per pixel.
    pub data: Vec<u8>,
}

impl PixelBuffer {
    /// The byte count matches the dimensions.
    pub open spec fn wf(self) -> bool {
        self.data@.len() == 4 * self.size * self.size
    }
}

/// `out` is the synthesized texture of the given row-major field samples:
/// channel `ch` of the pixel at (x, y) is that channel of the shaded colour
/// of the sample of pixel (x, size - 1 - y) — the shaded grid with its row
/// order reversed. Every byte of `out` is pinned down: each index below
/// `4 * size * size` is `byte_index(size, x, y, ch)` for exactly one pixel
/// and channel.
pub open spec fn synthesis_of(samples: Seq<FieldSample>, size: int, out: Seq<u8>) -> bool {
    &&& out.len() == 4 * size * size
    &&& forall|x: int, y: int, ch: int|
        0 <= x < size && 0 <= y < size && 0 <= ch < 4 ==> #[trigger] out[byte_index(
            size,
            x,
            y,
            ch,
        )] == channel(spec_shaded(samples[pixel_index(size, x, size - 1 - y)]), ch)
}

/// Synthesizes the texture of one chunk from its row-major field samples:
/// every pixel is shaded by `spec_shaded`, and the rows are flipped
/// vertically.
pub fn synthesize(samples: &Vec<FieldSample>, size: usize) -> (buf: PixelBuffer)
    requires
        1 <= size <= MAX_CHUNK_SIZE,
        samples@.len() == size * size,
    ensures
        buf.size == size,
        buf.wf(),
        synthesis_of(samples@, size as int, buf.data@),
{
    let shaded = shade_all(samples);
    proof {
        assert(size * size <= 0x100_0000) by (nonlinear_arith)
            requires
                1 <= size <= 0x1000,
        ;
    }
    let count = size * size;
    let mut data: Vec<u8> = Vec::new();
    let mut p: usize = 0;
    while p < count
        invariant
            count == size * size,
            count <= 0x100_0000,
            p <= count,
            shaded@.len() == count,
            forall|i: int| 0 <= i < count ==> #[trigger] shaded@[i] == spec_shaded(samples@[i]),
            data@.len() == 4 * p,
            forall|q: int, ch: int|
                0 <= q < p && 0 <= ch < 4 ==> #[trigger] data@[4 * q + ch] == channel(
                    shaded@[q],
                    ch,
                ),
        decreases count - p,
    {
        let c = shaded[p];
        data.push(c.r);
        data.push(c.g);
        data.push(c.b);
        data.push(c.a);
        p = p + 1;
    }
    proof {
        assert(p == count);
        assert(data@.len() == 4 * count);
        assert(4 * count == 4 * size * size) by (nonlinear_arith)
            requires
                count == size * size,
        ;
        assert((size as u32) as int == size as int);
        assert(data@.len() == 4 * ((size as u32) as int) * ((size as u32) as int))
            by (nonlinear_arith)
            requires
                data@.len() == 4 * size * size,
                (size as u32) as int == size as int,
        ;
    }
    let ghost pre_flip = data@;
    let flipped = flip_rows(data, size as u32);
    let buf = PixelBuffer { size, data: flipped };
    proof {
        let sz = size as int;
        assert forall|x: int, y: int, ch: int|
            0 <= x < sz && 0 <= y < sz && 0 <= ch < 4 implies #[trigger] buf.data@[byte_index(
            sz,
            x,
            y,
            ch,
        )] == channel(spec_shaded(samples@[pixel_index(sz, x, sz - 1 - y)]), ch) by {
            let yy = sz - 1 - y;
            let q = pixel_index(sz, x, yy);
            assert(0 <= q < sz * sz && byte_index(sz, x, yy, ch) == 4 * q + ch)
                by (nonlinear_arith)
                requires
                    0 <= x < sz,
                    0 <= yy < sz,
                    0 <= ch < 4,
                    q == yy * sz + x,
                    byte_index(sz, x, yy, ch) == 4 * (yy * sz + x) + ch,
            ;
            assert(buf.data@[byte_index(sz, x, y, ch)] == pre_flip[byte_index(sz, x, yy, ch)]);
            assert(pre_flip[4 * q + ch] == channel(shaded@[q], ch));
        }
    }
    buf
}

/// Synthesis is deterministic: two buffers synthesized from the same field
/// samples at the same size are byte-identical.
pub proof fn lemma_synthesis_deterministic(
    samples: Seq<FieldSample>,
    size: int,
    out1: Seq<u8>,
    out2: Seq<u8>,
)
    requires
        1 <= size,
        synthesis_of(samples, size, out1),
        synthesis_of(samples, size, out2),
    ensures
        out1 == out2,
{
    assert forall|i: int| 0 <= i < out1.len() implies out1[i] == out2[i] by {
        let q = i / 4;
        let ch = i % 4;
        let x = q % size;
        let y = q / size;
        vstd::arithmetic::div_mod::lemma_fundamental_div_mod(i, 4);
        vstd::arithmetic::div_mod::lemma_fundamental_div_mod(q, size);
        vstd::arithmetic::div_mod::lemma_mod_bound(i, 4);
        vstd::arithmetic::div_mod::lemma_mod_bound(q, size);
        assert(0 <= q < size * size && 0 <= y < size) by (nonlinear_arith)
            requires
                1 <= size,
                0 <= i < 4 * size * size,
                i == 4 * q + ch,
                0 <= ch < 4,
                q == size * y + x,
                0 <= x < size,
        ;
        assert(byte_index(size, x, y, ch) == i);
        assert(out1[byte_index(size, x, y, ch)] == out2[byte_index(size, x, y, ch)]);
    }
    assert(out1 =~= out2);
}

} // verus!
