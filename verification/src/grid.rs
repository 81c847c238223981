//! Chunk coordinates and the integer half of the coordinate mapping: a chunk
//! coordinate times the chunk size gives the chunk's global pixel offset, and
//! each pixel of the chunk adds its own offset to that. The surrounding
//! application maps a global pixel coordinate linearly into noise space; the
//! arithmetic that decides *which* global pixel a chunk pixel is lives here.

use vstd::prelude::*;
use vstd::arithmetic::div_mod::lemma_fundamental_div_mod_converse;
use crate::config::MAX_CHUNK_SIZE;

verus! {

/// A 2D integer coordinate identifying a chunk in chunk space.
#[derive(Clone, Copy, Debug, PartialEq, Eq, Hash, Structural)]
pub struct ChunkCoord {
    pub x: i32,
    pub y: i32,
}

/// Linear index of pixel (x, y) in a row-major square grid of the given side.
pub open spec fn pixel_index(size: int, x: int, y: int) -> int {
    y * size + x
}

/// Index of channel `c` of pixel (x, y) in a row-major RGBA8 byte buffer.
pub open spec fn byte_index(size: int, x: int, y: int, c: int) -> int {
    4 * pixel_index(size, x, y) + c
}

/// Global pixel offset of a chunk: its coordinate scaled by the chunk size.
pub open spec fn spec_chunk_origin(c: ChunkCoord, chunk_size: int) -> (int, int) {
    (c.x * chunk_size, c.y * chunk_size)
}

/// The global pixel offset of chunk `c`: pixel (0, 0) of the chunk lies at
/// this global pixel coordinate.
pub fn chunk_origin(c: ChunkCoord, chunk_size: usize) -> (o: (i64, i64))
    requires
        1 <= chunk_size <= MAX_CHUNK_SIZE,
    ensures
        (o.0 as int, o.1 as int) == spec_chunk_origin(c, chunk_size as int),
        -0x800_0000_0000 <= o.0 <= 0x800_0000_0000,
        -0x800_0000_0000 <= o.1 <= 0x800_0000_0000,
{
    proof {
        assert(-0x800_0000_0000 <= c.x * chunk_size <= 0x800_0000_0000) by (nonlinear_arith)
            requires
                -0x8000_0000 <= c.x <= 0x7fff_ffff,
                1 <= chunk_size <= 0x1000,
        ;
        assert(-0x800_0000_0000 <= c.y * chunk_size <= 0x800_0000_0000) by (nonlinear_arith)
            requires
                -0x8000_0000 <= c.y <= 0x7fff_ffff,
                1 <= chunk_size <= 0x1000,
        ;
    }
    ((c.x as i64) * (chunk_size as i64), (c.y as i64) * (chunk_size as i64))
}

/// The global pixel coordinate of every pixel of chunk `c`, in row-major
/// order: the entry at linear index `p` is the chunk's origin plus the pixel
/// offset (p % chunk_size, p / chunk_size). The application samples its noise
/// fields at exactly these points.
pub fn sample_points(c: ChunkCoord, chunk_size: usize) -> (pts: Vec<(i64, i64)>)
    requires
        1 <= chunk_size <= MAX_CHUNK_SIZE,
    ensures
        pts@.len() == chunk_size * chunk_size,
        forall|p: int|
            0 <= p < pts@.len() ==> {
                &&& (#[trigger] pts@[p]).0 as int == spec_chunk_origin(c, chunk_size as int).0 + p
                    % (chunk_size as int)
                &&& pts@[p].1 as int == spec_chunk_origin(c, chunk_size as int).1 + p / (
                chunk_size as int)
            },
{
    let origin = chunk_origin(c, chunk_size);
    proof {
        assert(chunk_size * chunk_size <= 0x100_0000) by (nonlinear_arith)
            requires
                1 <= chunk_size <= 0x1000,
        ;
    }
    let count = chunk_size * chunk_size;
    let mut pts: Vec<(i64, i64)> = Vec::new();
    let mut p: usize = 0;
    while p < count
        invariant
            1 <= chunk_size <= MAX_CHUNK_SIZE,
            count == chunk_size * chunk_size,
            count <= 0x100_0000,
            p <= count,
            (origin.0 as int, origin.1 as int) == spec_chunk_origin(c, chunk_size as int),
            -0x800_0000_0000 <= origin.0 <= 0x800_0000_0000,
            -0x800_0000_0000 <= origin.1 <= 0x800_0000_0000,
            pts@.len() == p,
            forall|q: int|
                0 <= q < p ==> {
                    &&& (#[trigger] pts@[q]).0 as int == origin.0 + q % (chunk_size as int)
                    &&& pts@[q].1 as int == origin.1 + q / (chunk_size as int)
                },
        decreases count - p,
    {
        let x = p % chunk_size;
        let y = p / chunk_size;
        proof {
            assert(0 <= p / chunk_size <= p) by (nonlinear_arith)
                requires
                    1 <= chunk_size,
                    0 <= p,
            ;
        }
        pts.push((origin.0 + x as i64, origin.1 + y as i64));
        p = p + 1;
    }
    pts
}

/// Pixel (x, y) of a chunk stands at linear index `pixel_index(size, x, y)`;
/// conversely that index decomposes into x and y by remainder and quotient,
/// so the row-major order of `sample_points` covers each pixel exactly once.
pub proof fn lemma_pixel_index_decomposes(size: int, x: int, y: int)
    requires
        1 <= size,
        0 <= x < size,
        0 <= y,
    ensures
        pixel_index(size, x, y) % size == x,
        pixel_index(size, x, y) / size == y,
{
    lemma_fundamental_div_mod_converse(pixel_index(size, x, y), size, y, x);
}

} // verus!
