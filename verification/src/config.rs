//! Startup configuration of the generation pipeline: chunk size in pixels,
//! spawn radius in chunks, and the world seed. Malformed values are rejected
//! when the configuration is built, so the coordinate arithmetic downstream
//! can rely on them.

use vstd::prelude::*;

verus! {

/// Largest accepted chunk side length, in pixels. Keeps a chunk's RGBA byte
/// count (4 * size * size) and all pixel-offset arithmetic comfortably inside
/// the machine integer ranges.
pub const MAX_CHUNK_SIZE: usize = 4096;

/// Largest accepted spawn radius, in chunks. Keeps the spawned chunk count,
/// (2 * radius - 1) squared, comfortably inside the machine integer ranges.
pub const MAX_SPAWN_RADIUS: i32 = 4096;

/// The constants the pipeline runs under. Built once at startup; immutable
/// afterwards.
#[derive(Clone, Copy, Debug, PartialEq, Eq, Structural)]
pub struct GenerationConfig {
    /// Side length of a square chunk, in pixels.
    pub chunk_size: usize,
    /// Chunks are spawned for every coordinate of Chebyshev distance below
    /// this radius from the origin.
    pub spawn_radius: i32,
    /// Seed shared by every noise field of the world.
    pub seed: u32,
}

/// Why a configuration was rejected.
#[derive(Clone, Copy, Debug, PartialEq, Eq, Structural)]
pub enum ConfigError {
    /// The chunk size is zero or above `MAX_CHUNK_SIZE`.
    ChunkSizeOutOfRange,
    /// The spawn radius is zero, negative, or above `MAX_SPAWN_RADIUS`.
    SpawnRadiusOutOfRange,
}

impl GenerationConfig {
    /// Bounds under which the pipeline's arithmetic cannot overflow.
    pub open spec fn wf(self) -> bool {
        &&& 1 <= self.chunk_size <= MAX_CHUNK_SIZE
        &&& 1 <= self.spawn_radius <= MAX_SPAWN_RADIUS
    }

    /// Validates and builds a configuration. A zero or out-of-range chunk
    /// size is reported first, then a zero, negative or out-of-range spawn
    /// radius; any seed is accepted.
    pub fn new(chunk_size: usize, spawn_radius: i32, seed: u32) -> (r: Result<
        GenerationConfig,
        ConfigError,
    >)
        ensures
            !(1 <= chunk_size <= MAX_CHUNK_SIZE) ==> r == Result::<
                GenerationConfig,
                ConfigError,
            >::Err(ConfigError::ChunkSizeOutOfRange),
            1 <= chunk_size <= MAX_CHUNK_SIZE && !(1 <= spawn_radius <= MAX_SPAWN_RADIUS) ==> r
                == Result::<GenerationConfig, ConfigError>::Err(ConfigError::SpawnRadiusOutOfRange),
            1 <= chunk_size <= MAX_CHUNK_SIZE && 1 <= spawn_radius <= MAX_SPAWN_RADIUS ==> r
                == Result::<GenerationConfig, ConfigError>::Ok(
                GenerationConfig { chunk_size, spawn_radius, seed },
            ),
            r matches Ok(c) ==> c.wf(),
    {
        if chunk_size < 1 || chunk_size > MAX_CHUNK_SIZE {
            Err(ConfigError::ChunkSizeOutOfRange)
        } else if spawn_radius < 1 || spawn_radius > MAX_SPAWN_RADIUS {
            Err(ConfigError::SpawnRadiusOutOfRange)
        } else {
            Ok(GenerationConfig { chunk_size, spawn_radius, seed })
        }
    }
}

} // verus!
