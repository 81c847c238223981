//! Tests of the generation episode: spawn-phase enumeration, polling, and
//! orphan handling. Also covers the startup configuration checks.

use chunkgen::config::{ConfigError, GenerationConfig, MAX_CHUNK_SIZE, MAX_SPAWN_RADIUS};
use chunkgen::grid::{chunk_origin, ChunkCoord};
use chunkgen::schedule::{Episode, IntegrationAction, PollOutcome};
use chunkgen::synth::{synthesize, FieldSample, PixelBuffer};

fn coord(x: i32, y: i32) -> ChunkCoord {
    ChunkCoord { x, y }
}

fn small_buffer() -> PixelBuffer {
    let samples = vec![FieldSample { elevation: 0, moisture: 0, shade: 0 }; 4];
    synthesize(&samples, 2)
}

#[test]
fn spawn_order_is_a_chebyshev_spiral_from_the_origin() {
    let mut e = Episode::new();
    let spawned = e.start_generation(2);
    let expected = vec![
        coord(0, 0),
        coord(1, 0),
        coord(1, 1),
        coord(0, 1),
        coord(-1, 1),
        coord(-1, 0),
        coord(-1, -1),
        coord(0, -1),
        coord(1, -1),
    ];
    assert_eq!(spawned, expected);
    // The library's enumeration matches the spiral crate's own.
    let direct: Vec<ChunkCoord> =
        spiral::ChebyshevIterator::new(0, 0, 2).map(|(x, y)| coord(x, y)).collect();
    assert_eq!(spawned, direct);
}

#[test]
fn spawn_count_is_the_full_square() {
    let mut e = Episode::new();
    let spawned = e.start_generation(16);
    assert_eq!(spawned.len(), 31 * 31);
    // No coordinate appears twice.
    for i in 0..spawned.len() {
        for j in (i + 1)..spawned.len() {
            assert_ne!(spawned[i], spawned[j]);
        }
    }
    // Every coordinate within the radius appears.
    for x in -15..=15 {
        for y in -15..=15 {
            assert!(spawned.contains(&coord(x, y)));
        }
    }
}

#[test]
fn a_second_spawn_phase_spawns_nothing() {
    let mut e = Episode::new();
    let first = e.start_generation(3);
    assert_eq!(first.len(), 25);
    let second = e.start_generation(3);
    assert_eq!(second.len(), 0);
    let third = e.start_generation(5);
    assert_eq!(third.len(), 0);
    assert_eq!(e.pending_coords().len(), 25);
}

#[test]
fn polling_an_unfinished_job_changes_nothing() {
    let mut e = Episode::new();
    e.start_generation(2);
    let before = e.pending_coords();
    for _ in 0..3 {
        let act = e.on_poll(coord(1, 1), PollOutcome::NotReady);
        assert!(matches!(act, IntegrationAction::Wait));
    }
    assert_eq!(e.pending_coords(), before);
}

#[test]
fn a_finished_job_is_attached_exactly_once() {
    let mut e = Episode::new();
    e.start_generation(2);
    let act = e.on_poll(coord(1, 1), PollOutcome::Finished(small_buffer()));
    match act {
        IntegrationAction::Attach(buf) => assert_eq!(buf.size, 2),
        _ => panic!("a pending chunk's finished buffer must be attached"),
    }
    let pending = e.pending_coords();
    assert_eq!(pending.len(), 8);
    assert!(!pending.contains(&coord(1, 1)));
    // A stray second result for the same chunk is discarded.
    let again = e.on_poll(coord(1, 1), PollOutcome::Finished(small_buffer()));
    assert!(matches!(again, IntegrationAction::Discard));
    assert_eq!(e.pending_coords().len(), 8);
}

#[test]
fn an_orphaned_result_is_discarded_and_nothing_is_resurrected() {
    let mut e = Episode::new();
    e.start_generation(2);
    assert!(e.destroy(coord(0, 1)));
    assert!(!e.destroy(coord(0, 1)));
    // The job of the destroyed chunk finishes later; its result is dropped.
    let act = e.on_poll(coord(0, 1), PollOutcome::Finished(small_buffer()));
    assert!(matches!(act, IntegrationAction::Discard));
    let pending = e.pending_coords();
    assert_eq!(pending.len(), 8);
    assert!(!pending.contains(&coord(0, 1)));
}

#[test]
fn a_result_for_an_unknown_coordinate_is_discarded() {
    let mut e = Episode::new();
    e.start_generation(2);
    let act = e.on_poll(coord(40, 40), PollOutcome::Finished(small_buffer()));
    assert!(matches!(act, IntegrationAction::Discard));
    assert_eq!(e.pending_coords().len(), 9);
}

#[test]
fn the_spawn_phase_fires_on_exactly_one_tick() {
    assert!(chunkgen::schedule::should_start(75, 75));
    assert!(!chunkgen::schedule::should_start(74, 75));
    assert!(!chunkgen::schedule::should_start(76, 75));
    assert!(chunkgen::schedule::should_start(0, 0));
}

#[test]
fn configuration_rejects_bad_chunk_sizes() {
    assert_eq!(
        GenerationConfig::new(0, 16, 1),
        Err(ConfigError::ChunkSizeOutOfRange)
    );
    assert_eq!(
        GenerationConfig::new(MAX_CHUNK_SIZE + 1, 16, 1),
        Err(ConfigError::ChunkSizeOutOfRange)
    );
}

#[test]
fn configuration_rejects_bad_spawn_radii() {
    assert_eq!(
        GenerationConfig::new(16, 0, 1),
        Err(ConfigError::SpawnRadiusOutOfRange)
    );
    assert_eq!(
        GenerationConfig::new(16, -4, 1),
        Err(ConfigError::SpawnRadiusOutOfRange)
    );
    assert_eq!(
        GenerationConfig::new(16, MAX_SPAWN_RADIUS + 1, 1),
        Err(ConfigError::SpawnRadiusOutOfRange)
    );
}

#[test]
fn configuration_accepts_the_reference_values() {
    let cfg = GenerationConfig::new(16, 16, 1928877623).unwrap();
    assert_eq!(cfg.chunk_size, 16);
    assert_eq!(cfg.spawn_radius, 16);
    assert_eq!(cfg.seed, 1928877623);
}

#[test]
fn chunk_origin_scales_by_the_chunk_size() {
    assert_eq!(chunk_origin(coord(0, 0), 16), (0, 0));
    assert_eq!(chunk_origin(coord(3, -2), 16), (48, -32));
    assert_eq!(chunk_origin(coord(-1, 1), 4096), (-4096, 4096));
}

#[test]
fn sample_points_walk_the_chunk_row_major() {
    let pts = chunkgen::grid::sample_points(coord(3, -2), 4);
    assert_eq!(pts.len(), 16);
    for p in 0..16usize {
        let (x, y) = (p % 4, p / 4);
        assert_eq!(pts[p], (12 + x as i64, -8 + y as i64));
    }
}
