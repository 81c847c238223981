//! Tests of the biome classifier and its colour table.

use chunkgen::biome::{classify, Biome, Rgba, FIELD_UNIT, OCEAN_MAX, BEACH_MAX};

/// Converts a real-valued field sample to the library's fixed-point scale.
fn fixed(v: f64) -> u32 {
    (v * FIELD_UNIT as f64) as u32
}

#[test]
fn ocean_boundary_is_exclusive_below_a_tenth() {
    for m in [0u32, 100_000, 500_000, 990_000] {
        assert_eq!(classify(fixed(0.099), m), Biome::Ocean);
        assert_ne!(classify(fixed(0.10), m), Biome::Ocean);
        assert_eq!(classify(fixed(0.10), m), Biome::Beach);
    }
    assert_eq!(classify(OCEAN_MAX - 1, 0), Biome::Ocean);
    assert_ne!(classify(OCEAN_MAX, 0), Biome::Ocean);
}

#[test]
fn beach_boundary_is_exclusive_below_twelve_hundredths() {
    for m in [0u32, 300_000, 800_000] {
        assert_eq!(classify(fixed(0.119), m), Biome::Beach);
        assert_ne!(classify(fixed(0.12), m), Biome::Beach);
    }
    assert_eq!(classify(BEACH_MAX - 1, 999_999), Biome::Beach);
    assert_ne!(classify(BEACH_MAX, 999_999), Biome::Beach);
}

#[test]
fn every_band_yields_its_biome() {
    // Peak band: elevation above 0.80.
    assert_eq!(classify(fixed(0.81), fixed(0.05)), Biome::Scorched);
    assert_eq!(classify(fixed(0.81), fixed(0.30)), Biome::Tundra);
    assert_eq!(classify(fixed(0.81), fixed(0.70)), Biome::Snow);
    // Highland band: elevation above 0.60.
    assert_eq!(classify(fixed(0.70), fixed(0.20)), Biome::TemperateDesert);
    assert_eq!(classify(fixed(0.70), fixed(0.50)), Biome::Shrubland);
    assert_eq!(classify(fixed(0.70), fixed(0.90)), Biome::Taiga);
    // Midland band: elevation above 0.30.
    assert_eq!(classify(fixed(0.40), fixed(0.10)), Biome::TemperateDesert);
    assert_eq!(classify(fixed(0.40), fixed(0.30)), Biome::Grassland);
    assert_eq!(classify(fixed(0.40), fixed(0.70)), Biome::TemperateDeciduousForest);
    assert_eq!(classify(fixed(0.40), fixed(0.90)), Biome::TemperateRainForest);
    // Lowland band: everything else.
    assert_eq!(classify(fixed(0.20), fixed(0.10)), Biome::SubtropicalDesert);
    assert_eq!(classify(fixed(0.20), fixed(0.20)), Biome::Grassland);
    assert_eq!(classify(fixed(0.20), fixed(0.50)), Biome::TropicalSeasonalForest);
    assert_eq!(classify(fixed(0.20), fixed(0.90)), Biome::TropicalRainForest);
}

#[test]
fn peak_band_moisture_boundaries() {
    let e = fixed(0.81);
    assert_eq!(classify(e, 99_999), Biome::Scorched);
    assert_eq!(classify(e, 100_000), Biome::Tundra);
    assert_eq!(classify(e, 499_999), Biome::Tundra);
    assert_eq!(classify(e, 500_000), Biome::Snow);
    // Elevation exactly 0.80 is not in the peak band.
    assert_eq!(classify(fixed(0.80), fixed(0.05)), Biome::TemperateDesert);
}

#[test]
fn classifier_is_total_and_always_opaque() {
    // Densely sample the unit square, and step past 1.0 as well: every pair
    // classifies to some biome with a fully opaque colour.
    for ei in 0..=110u32 {
        for mi in 0..=110u32 {
            let c = classify(ei * 10_000, mi * 10_000).color();
            assert_eq!(c.a, 255);
        }
    }
}

#[test]
fn colour_table_matches_the_fixed_constants() {
    let expect = [
        (Biome::Ocean, (68, 68, 122)),
        (Biome::Beach, (160, 144, 119)),
        (Biome::Scorched, (85, 85, 85)),
        (Biome::Tundra, (187, 187, 170)),
        (Biome::TemperateDesert, (201, 210, 155)),
        (Biome::Shrubland, (136, 153, 119)),
        (Biome::Grassland, (136, 170, 85)),
        (Biome::TemperateDeciduousForest, (103, 148, 89)),
        (Biome::TemperateRainForest, (68, 136, 85)),
        (Biome::SubtropicalDesert, (210, 185, 139)),
        (Biome::TropicalSeasonalForest, (85, 153, 68)),
        (Biome::TropicalRainForest, (51, 119, 85)),
        (Biome::Taiga, (153, 170, 119)),
        (Biome::Snow, (221, 221, 228)),
    ];
    for (b, (r, g, bl)) in expect {
        assert_eq!(b.color(), Rgba { r, g, b: bl, a: 255 });
    }
}
