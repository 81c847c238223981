//! Biome classification: maps an (elevation, moisture) pair to one of
//! fourteen biome categories, and each category to a fixed opaque colour.
//!
//! Elevation and moisture are fixed-point fractions: the value `FIELD_UNIT`
//! stands for 1.0, so a threshold of 0.10 is `FIELD_UNIT / 10`.

use vstd::prelude::*;

verus! {

/// Fixed-point scale of the elevation and moisture fields: `FIELD_UNIT`
/// stands for the field value 1.0.
pub const FIELD_UNIT: u32 = 1_000_000;

/// Elevation below 0.10 is ocean.
pub const OCEAN_MAX: u32 = FIELD_UNIT / 10;
/// Elevation below 0.12 (and at least `OCEAN_MAX`) is beach.
pub const BEACH_MAX: u32 = FIELD_UNIT * 12 / 100;
/// Elevation above 0.80 is the peak band (scorched, tundra or snow).
pub const PEAK_MIN: u32 = FIELD_UNIT * 80 / 100;
/// Elevation above 0.60 is the highland band (desert, shrubland or taiga).
pub const HIGHLAND_MIN: u32 = FIELD_UNIT * 60 / 100;
/// Elevation above 0.30 is the midland band (desert, grassland or forests).
pub const MIDLAND_MIN: u32 = FIELD_UNIT * 30 / 100;

/// Moisture cut at 0.10, used within the peak band.
pub const MOIST_10: u32 = FIELD_UNIT / 10;
/// Moisture cut at 0.16, used within the midland and lowland bands.
pub const MOIST_16: u32 = FIELD_UNIT * 16 / 100;
/// Moisture cut at 0.33, used within the highland and lowland bands.
pub const MOIST_33: u32 = FIELD_UNIT * 33 / 100;
/// Moisture cut at 0.50, used within the peak and midland bands.
pub const MOIST_50: u32 = FIELD_UNIT * 50 / 100;
/// Moisture cut at 0.66, used within the highland and lowland bands.
pub const MOIST_66: u32 = FIELD_UNIT * 66 / 100;
/// Moisture cut at 0.83, used within the midland band.
pub const MOIST_83: u32 = FIELD_UNIT * 83 / 100;

/// The closed set of terrain categories a pixel can fall into.
#[derive(Clone, Copy, Debug, PartialEq, Eq, Structural)]
pub enum Biome {
    Ocean,
    Beach,
    Scorched,
    Tundra,
    TemperateDesert,
    Shrubland,
    Grassland,
    TemperateDeciduousForest,
    TemperateRainForest,
    SubtropicalDesert,
    TropicalSeasonalForest,
    TropicalRainForest,
    Taiga,
    Snow,
}

/// One RGBA8 pixel colour.
#[derive(Clone, Copy, Debug, PartialEq, Eq, Structural)]
pub struct Rgba {
    pub r: u8,
    pub g: u8,
    pub b: u8,
    pub a: u8,
}

/// The biome of a fixed-point (elevation, moisture) pair: elevation picks a
/// band (ocean, beach, peak, highland, midland, lowland), moisture picks the
/// category within the band. Total: every pair maps to exactly one biome.
pub open spec fn spec_classify(e: int, m: int) -> Biome {
    if e < OCEAN_MAX {
        Biome::Ocean
    } else if e < BEACH_MAX {
        Biome::Beach
    } else if e > PEAK_MIN {
        if m < MOIST_10 {
            Biome::Scorched
        } else if m < MOIST_50 {
            Biome::Tundra
        } else {
            Biome::Snow
        }
    } else if e > HIGHLAND_MIN {
        if m < MOIST_33 {
            Biome::TemperateDesert
        } else if m < MOIST_66 {
            Biome::Shrubland
        } else {
            Biome::Taiga
        }
    } else if e > MIDLAND_MIN {
        if m < MOIST_16 {
            Biome::TemperateDesert
        } else if m < MOIST_50 {
            Biome::Grassland
        } else if m < MOIST_83 {
            Biome::TemperateDeciduousForest
        } else {
            Biome::TemperateRainForest
        }
    } else {
        if m < MOIST_16 {
            Biome::SubtropicalDesert
        } else if m < MOIST_33 {
            Biome::Grassland
        } else if m < MOIST_66 {
            Biome::TropicalSeasonalForest
        } else {
            Biome::TropicalRainForest
        }
    }
}

/// Classifies a fixed-point (elevation, moisture) pair.
pub fn classify(e: u32, m: u32) -> (b: Biome)
    ensures
        b == spec_classify(e as int, m as int),
{
    if e < OCEAN_MAX {
        Biome::Ocean
    } else if e < BEACH_MAX {
        Biome::Beach
    } else if e > PEAK_MIN {
        if m < MOIST_10 {
            Biome::Scorched
        } else if m < MOIST_50 {
            Biome::Tundra
        } else {
            Biome::Snow
        }
    } else if e > HIGHLAND_MIN {
        if m < MOIST_33 {
            Biome::TemperateDesert
        } else if m < MOIST_66 {
            Biome::Shrubland
        } else {
            Biome::Taiga
        }
    } else if e > MIDLAND_MIN {
        if m < MOIST_16 {
            Biome::TemperateDesert
        } else if m < MOIST_50 {
            Biome::Grassland
        } else if m < MOIST_83 {
            Biome::TemperateDeciduousForest
        } else {
            Biome::TemperateRainForest
        }
    } else {
        if m < MOIST_16 {
            Biome::SubtropicalDesert
        } else if m < MOIST_33 {
            Biome::Grassland
        } else if m < MOIST_66 {
            Biome::TropicalSeasonalForest
        } else {
            Biome::TropicalRainForest
        }
    }
}

/// The fixed colour of each biome; the alpha channel is always 255.
pub open spec fn spec_color(b: Biome) -> Rgba {
    match b {
        Biome::Ocean => (Rgba { r: 68, g: 68, b: 122, a: 255 }),
        Biome::Beach => (Rgba { r: 160, g: 144, b: 119, a: 255 }),
        Biome::Scorched => (Rgba { r: 85, g: 85, b: 85, a: 255 }),
        Biome::Tundra => (Rgba { r: 187, g: 187, b: 170, a: 255 }),
        Biome::TemperateDesert => (Rgba { r: 201, g: 210, b: 155, a: 255 }),
        Biome::Shrubland => (Rgba { r: 136, g: 153, b: 119, a: 255 }),
        Biome::Grassland => (Rgba { r: 136, g: 170, b: 85, a: 255 }),
        Biome::TemperateDeciduousForest => (Rgba { r: 103, g: 148, b: 89, a: 255 }),
        Biome::TemperateRainForest => (Rgba { r: 68, g: 136, b: 85, a: 255 }),
        Biome::SubtropicalDesert => (Rgba { r: 210, g: 185, b: 139, a: 255 }),
        Biome::TropicalSeasonalForest => (Rgba { r: 85, g: 153, b: 68, a: 255 }),
        Biome::TropicalRainForest => (Rgba { r: 51, g: 119, b: 85, a: 255 }),
        Biome::Taiga => (Rgba { r: 153, g: 170, b: 119, a: 255 }),
        Biome::Snow => (Rgba { r: 221, g: 221, b: 228, a: 255 }),
    }
}

impl Biome {
    /// The fixed display colour of this biome.
    pub fn color(self) -> (c: Rgba)
        ensures
            c == spec_color(self),
    {
        match self {
            Biome::Ocean => Rgba { r: 68, g: 68, b: 122, a: 255 },
            Biome::Beach => Rgba { r: 160, g: 144, b: 119, a: 255 },
            Biome::Scorched => Rgba { r: 85, g: 85, b: 85, a: 255 },
            Biome::Tundra => Rgba { r: 187, g: 187, b: 170, a: 255 },
            Biome::TemperateDesert => Rgba { r: 201, g: 210, b: 155, a: 255 },
            Biome::Shrubland => Rgba { r: 136, g: 153, b: 119, a: 255 },
            Biome::Grassland => Rgba { r: 136, g: 170, b: 85, a: 255 },
            Biome::TemperateDeciduousForest => Rgba { r: 103, g: 148, b: 89, a: 255 },
            Biome::TemperateRainForest => Rgba { r: 68, g: 136, b: 85, a: 255 },
            Biome::SubtropicalDesert => Rgba { r: 210, g: 185, b: 139, a: 255 },
            Biome::TropicalSeasonalForest => Rgba { r: 85, g: 153, b: 68, a: 255 },
            Biome::TropicalRainForest => Rgba { r: 51, g: 119, b: 85, a: 255 },
            Biome::Taiga => Rgba { r: 153, g: 170, b: 119, a: 255 },
            Biome::Snow => Rgba { r: 221, g: 221, b: 228, a: 255 },
        }
    }
}

/// Classification is total and its colour is always fully opaque: every
/// (elevation, moisture) pair, in range or not, maps to a biome whose colour
/// has alpha 255.
pub proof fn lemma_classified_color_opaque(e: int, m: int)
    ensures
        spec_color(spec_classify(e, m)).a == 255,
{
}

} // verus!
