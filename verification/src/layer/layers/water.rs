//! The water layer: the first of the chain, classified from noise alone.

use crate::layer::base::above;
use crate::layer::base::exceeds;
use crate::layer::base::NoiseGenerator;
use crate::layer::base::WATER_SALT;
use crate::layer::generate_layer;
use crate::layer::generation_outcome;
use crate::layer::tint::Tint;
use crate::layer::ConfigError;
use crate::layer::Layer;
use crate::layer::LayerFactory;
use crate::layer::LayerValue;
use crate::layer::WorldPosition;
use vstd::prelude::*;

verus! {

/// The kind of water that covers a cell.
#[derive(Clone, Copy, Debug, PartialEq, Eq, Structural)]
pub enum WaterType {
    Empty,
    Ocean,
    Lake,
    River,
    Swamp,
}

impl Default for WaterType {
    fn default() -> (value: Self)
        ensures
            value == WaterType::Empty,
    {
        WaterType::Empty
    }
}

impl WaterType {
    /// The water that a raw noise sample stands for: the wetter, the higher
    /// the sample.
    pub open spec fn classify(water_value: u32) -> WaterType {
        if exceeds(water_value, 80) {
            WaterType::Ocean
        } else if exceeds(water_value, 60) {
            WaterType::Lake
        } else if exceeds(water_value, 40) {
            WaterType::River
        } else if exceeds(water_value, 20) {
            WaterType::Swamp
        } else {
            WaterType::Empty
        }
    }

    /// Whether the cell is covered by water of any kind.
    pub open spec fn wet(self) -> bool {
        self != WaterType::Empty
    }

    /// How wet a kind of water is, from 0 for dry land to 4 for the ocean.
    pub open spec fn wetness(self) -> int {
        match self {
            WaterType::Empty => 0,
            WaterType::Swamp => 1,
            WaterType::River => 2,
            WaterType::Lake => 3,
            WaterType::Ocean => 4,
        }
    }

    /// Classifies a raw noise sample as water.
    pub fn from_value(water_value: u32) -> (water: Self)
        ensures
            water == Self::classify(water_value),
    {
        if above(water_value, 80) {
            Self::Ocean
        } else if above(water_value, 60) {
            Self::Lake
        } else if above(water_value, 40) {
            Self::River
        } else if above(water_value, 20) {
            Self::Swamp
        } else {
            Self::Empty
        }
    }

    /// Whether the cell is covered by water of any kind.
    pub fn is_water(&self) -> (result: bool)
        ensures
            result == self.wet(),
    {
        *self != Self::Empty
    }
}

impl LayerValue for WaterType {
    open spec fn default_value() -> Self {
        WaterType::Empty
    }

    open spec fn color(&self) -> Tint {
        match self {
            WaterType::Empty => Tint::transparent(),
            WaterType::Ocean => Tint::solid(0, 2, 8),
            WaterType::Lake => Tint::solid(0, 4, 8),
            WaterType::River => Tint::solid(0, 6, 8),
            WaterType::Swamp => Tint::solid(0, 5, 3),
        }
    }

    fn empty() -> (value: Self) {
        WaterType::Empty
    }

    fn is_default(&self) -> (result: bool) {
        *self == WaterType::Empty
    }

    fn get_color(&self) -> (tint: Tint) {
        match self {
            WaterType::Empty => Tint::none(),
            WaterType::Ocean => Tint::srgb(0, 2, 8),
            WaterType::Lake => Tint::srgb(0, 4, 8),
            WaterType::River => Tint::srgb(0, 6, 8),
            WaterType::Swamp => Tint::srgb(0, 5, 3),
        }
    }
}

/// The drier the sample, the drier the water: between two samples, the
/// smaller one never classifies as wetter than the larger.
pub proof fn lemma_wetness_monotone(lower: u32, higher: u32)
    requires
        lower <= higher,
    ensures
        WaterType::classify(lower).wetness() <= WaterType::classify(higher).wetness(),
{
}

/// The water at a world position of the world that `noise` describes.
pub open spec fn water_at(noise: NoiseGenerator, pos: WorldPosition) -> WaterType {
    WaterType::classify(noise.field(pos.x, pos.y, WATER_SALT))
}

/// The rule of the water layer.
pub struct WaterLayerFactory {
    noise_gen: NoiseGenerator,
}

impl WaterLayerFactory {
    /// The noise that the factory samples.
    pub closed spec fn noise(&self) -> NoiseGenerator {
        self.noise_gen
    }

    /// A factory that samples the given noise.
    pub fn new(noise_gen: NoiseGenerator) -> (factory: Self)
        ensures
            factory.noise() == noise_gen,
    {
        Self { noise_gen }
    }
}

impl LayerFactory<WaterType, ()> for WaterLayerFactory {
    open spec fn value_at(&self, pos: WorldPosition, deps: &()) -> WaterType {
        water_at(self.noise(), pos)
    }

    fn create_value(&self, pos: WorldPosition, _deps: &()) -> (value: WaterType) {
        let value = self.noise_gen.get_water_value(pos.x, pos.y);
        WaterType::from_value(value)
    }
}

/// Generates the water layer of a world at the given scale.
pub fn generate_water_layer(noise_gen: &NoiseGenerator, scale: u32) -> (result: Result<
    Layer<WaterType>,
    ConfigError,
>)
    ensures
        generation_outcome(result, scale, |pos: WorldPosition| water_at(*noise_gen, pos)),
{
    let factory = WaterLayerFactory::new(*noise_gen);
    let result = generate_layer(scale, (), factory);
    proof {
        if let Ok(layer) = &result {
            assert(layer@ =~= crate::layer::grid_cells(
                scale,
                |pos: WorldPosition| water_at(*noise_gen, pos),
            ));
        }
    }
    result
}

} // verus!
