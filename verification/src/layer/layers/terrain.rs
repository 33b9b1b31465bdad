//! The terrain layer: the landform of a cell, flat wherever water lies.

use crate::layer::base::above;
use crate::layer::base::exceeds;
use crate::layer::base::NoiseGenerator;
use crate::layer::base::TERRAIN_SALT;
use crate::layer::generate_layer;
use crate::layer::generation_outcome;
use crate::layer::lemma_value_on_finer_cell;
use crate::layer::lemma_generated_value;
use crate::layer::layers::water::WaterType;
use crate::layer::tint::Tint;
use crate::layer::ConfigError;
use crate::layer::Layer;
use crate::layer::LayerFactory;
use crate::layer::LayerValue;
use crate::layer::WorldPosition;
use vstd::prelude::*;

verus! {

/// The landform of a cell.
#[derive(Clone, Copy, Debug, PartialEq, Eq, Structural)]
pub enum TerrainFeature {
    Plains,
    Mountain,
    Valley,
    Canyon,
    Cliff,
}

impl Default for TerrainFeature {
    fn default() -> (value: Self)
        ensures
            value == TerrainFeature::Plains,
    {
        TerrainFeature::Plains
    }
}

impl TerrainFeature {
    /// The landform that a raw noise sample stands for on a cell with the
    /// given water. Water levels the ground; on dry land the sample decides.
    pub open spec fn classify(terrain_value: u32, water_type: WaterType) -> TerrainFeature {
        if water_type.wet() {
            TerrainFeature::Plains
        } else if exceeds(terrain_value, 80) {
            TerrainFeature::Mountain
        } else if exceeds(terrain_value, 60) {
            TerrainFeature::Cliff
        } else if exceeds(terrain_value, 40) {
            TerrainFeature::Plains
        } else if exceeds(terrain_value, 20) {
            TerrainFeature::Valley
        } else {
            TerrainFeature::Canyon
        }
    }

    /// Classifies a raw noise sample as terrain, on a cell with the given
    /// water.
    pub fn from_values(terrain_value: u32, water_type: WaterType) -> (terrain: Self)
        ensures
            terrain == Self::classify(terrain_value, water_type),
    {
        if water_type.is_water() {
            return Self::Plains;
        }
        if above(terrain_value, 80) {
            Self::Mountain
        } else if above(terrain_value, 60) {
            Self::Cliff
        } else if above(terrain_value, 40) {
            Self::Plains
        } else if above(terrain_value, 20) {
            Self::Valley
        } else {
            Self::Canyon
        }
    }
}

impl LayerValue for TerrainFeature {
    open spec fn default_value() -> Self {
        TerrainFeature::Plains
    }

    open spec fn color(&self) -> Tint {
        match self {
            TerrainFeature::Plains => Tint::solid(5, 5, 5),
            TerrainFeature::Mountain => Tint::solid(7, 7, 7),
            TerrainFeature::Valley => Tint::solid(3, 3, 3),
            TerrainFeature::Canyon => Tint::solid(2, 2, 2),
            TerrainFeature::Cliff => Tint::solid(6, 6, 6),
        }
    }

    fn empty() -> (value: Self) {
        TerrainFeature::Plains
    }

    fn is_default(&self) -> (result: bool) {
        *self == TerrainFeature::Plains
    }

    fn get_color(&self) -> (tint: Tint) {
        match self {
            TerrainFeature::Plains => Tint::srgb(5, 5, 5),
            TerrainFeature::Mountain => Tint::srgb(7, 7, 7),
            TerrainFeature::Valley => Tint::srgb(3, 3, 3),
            TerrainFeature::Canyon => Tint::srgb(2, 2, 2),
            TerrainFeature::Cliff => Tint::srgb(6, 6, 6),
        }
    }
}

/// Under water the ground is flat, whatever the noise: a cell that holds
/// water of any kind, the ocean included, has plains for its terrain.
pub proof fn lemma_water_levels_terrain(terrain_value: u32, water_type: WaterType)
    requires
        water_type.wet(),
    ensures
        TerrainFeature::classify(terrain_value, water_type) == TerrainFeature::Plains,
{
}

/// The terrain at a world position of the world that `noise` describes,
/// over the given water layer.
pub open spec fn terrain_at(
    noise: NoiseGenerator,
    water_layer: &Layer<WaterType>,
    pos: WorldPosition,
) -> TerrainFeature {
    TerrainFeature::classify(noise.field(pos.x, pos.y, TERRAIN_SALT), water_layer.value(pos))
}

/// The rule of the terrain layer.
pub struct TerrainLayerFactory {
    noise_gen: NoiseGenerator,
}

impl TerrainLayerFactory {
    /// The noise that the factory samples.
    pub closed spec fn noise(&self) -> NoiseGenerator {
        self.noise_gen
    }

    /// A factory that samples the given noise.
    pub fn new(noise_gen: NoiseGenerator) -> (factory: Self)
        ensures
            factory.noise() == noise_gen,
    {
        Self { noise_gen }
    }
}

impl<'a> LayerFactory<TerrainFeature, &'a Layer<WaterType>> for TerrainLayerFactory {
    open spec fn value_at(&self, pos: WorldPosition, water_layer: &&'a Layer<WaterType>)
        -> TerrainFeature {
        terrain_at(self.noise(), *water_layer, pos)
    }

    fn create_value(&self, pos: WorldPosition, water_layer: &&'a Layer<WaterType>) -> (value:
        TerrainFeature) {
        let water_type = water_layer.get(pos);
        let value = self.noise_gen.get_terrain_value(pos.x, pos.y);
        TerrainFeature::from_values(value, water_type)
    }
}

/// Generates the terrain layer of a world at the given scale, over its
/// water layer.
pub fn generate_terrain_layer(
    noise_gen: &NoiseGenerator,
    scale: u32,
    water_layer: &Layer<WaterType>,
) -> (result: Result<Layer<TerrainFeature>, ConfigError>)
    ensures
        generation_outcome(
            result,
            scale,
            |pos: WorldPosition| terrain_at(*noise_gen, water_layer, pos),
        ),
{
    let factory = TerrainLayerFactory::new(*noise_gen);
    let result = generate_layer(scale, water_layer, factory);
    proof {
        if let Ok(layer) = &result {
            assert(layer@ =~= crate::layer::grid_cells(
                scale,
                |pos: WorldPosition| terrain_at(*noise_gen, water_layer, pos),
            ));
        }
    }
    result
}

/// In a terrain layer that was generated over a water layer, every world
/// position that lies under water is plains, provided that the scale of the
/// water layer is a multiple of that of the terrain layer.
pub proof fn lemma_terrain_is_flat_under_water(
    noise: NoiseGenerator,
    water_layer: Layer<WaterType>,
    terrain_layer: Layer<TerrainFeature>,
    pos: WorldPosition,
)
    requires
        water_layer.spec_scale() >= 1,
        water_layer.spec_scale() % terrain_layer.spec_scale() == 0,
        terrain_layer.is_generated(
            terrain_layer.spec_scale(),
            |p: WorldPosition| terrain_at(noise, &water_layer, p),
        ),
    ensures
        water_layer.value(pos).wet() ==> terrain_layer.value(pos) == TerrainFeature::Plains,
{
    lemma_generated_value(
        terrain_layer,
        |p: WorldPosition| terrain_at(noise, &water_layer, p),
        pos,
    );
    lemma_value_on_finer_cell(water_layer, terrain_layer.spec_scale(), pos);
}

} // verus!
