//! The biome layer: the climate zone of a cell, read from its terrain.

use crate::layer::base::above;
use crate::layer::base::exceeds;
use crate::layer::base::NoiseGenerator;
use crate::layer::base::BIOME_SALT;
use crate::layer::generate_layer;
use crate::layer::generation_outcome;
use crate::layer::lemma_value_on_finer_cell;
use crate::layer::lemma_generated_value;
use crate::layer::layers::terrain::TerrainFeature;
use crate::layer::layers::water::WaterType;
use crate::layer::tint::Tint;
use crate::layer::ConfigError;
use crate::layer::Layer;
use crate::layer::LayerFactory;
use crate::layer::LayerValue;
use crate::layer::WorldPosition;
use vstd::prelude::*;

verus! {

/// The climate zone of a cell.
#[derive(Clone, Copy, Debug, PartialEq, Eq, Structural)]
pub enum Biome {
    Desert,
    Grassland,
    Forest,
    Jungle,
    Tundra,
    Snow,
}

impl Default for Biome {
    fn default() -> (value: Self)
        ensures
            value == Biome::Desert,
    {
        Biome::Desert
    }
}

impl Biome {
    /// The climate zone that a raw noise sample stands for on a cell with
    /// the given water and terrain. A cell under water has no climate of
    /// its own; mountains are cold, plains temperate to dry, and all other
    /// ground is lush.
    pub open spec fn classify(
        biome_value: u32,
        water_type: WaterType,
        terrain_feature: TerrainFeature,
    ) -> Biome {
        if water_type.wet() {
            Biome::Desert
        } else {
            match terrain_feature {
                TerrainFeature::Mountain => if exceeds(biome_value, 50) {
                    Biome::Snow
                } else {
                    Biome::Tundra
                },
                TerrainFeature::Plains => if exceeds(biome_value, 70) {
                    Biome::Desert
                } else if exceeds(biome_value, 40) {
                    Biome::Grassland
                } else {
                    Biome::Forest
                },
                _ => if exceeds(biome_value, 60) {
                    Biome::Jungle
                } else if exceeds(biome_value, 30) {
                    Biome::Forest
                } else {
                    Biome::Grassland
                },
            }
        }
    }

    /// Classifies a raw noise sample as a biome, on a cell with the given
    /// water and terrain.
    pub fn from_values(
        biome_value: u32,
        water_type: WaterType,
        terrain_feature: TerrainFeature,
    ) -> (biome: Self)
        ensures
            biome == Self::classify(biome_value, water_type, terrain_feature),
    {
        if water_type.is_water() {
            return Biome::Desert;
        }
        match terrain_feature {
            TerrainFeature::Mountain => {
                if above(biome_value, 50) {
                    Self::Snow
                } else {
                    Self::Tundra
                }
            },
            TerrainFeature::Plains => {
                if above(biome_value, 70) {
                    Self::Desert
                } else if above(biome_value, 40) {
                    Self::Grassland
                } else {
                    Self::Forest
                }
            },
            _ => {
                if above(biome_value, 60) {
                    Self::Jungle
                } else if above(biome_value, 30) {
                    Self::Forest
                } else {
                    Self::Grassland
                }
            },
        }
    }
}

impl LayerValue for Biome {
    open spec fn default_value() -> Self {
        Biome::Desert
    }

    open spec fn color(&self) -> Tint {
        match self {
            Biome::Desert => Tint::solid(9, 8, 3),
            Biome::Grassland => Tint::solid(4, 8, 2),
            Biome::Forest => Tint::solid(2, 6, 1),
            Biome::Jungle => Tint::solid(1, 5, 1),
            Biome::Tundra => Tint::solid(8, 8, 8),
            Biome::Snow => Tint::solid(10, 10, 10),
        }
    }

    fn empty() -> (value: Self) {
        Biome::Desert
    }

    fn is_default(&self) -> (result: bool) {
        *self == Biome::Desert
    }

    fn get_color(&self) -> (tint: Tint) {
        match self {
            Biome::Desert => Tint::srgb(9, 8, 3),
            Biome::Grassland => Tint::srgb(4, 8, 2),
            Biome::Forest => Tint::srgb(2, 6, 1),
            Biome::Jungle => Tint::srgb(1, 5, 1),
            Biome::Tundra => Tint::srgb(8, 8, 8),
            Biome::Snow => Tint::srgb(10, 10, 10),
        }
    }
}

/// A cell that holds water of any kind has the desert for its biome,
/// whatever the noise and the terrain.
pub proof fn lemma_water_has_no_biome(
    biome_value: u32,
    water_type: WaterType,
    terrain_feature: TerrainFeature,
)
    requires
        water_type.wet(),
    ensures
        Biome::classify(biome_value, water_type, terrain_feature) == Biome::Desert,
{
}

/// The biome at a world position of the world that `noise`
/// describes, over the given water and terrain layers.
pub open spec fn biome_at(
    noise: NoiseGenerator,
    water_layer: &Layer<WaterType>,
    terrain_layer: &Layer<TerrainFeature>,
    pos: WorldPosition,
) -> Biome {
    Biome::classify(
        noise.field(pos.x, pos.y, BIOME_SALT),
        water_layer.value(pos),
        terrain_layer.value(pos),
    )
}

/// The layers that the biome layer reads, in the order in which they are
/// generated.
pub type BiomeDeps<'a> = (
    &'a Layer<WaterType>,
    &'a Layer<TerrainFeature>,
);

/// The rule of the biome layer.
pub struct BiomeLayerFactory {
    noise_gen: NoiseGenerator,
}

impl BiomeLayerFactory {
    /// The noise that the factory samples.
    pub closed spec fn noise(&self) -> NoiseGenerator {
        self.noise_gen
    }

    /// A factory that samples the given noise.
    pub fn new(noise_gen: NoiseGenerator) -> (factory: Self)
        ensures
            factory.noise() == noise_gen,
    {
        Self { noise_gen }
    }
}

impl<'a> LayerFactory<Biome, BiomeDeps<'a>> for BiomeLayerFactory {
    open spec fn value_at(&self, pos: WorldPosition, deps: &BiomeDeps<'a>) -> Biome {
        biome_at(self.noise(), deps.0, deps.1, pos)
    }

    fn create_value(&self, pos: WorldPosition, deps: &BiomeDeps<'a>) -> (value: Biome) {
        let water_type = deps.0.get(pos);
        let terrain_feature = deps.1.get(pos);
        let value = self.noise_gen.get_biome_value(pos.x, pos.y);
        Biome::from_values(value, water_type, terrain_feature)
    }
}

/// Generates the biome layer of a world at the given scale, over its
/// water and terrain layers.
pub fn generate_biome_layer(
    noise_gen: &NoiseGenerator,
    scale: u32,
    water_layer: &Layer<WaterType>,
    terrain_layer: &Layer<TerrainFeature>,
) -> (result: Result<Layer<Biome>, ConfigError>)
    ensures
        generation_outcome(
            result,
            scale,
            |pos: WorldPosition| biome_at(*noise_gen, water_layer, terrain_layer, pos),
        ),
{
    let factory = BiomeLayerFactory::new(*noise_gen);
    let result = generate_layer(scale, (water_layer, terrain_layer), factory);
    proof {
        if let Ok(layer) = &result {
            assert(layer@ =~= crate::layer::grid_cells(
                scale,
                |pos: WorldPosition| biome_at(*noise_gen, water_layer, terrain_layer, pos),
            ));
        }
    }
    result
}

/// In a biome layer that was generated over a water layer, every world
/// position that lies under water is desert, provided that the scale of the
/// water layer is a multiple of that of the biome layer.
pub proof fn lemma_biome_is_desert_under_water(
    noise: NoiseGenerator,
    water_layer: Layer<WaterType>,
    terrain_layer: Layer<TerrainFeature>,
    biome_layer: Layer<Biome>,
    pos: WorldPosition,
)
    requires
        water_layer.spec_scale() >= 1,
        water_layer.spec_scale() % biome_layer.spec_scale() == 0,
        biome_layer.is_generated(
            biome_layer.spec_scale(),
            |p: WorldPosition| biome_at(noise, &water_layer, &terrain_layer, p),
        ),
    ensures
        water_layer.value(pos).wet() ==> biome_layer.value(pos) == Biome::Desert,
{
    lemma_generated_value(
        biome_layer,
        |p: WorldPosition| biome_at(noise, &water_layer, &terrain_layer, p),
        pos,
    );
    lemma_value_on_finer_cell(water_layer, biome_layer.spec_scale(), pos);
}

} // verus!
