//! The detail layer: what covers the surface of a cell.

use crate::layer::base::above;
use crate::layer::base::exceeds;
use crate::layer::base::NoiseGenerator;
use crate::layer::base::DETAIL_SALT;
use crate::layer::generate_layer;
use crate::layer::generation_outcome;
use crate::layer::layers::biome::Biome;
use crate::layer::layers::terrain::TerrainFeature;
use crate::layer::layers::water::WaterType;
use crate::layer::tint::Tint;
use crate::layer::ConfigError;
use crate::layer::Layer;
use crate::layer::LayerFactory;
use crate::layer::LayerValue;
use crate::layer::WorldPosition;
use vstd::prelude::*;

verus! {

/// The surface cover of a cell.
#[derive(Clone, Copy, Debug, PartialEq, Eq, Structural)]
pub enum TerrainDetail {
    Empty,
    Rock,
    Sand,
    Mud,
    Snow,
    Ice,
}

impl Default for TerrainDetail {
    fn default() -> (value: Self)
        ensures
            value == TerrainDetail::Empty,
    {
        TerrainDetail::Empty
    }
}

impl TerrainDetail {
    /// The surface cover that a raw noise sample stands for on a cell with
    /// the given water, terrain and biome. Water can only carry ice; on dry
    /// land the biome decides what may lie on the ground. The terrain has
    /// no say.
    pub open spec fn classify(
        detail_value: u32,
        water_type: WaterType,
        terrain_feature: TerrainFeature,
        biome: Biome,
    ) -> TerrainDetail {
        if water_type.wet() {
            if exceeds(detail_value, 70) {
                TerrainDetail::Ice
            } else {
                TerrainDetail::Empty
            }
        } else {
            match biome {
                Biome::Desert => if exceeds(detail_value, 60) {
                    TerrainDetail::Sand
                } else {
                    TerrainDetail::Empty
                },
                Biome::Tundra | Biome::Snow => if exceeds(detail_value, 60) {
                    TerrainDetail::Snow
                } else if exceeds(detail_value, 30) {
                    TerrainDetail::Rock
                } else {
                    TerrainDetail::Empty
                },
                _ => if exceeds(detail_value, 70) {
                    TerrainDetail::Rock
                } else if exceeds(detail_value, 50) {
                    TerrainDetail::Mud
                } else {
                    TerrainDetail::Empty
                },
            }
        }
    }

    /// Classifies a raw noise sample as surface cover, on a cell with the
    /// given water, terrain and biome.
    pub fn from_values(
        detail_value: u32,
        water_type: WaterType,
        terrain_feature: TerrainFeature,
        biome: Biome,
    ) -> (detail: Self)
        ensures
            detail == Self::classify(detail_value, water_type, terrain_feature, biome),
    {
        if water_type.is_water() {
            if above(detail_value, 70) {
                Self::Ice
            } else {
                Self::Empty
            }
        } else {
            match biome {
                Biome::Desert => {
                    if above(detail_value, 60) {
                        Self::Sand
                    } else {
                        Self::Empty
                    }
                },
                Biome::Tundra | Biome::Snow => {
                    if above(detail_value, 60) {
                        Self::Snow
                    } else if above(detail_value, 30) {
                        Self::Rock
                    } else {
                        Self::Empty
                    }
                },
                _ => {
                    if above(detail_value, 70) {
                        Self::Rock
                    } else if above(detail_value, 50) {
                        Self::Mud
                    } else {
                        Self::Empty
                    }
                },
            }
        }
    }
}

impl LayerValue for TerrainDetail {
    open spec fn default_value() -> Self {
        TerrainDetail::Empty
    }

    open spec fn color(&self) -> Tint {
        match self {
            TerrainDetail::Empty => Tint::transparent(),
            TerrainDetail::Rock => Tint::solid(5, 5, 5),
            TerrainDetail::Sand => Tint::solid(9, 8, 3),
            TerrainDetail::Mud => Tint::solid(4, 3, 2),
            TerrainDetail::Snow => Tint::solid(10, 10, 10),
            TerrainDetail::Ice => Tint::solid(8, 9, 10),
        }
    }

    fn empty() -> (value: Self) {
        TerrainDetail::Empty
    }

    fn is_default(&self) -> (result: bool) {
        *self == TerrainDetail::Empty
    }

    fn get_color(&self) -> (tint: Tint) {
        match self {
            TerrainDetail::Empty => Tint::none(),
            TerrainDetail::Rock => Tint::srgb(5, 5, 5),
            TerrainDetail::Sand => Tint::srgb(9, 8, 3),
            TerrainDetail::Mud => Tint::srgb(4, 3, 2),
            TerrainDetail::Snow => Tint::srgb(10, 10, 10),
            TerrainDetail::Ice => Tint::srgb(8, 9, 10),
        }
    }
}

/// On water nothing but ice is ever found.
pub proof fn lemma_water_carries_only_ice(
    detail_value: u32,
    water_type: WaterType,
    terrain_feature: TerrainFeature,
    biome: Biome,
)
    requires
        water_type.wet(),
    ensures
        ({
            let detail = TerrainDetail::classify(detail_value, water_type, terrain_feature, biome);
            detail == TerrainDetail::Ice || detail == TerrainDetail::Empty
        }),
{
}

/// The surface cover at a world position of the world that `noise`
/// describes, over the given water, terrain and biome layers.
pub open spec fn detail_at(
    noise: NoiseGenerator,
    water_layer: &Layer<WaterType>,
    terrain_layer: &Layer<TerrainFeature>,
    biome_layer: &Layer<Biome>,
    pos: WorldPosition,
) -> TerrainDetail {
    TerrainDetail::classify(
        noise.field(pos.x, pos.y, DETAIL_SALT),
        water_layer.value(pos),
        terrain_layer.value(pos),
        biome_layer.value(pos),
    )
}

/// The layers that the detail layer reads, in the order in which they are
/// generated.
pub type DetailDeps<'a> = (
    &'a Layer<WaterType>,
    &'a Layer<TerrainFeature>,
    &'a Layer<Biome>,
);

/// The rule of the detail layer.
pub struct DetailLayerFactory {
    noise_gen: NoiseGenerator,
}

impl DetailLayerFactory {
    /// The noise that the factory samples.
    pub closed spec fn noise(&self) -> NoiseGenerator {
        self.noise_gen
    }

    /// A factory that samples the given noise.
    pub fn new(noise_gen: NoiseGenerator) -> (factory: Self)
        ensures
            factory.noise() == noise_gen,
    {
        Self { noise_gen }
    }
}

impl<'a> LayerFactory<TerrainDetail, DetailDeps<'a>> for DetailLayerFactory {
    open spec fn value_at(&self, pos: WorldPosition, deps: &DetailDeps<'a>) -> TerrainDetail {
        detail_at(self.noise(), deps.0, deps.1, deps.2, pos)
    }

    fn create_value(&self, pos: WorldPosition, deps: &DetailDeps<'a>) -> (value: TerrainDetail) {
        let water_type = deps.0.get(pos);
        let terrain_feature = deps.1.get(pos);
        let biome = deps.2.get(pos);
        let value = self.noise_gen.get_detail_value(pos.x, pos.y);
        TerrainDetail::from_values(value, water_type, terrain_feature, biome)
    }
}

/// Generates the detail layer of a world at the given scale, over its
/// water, terrain and biome layers.
pub fn generate_detail_layer(
    noise_gen: &NoiseGenerator,
    scale: u32,
    water_layer: &Layer<WaterType>,
    terrain_layer: &Layer<TerrainFeature>,
    biome_layer: &Layer<Biome>,
) -> (result: Result<Layer<TerrainDetail>, ConfigError>)
    ensures
        generation_outcome(
            result,
            scale,
            |pos: WorldPosition| detail_at(
                *noise_gen,
                water_layer,
                terrain_layer,
                biome_layer,
                pos,
            ),
        ),
{
    let factory = DetailLayerFactory::new(*noise_gen);
    let result = generate_layer(scale, (water_layer, terrain_layer, biome_layer), factory);
    proof {
        if let Ok(layer) = &result {
            assert(layer@ =~= crate::layer::grid_cells(
                scale,
                |pos: WorldPosition| detail_at(
                    *noise_gen,
                    water_layer,
                    terrain_layer,
                    biome_layer,
                    pos,
                ),
            ));
        }
    }
    result
}

} // verus!
