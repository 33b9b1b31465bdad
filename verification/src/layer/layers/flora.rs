//! The flora layer: what grows on a cell.

use crate::layer::base::above;
use crate::layer::base::exceeds;
use crate::layer::base::NoiseGenerator;
use crate::layer::base::FLORA_SALT;
use crate::layer::generate_layer;
use crate::layer::generation_outcome;
use crate::layer::layers::biome::Biome;
use crate::layer::layers::detail::TerrainDetail;
use crate::layer::layers::terrain::TerrainFeature;
use crate::layer::layers::water::WaterType;
use crate::layer::tint::Tint;
use crate::layer::ConfigError;
use crate::layer::Layer;
use crate::layer::LayerFactory;
use crate::layer::LayerValue;
use crate::layer::WorldPosition;
use vstd::prelude::*;

verus! {

/// The plant life of a cell.
#[derive(Clone, Copy, Debug, PartialEq, Eq, Structural)]
pub enum Flora {
    Empty,
    Tree,
    Palm,
    Cactus,
    Bush,
    Flower,
    Mushroom,
    Seaweed,
}

impl Default for Flora {
    fn default() -> (value: Self)
        ensures
            value == Flora::Empty,
    {
        Flora::Empty
    }
}

impl Flora {
    /// What grows in the ocean for a raw noise sample.
    pub open spec fn in_ocean(flora_value: u32) -> Flora {
        if exceeds(flora_value, 70) {
            Flora::Seaweed
        } else {
            Flora::Empty
        }
    }

    /// What grows on dry land of the given biome for a raw noise sample.
    /// Each biome has its own cut-offs and its own plants; below the lowest
    /// cut-off nothing grows.
    pub open spec fn on_land(flora_value: u32, biome: Biome) -> Flora {
        match biome {
            Biome::Desert => if exceeds(flora_value, 80) {
                Flora::Cactus
            } else if exceeds(flora_value, 60) {
                Flora::Bush
            } else {
                Flora::Empty
            },
            Biome::Jungle => if exceeds(flora_value, 70) {
                Flora::Tree
            } else if exceeds(flora_value, 50) {
                Flora::Bush
            } else if exceeds(flora_value, 30) {
                Flora::Flower
            } else {
                Flora::Empty
            },
            Biome::Tundra => if exceeds(flora_value, 80) {
                Flora::Bush
            } else if exceeds(flora_value, 60) {
                Flora::Flower
            } else {
                Flora::Empty
            },
            _ => if exceeds(flora_value, 80) {
                Flora::Tree
            } else if exceeds(flora_value, 60) {
                Flora::Bush
            } else if exceeds(flora_value, 40) {
                Flora::Flower
            } else {
                Flora::Empty
            },
        }
    }

    /// The plant life that a raw noise sample stands for on a cell with the
    /// given water, terrain, biome and surface cover. Of all waters only the
    /// ocean bears plants; on dry land the biome decides. Terrain and
    /// surface cover have no say.
    pub open spec fn classify(
        flora_value: u32,
        water_type: WaterType,
        terrain_feature: TerrainFeature,
        biome: Biome,
        detail: TerrainDetail,
    ) -> Flora {
        if water_type == WaterType::Ocean {
            Self::in_ocean(flora_value)
        } else if water_type.wet() {
            Flora::Empty
        } else {
            Self::on_land(flora_value, biome)
        }
    }

    /// Classifies a raw noise sample as plant life, on a cell with the given
    /// water, terrain, biome and surface cover.
    pub fn from_values(
        flora_value: u32,
        water_type: WaterType,
        terrain_feature: TerrainFeature,
        biome: Biome,
        detail: TerrainDetail,
    ) -> (flora: Self)
        ensures
            flora == Self::classify(flora_value, water_type, terrain_feature, biome, detail),
    {
        if water_type.is_water() {
            if water_type == WaterType::Ocean {
                if above(flora_value, 70) {
                    Self::Seaweed
                } else {
                    Self::Empty
                }
            } else {
                Self::Empty
            }
        } else {
            match biome {
                Biome::Desert => {
                    if above(flora_value, 80) {
                        Self::Cactus
                    } else if above(flora_value, 60) {
                        Self::Bush
                    } else {
                        Self::Empty
                    }
                },
                Biome::Forest => {
                    if above(flora_value, 80) {
                        Self::Tree
                    } else if above(flora_value, 60) {
                        Self::Bush
                    } else if above(flora_value, 40) {
                        Self::Flower
                    } else {
                        Self::Empty
                    }
                },
                Biome::Jungle => {
                    if above(flora_value, 70) {
                        Self::Tree
                    } else if above(flora_value, 50) {
                        Self::Bush
                    } else if above(flora_value, 30) {
                        Self::Flower
                    } else {
                        Self::Empty
                    }
                },
                Biome::Tundra => {
                    if above(flora_value, 80) {
                        Self::Bush
                    } else if above(flora_value, 60) {
                        Self::Flower
                    } else {
                        Self::Empty
                    }
                },
                _ => {
                    if above(flora_value, 80) {
                        Self::Tree
                    } else if above(flora_value, 60) {
                        Self::Bush
                    } else if above(flora_value, 40) {
                        Self::Flower
                    } else {
                        Self::Empty
                    }
                },
            }
        }
    }
}

impl LayerValue for Flora {
    open spec fn default_value() -> Self {
        Flora::Empty
    }

    open spec fn color(&self) -> Tint {
        match self {
            Flora::Empty => Tint::transparent(),
            Flora::Tree => Tint::solid(2, 5, 2),
            Flora::Palm => Tint::solid(3, 6, 3),
            Flora::Cactus => Tint::solid(3, 7, 3),
            Flora::Bush => Tint::solid(3, 6, 3),
            Flora::Flower => Tint::solid(8, 4, 8),
            Flora::Mushroom => Tint::solid(7, 7, 7),
            Flora::Seaweed => Tint::solid(2, 4, 2),
        }
    }

    fn empty() -> (value: Self) {
        Flora::Empty
    }

    fn is_default(&self) -> (result: bool) {
        *self == Flora::Empty
    }

    fn get_color(&self) -> (tint: Tint) {
        match self {
            Flora::Empty => Tint::none(),
            Flora::Tree => Tint::srgb(2, 5, 2),
            Flora::Palm => Tint::srgb(3, 6, 3),
            Flora::Cactus => Tint::srgb(3, 7, 3),
            Flora::Bush => Tint::srgb(3, 6, 3),
            Flora::Flower => Tint::srgb(8, 4, 8),
            Flora::Mushroom => Tint::srgb(7, 7, 7),
            Flora::Seaweed => Tint::srgb(2, 4, 2),
        }
    }
}

/// On water nothing grows but seaweed, and seaweed grows nowhere but in
/// the ocean.
pub proof fn lemma_water_bears_only_seaweed(
    flora_value: u32,
    water_type: WaterType,
    terrain_feature: TerrainFeature,
    biome: Biome,
    detail: TerrainDetail,
)
    ensures
        ({
            let flora = Flora::classify(flora_value, water_type, terrain_feature, biome, detail);
            &&& water_type.wet() ==> flora == Flora::Seaweed || flora == Flora::Empty
            &&& flora == Flora::Seaweed ==> water_type == WaterType::Ocean
        }),
{
}

/// The plant life at a world position of the world that `noise`
/// describes, over the given water, terrain, biome and detail layers.
pub open spec fn flora_at(
    noise: NoiseGenerator,
    water_layer: &Layer<WaterType>,
    terrain_layer: &Layer<TerrainFeature>,
    biome_layer: &Layer<Biome>,
    detail_layer: &Layer<TerrainDetail>,
    pos: WorldPosition,
) -> Flora {
    Flora::classify(
        noise.field(pos.x, pos.y, FLORA_SALT),
        water_layer.value(pos),
        terrain_layer.value(pos),
        biome_layer.value(pos),
        detail_layer.value(pos),
    )
}

/// The layers that the flora layer reads, in the order in which they are
/// generated.
pub type FloraDeps<'a> = (
    &'a Layer<WaterType>,
    &'a Layer<TerrainFeature>,
    &'a Layer<Biome>,
    &'a Layer<TerrainDetail>,
);

/// The rule of the flora layer.
pub struct FloraLayerFactory {
    noise_gen: NoiseGenerator,
}

impl FloraLayerFactory {
    /// The noise that the factory samples.
    pub closed spec fn noise(&self) -> NoiseGenerator {
        self.noise_gen
    }

    /// A factory that samples the given noise.
    pub fn new(noise_gen: NoiseGenerator) -> (factory: Self)
        ensures
            factory.noise() == noise_gen,
    {
        Self { noise_gen }
    }
}

impl<'a> LayerFactory<Flora, FloraDeps<'a>> for FloraLayerFactory {
    open spec fn value_at(&self, pos: WorldPosition, deps: &FloraDeps<'a>) -> Flora {
        flora_at(self.noise(), deps.0, deps.1, deps.2, deps.3, pos)
    }

    fn create_value(&self, pos: WorldPosition, deps: &FloraDeps<'a>) -> (value: Flora) {
        let water_type = deps.0.get(pos);
        let terrain_feature = deps.1.get(pos);
        let biome = deps.2.get(pos);
        let detail = deps.3.get(pos);
        let value = self.noise_gen.get_flora_value(pos.x, pos.y);
        Flora::from_values(value, water_type, terrain_feature, biome, detail)
    }
}

/// Generates the flora layer of a world at the given scale, over its
/// water, terrain, biome and detail layers.
pub fn generate_flora_layer(
    noise_gen: &NoiseGenerator,
    scale: u32,
    water_layer: &Layer<WaterType>,
    terrain_layer: &Layer<TerrainFeature>,
    biome_layer: &Layer<Biome>,
    detail_layer: &Layer<TerrainDetail>,
) -> (result: Result<Layer<Flora>, ConfigError>)
    ensures
        generation_outcome(
            result,
            scale,
            |pos: WorldPosition| flora_at(
                *noise_gen,
                water_layer,
                terrain_layer,
                biome_layer,
                detail_layer,
                pos,
            ),
        ),
{
    let factory = FloraLayerFactory::new(*noise_gen);
    let result = generate_layer(
        scale,
        (water_layer, terrain_layer, biome_layer, detail_layer),
        factory,
    );
    proof {
        if let Ok(layer) = &result {
            assert(layer@ =~= crate::layer::grid_cells(
                scale,
                |pos: WorldPosition| flora_at(
                    *noise_gen,
                    water_layer,
                    terrain_layer,
                    biome_layer,
                    detail_layer,
                    pos,
                ),
            ));
        }
    }
    result
}

} // verus!
