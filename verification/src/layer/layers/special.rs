//! The special layer: rare features that crown the other six layers.

use crate::layer::base::above;
use crate::layer::base::exceeds;
use crate::layer::base::NoiseGenerator;
use crate::layer::base::SPECIAL_SALT;
use crate::layer::generate_layer;
use crate::layer::generation_outcome;
use crate::layer::layers::biome::Biome;
use crate::layer::layers::detail::TerrainDetail;
use crate::layer::layers::flora::Flora;
use crate::layer::layers::terrain::TerrainFeature;
use crate::layer::layers::urban::Urban;
use crate::layer::layers::water::WaterType;
use crate::layer::tint::Tint;
use crate::layer::ConfigError;
use crate::layer::Layer;
use crate::layer::LayerFactory;
use crate::layer::LayerValue;
use crate::layer::WorldPosition;
use vstd::prelude::*;

verus! {

/// The special feature of a cell.
#[derive(Clone, Copy, Debug, PartialEq, Eq, Structural)]
pub enum Special {
    Empty,
    Volcano,
    Geyser,
    Crystal,
    Portal,
    Ruins,
    Temple,
    Dungeon,
}

impl Default for Special {
    fn default() -> (value: Self)
        ensures
            value == Special::Empty,
    {
        Special::Empty
    }
}

impl Special {
    /// The feature of the rarest band of samples: it follows the ground.
    pub open spec fn natural_wonder(water_type: WaterType, terrain_feature: TerrainFeature)
        -> Special {
        if terrain_feature == TerrainFeature::Mountain {
            Special::Volcano
        } else if water_type.wet() {
            Special::Geyser
        } else {
            Special::Crystal
        }
    }

    /// The feature of the second band of samples: it follows what was
    /// built.
    pub open spec fn relic(urban: Urban) -> Special {
        match urban {
            Urban::Temple => Special::Temple,
            Urban::Ruin => Special::Ruins,
            _ => Special::Portal,
        }
    }

    /// The special feature that a raw noise sample stands for on a cell
    /// with the given values of the six other layers. Only the highest
    /// samples bear a feature at all. Biome, surface cover and plant life
    /// have no say.
    pub open spec fn classify(
        special_value: u32,
        water_type: WaterType,
        terrain_feature: TerrainFeature,
        biome: Biome,
        detail: TerrainDetail,
        flora: Flora,
        urban: Urban,
    ) -> Special {
        if exceeds(special_value, 95) {
            Self::natural_wonder(water_type, terrain_feature)
        } else if exceeds(special_value, 90) {
            Self::relic(urban)
        } else if exceeds(special_value, 85) {
            Special::Dungeon
        } else {
            Special::Empty
        }
    }

    /// Classifies a raw noise sample as a special feature, on a cell with
    /// the given values of the six other layers.
    pub fn from_values(
        special_value: u32,
        water_type: WaterType,
        terrain_feature: TerrainFeature,
        biome: Biome,
        detail: TerrainDetail,
        flora: Flora,
        urban: Urban,
    ) -> (special: Self)
        ensures
            special == Self::classify(
                special_value,
                water_type,
                terrain_feature,
                biome,
                detail,
                flora,
                urban,
            ),
    {
        if above(special_value, 95) {
            match terrain_feature {
                TerrainFeature::Mountain => Self::Volcano,
                _ => {
                    if water_type.is_water() {
                        Self::Geyser
                    } else {
                        Self::Crystal
                    }
                },
            }
        } else if above(special_value, 90) {
            match urban {
                Urban::Temple => Self::Temple,
                Urban::Ruin => Self::Ruins,
                _ => Self::Portal,
            }
        } else if above(special_value, 85) {
            Self::Dungeon
        } else {
            Self::Empty
        }
    }
}

impl LayerValue for Special {
    open spec fn default_value() -> Self {
        Special::Empty
    }

    open spec fn color(&self) -> Tint {
        match self {
            Special::Empty => Tint::transparent(),
            Special::Volcano => Tint::solid(8, 2, 0),
            Special::Geyser => Tint::solid(0, 8, 8),
            Special::Crystal => Tint::solid(8, 8, 10),
            Special::Portal => Tint::solid(8, 0, 8),
            Special::Ruins => Tint::solid(6, 6, 6),
            Special::Temple => Tint::solid(8, 8, 6),
            Special::Dungeon => Tint::solid(4, 4, 4),
        }
    }

    fn empty() -> (value: Self) {
        Special::Empty
    }

    fn is_default(&self) -> (result: bool) {
        *self == Special::Empty
    }

    fn get_color(&self) -> (tint: Tint) {
        match self {
            Special::Empty => Tint::none(),
            Special::Volcano => Tint::srgb(8, 2, 0),
            Special::Geyser => Tint::srgb(0, 8, 8),
            Special::Crystal => Tint::srgb(8, 8, 10),
            Special::Portal => Tint::srgb(8, 0, 8),
            Special::Ruins => Tint::srgb(6, 6, 6),
            Special::Temple => Tint::srgb(8, 8, 6),
            Special::Dungeon => Tint::srgb(4, 4, 4),
        }
    }
}

/// The special feature at a world position of the world that `noise`
/// describes, over the given water, terrain, biome, detail, flora and urban layers.
pub open spec fn special_at(
    noise: NoiseGenerator,
    water_layer: &Layer<WaterType>,
    terrain_layer: &Layer<TerrainFeature>,
    biome_layer: &Layer<Biome>,
    detail_layer: &Layer<TerrainDetail>,
    flora_layer: &Layer<Flora>,
    urban_layer: &Layer<Urban>,
    pos: WorldPosition,
) -> Special {
    Special::classify(
        noise.field(pos.x, pos.y, SPECIAL_SALT),
        water_layer.value(pos),
        terrain_layer.value(pos),
        biome_layer.value(pos),
        detail_layer.value(pos),
        flora_layer.value(pos),
        urban_layer.value(pos),
    )
}

/// The layers that the special layer reads, in the order in which they are
/// generated.
pub type SpecialDeps<'a> = (
    &'a Layer<WaterType>,
    &'a Layer<TerrainFeature>,
    &'a Layer<Biome>,
    &'a Layer<TerrainDetail>,
    &'a Layer<Flora>,
    &'a Layer<Urban>,
);

/// The rule of the special layer.
pub struct SpecialLayerFactory {
    noise_gen: NoiseGenerator,
}

impl SpecialLayerFactory {
    /// The noise that the factory samples.
    pub closed spec fn noise(&self) -> NoiseGenerator {
        self.noise_gen
    }

    /// A factory that samples the given noise.
    pub fn new(noise_gen: NoiseGenerator) -> (factory: Self)
        ensures
            factory.noise() == noise_gen,
    {
        Self { noise_gen }
    }
}

impl<'a> LayerFactory<Special, SpecialDeps<'a>> for SpecialLayerFactory {
    open spec fn value_at(&self, pos: WorldPosition, deps: &SpecialDeps<'a>) -> Special {
        special_at(self.noise(), deps.0, deps.1, deps.2, deps.3, deps.4, deps.5, pos)
    }

    fn create_value(&self, pos: WorldPosition, deps: &SpecialDeps<'a>) -> (value: Special) {
        let water_type = deps.0.get(pos);
        let terrain_feature = deps.1.get(pos);
        let biome = deps.2.get(pos);
        let detail = deps.3.get(pos);
        let flora = deps.4.get(pos);
        let urban = deps.5.get(pos);
        let value = self.noise_gen.get_special_value(pos.x, pos.y);
        Special::from_values(value, water_type, terrain_feature, biome, detail, flora, urban)
    }
}

/// Generates the special layer of a world at the given scale, over its
/// water, terrain, biome, detail, flora and urban layers.
pub fn generate_special_layer(
    noise_gen: &NoiseGenerator,
    scale: u32,
    water_layer: &Layer<WaterType>,
    terrain_layer: &Layer<TerrainFeature>,
    biome_layer: &Layer<Biome>,
    detail_layer: &Layer<TerrainDetail>,
    flora_layer: &Layer<Flora>,
    urban_layer: &Layer<Urban>,
) -> (result: Result<Layer<Special>, ConfigError>)
    ensures
        generation_outcome(
            result,
            scale,
            |pos: WorldPosition| special_at(
                *noise_gen,
                water_layer,
                terrain_layer,
                biome_layer,
                detail_layer,
                flora_layer,
                urban_layer,
                pos,
            ),
        ),
{
    let factory = SpecialLayerFactory::new(*noise_gen);
    let result = generate_layer(
        scale,
        (water_layer, terrain_layer, biome_layer, detail_layer, flora_layer, urban_layer),
        factory,
    );
    proof {
        if let Ok(layer) = &result {
            assert(layer@ =~= crate::layer::grid_cells(
                scale,
                |pos: WorldPosition| special_at(
                    *noise_gen,
                    water_layer,
                    terrain_layer,
                    biome_layer,
                    detail_layer,
                    flora_layer,
                    urban_layer,
                    pos,
                ),
            ));
        }
    }
    result
}

} // verus!
