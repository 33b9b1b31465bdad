//! The urban layer: what people have built on a cell.

use crate::layer::base::above;
use crate::layer::base::exceeds;
use crate::layer::base::NoiseGenerator;
use crate::layer::base::URBAN_SALT;
use crate::layer::generate_layer;
use crate::layer::generation_outcome;
use crate::layer::lemma_value_on_finer_cell;
use crate::layer::lemma_generated_value;
use crate::layer::layers::biome::Biome;
use crate::layer::layers::detail::TerrainDetail;
use crate::layer::layers::flora::Flora;
use crate::layer::layers::terrain::TerrainFeature;
use crate::layer::layers::water::WaterType;
use crate::layer::tint::Tint;
use crate::layer::ConfigError;
use crate::layer::Layer;
use crate::layer::LayerFactory;
use crate::layer::LayerValue;
use crate::layer::WorldPosition;
use vstd::prelude::*;

verus! {

/// The settlement of a cell.
#[derive(Clone, Copy, Debug, PartialEq, Eq, Structural)]
pub enum Urban {
    Empty,
    House,
    Farm,
    City,
    Port,
    Mine,
    Temple,
    Ruin,
}

impl Default for Urban {
    fn default() -> (value: Self)
        ensures
            value == Urban::Empty,
    {
        Urban::Empty
    }
}

impl Urban {
    /// The settlement that a raw noise sample stands for on a cell with the
    /// given water, terrain, biome, surface cover and plant life. On water
    /// only ports are built, in mountains only mines, and only plains are
    /// settled otherwise. Biome, surface cover and plant life have no say.
    pub open spec fn classify(
        urban_value: u32,
        water_type: WaterType,
        terrain_feature: TerrainFeature,
        biome: Biome,
        detail: TerrainDetail,
        flora: Flora,
    ) -> Urban {
        if water_type.wet() {
            if exceeds(urban_value, 80) {
                Urban::Port
            } else {
                Urban::Empty
            }
        } else {
            match terrain_feature {
                TerrainFeature::Mountain => if exceeds(urban_value, 70) {
                    Urban::Mine
                } else {
                    Urban::Empty
                },
                TerrainFeature::Plains => if exceeds(urban_value, 90) {
                    Urban::City
                } else if exceeds(urban_value, 70) {
                    Urban::Farm
                } else if exceeds(urban_value, 50) {
                    Urban::House
                } else {
                    Urban::Empty
                },
                _ => Urban::Empty,
            }
        }
    }

    /// Classifies a raw noise sample as a settlement, on a cell with the
    /// given water, terrain, biome, surface cover and plant life.
    pub fn from_values(
        urban_value: u32,
        water_type: WaterType,
        terrain_feature: TerrainFeature,
        biome: Biome,
        detail: TerrainDetail,
        flora: Flora,
    ) -> (urban: Self)
        ensures
            urban == Self::classify(
                urban_value,
                water_type,
                terrain_feature,
                biome,
                detail,
                flora,
            ),
    {
        if water_type.is_water() {
            if above(urban_value, 80) {
                Self::Port
            } else {
                Self::Empty
            }
        } else {
            match terrain_feature {
                TerrainFeature::Mountain => {
                    if above(urban_value, 70) {
                        Self::Mine
                    } else {
                        Self::Empty
                    }
                },
                TerrainFeature::Plains => {
                    if above(urban_value, 90) {
                        Self::City
                    } else if above(urban_value, 70) {
                        Self::Farm
                    } else if above(urban_value, 50) {
                        Self::House
                    } else {
                        Self::Empty
                    }
                },
                _ => Self::Empty,
            }
        }
    }
}

impl LayerValue for Urban {
    open spec fn default_value() -> Self {
        Urban::Empty
    }

    open spec fn color(&self) -> Tint {
        match self {
            Urban::Empty => Tint::transparent(),
            Urban::House => Tint::solid(7, 7, 7),
            Urban::Farm => Tint::solid(8, 8, 6),
            Urban::City => Tint::solid(5, 5, 5),
            Urban::Port => Tint::solid(6, 6, 8),
            Urban::Mine => Tint::solid(4, 4, 4),
            Urban::Temple => Tint::solid(8, 8, 4),
            Urban::Ruin => Tint::solid(6, 6, 6),
        }
    }

    fn empty() -> (value: Self) {
        Urban::Empty
    }

    fn is_default(&self) -> (result: bool) {
        *self == Urban::Empty
    }

    fn get_color(&self) -> (tint: Tint) {
        match self {
            Urban::Empty => Tint::none(),
            Urban::House => Tint::srgb(7, 7, 7),
            Urban::Farm => Tint::srgb(8, 8, 6),
            Urban::City => Tint::srgb(5, 5, 5),
            Urban::Port => Tint::srgb(6, 6, 8),
            Urban::Mine => Tint::srgb(4, 4, 4),
            Urban::Temple => Tint::srgb(8, 8, 4),
            Urban::Ruin => Tint::srgb(6, 6, 6),
        }
    }
}

/// On water nothing is built but ports: a cell that holds water of any kind
/// has a port or no settlement, never a house, a farm, a city or a mine.
pub proof fn lemma_water_admits_only_ports(
    urban_value: u32,
    water_type: WaterType,
    terrain_feature: TerrainFeature,
    biome: Biome,
    detail: TerrainDetail,
    flora: Flora,
)
    requires
        water_type.wet(),
    ensures
        ({
            let urban = Urban::classify(
                urban_value,
                water_type,
                terrain_feature,
                biome,
                detail,
                flora,
            );
            urban == Urban::Port || urban == Urban::Empty
        }),
{
}

/// The settlement at a world position of the world that `noise`
/// describes, over the given water, terrain, biome, detail and flora layers.
pub open spec fn urban_at(
    noise: NoiseGenerator,
    water_layer: &Layer<WaterType>,
    terrain_layer: &Layer<TerrainFeature>,
    biome_layer: &Layer<Biome>,
    detail_layer: &Layer<TerrainDetail>,
    flora_layer: &Layer<Flora>,
    pos: WorldPosition,
) -> Urban {
    Urban::classify(
        noise.field(pos.x, pos.y, URBAN_SALT),
        water_layer.value(pos),
        terrain_layer.value(pos),
        biome_layer.value(pos),
        detail_layer.value(pos),
        flora_layer.value(pos),
    )
}

/// The layers that the urban layer reads, in the order in which they are
/// generated.
pub type UrbanDeps<'a> = (
    &'a Layer<WaterType>,
    &'a Layer<TerrainFeature>,
    &'a Layer<Biome>,
    &'a Layer<TerrainDetail>,
    &'a Layer<Flora>,
);

/// The rule of the urban layer.
pub struct UrbanLayerFactory {
    noise_gen: NoiseGenerator,
}

impl UrbanLayerFactory {
    /// The noise that the factory samples.
    pub closed spec fn noise(&self) -> NoiseGenerator {
        self.noise_gen
    }

    /// A factory that samples the given noise.
    pub fn new(noise_gen: NoiseGenerator) -> (factory: Self)
        ensures
            factory.noise() == noise_gen,
    {
        Self { noise_gen }
    }
}

impl<'a> LayerFactory<Urban, UrbanDeps<'a>> for UrbanLayerFactory {
    open spec fn value_at(&self, pos: WorldPosition, deps: &UrbanDeps<'a>) -> Urban {
        urban_at(self.noise(), deps.0, deps.1, deps.2, deps.3, deps.4, pos)
    }

    fn create_value(&self, pos: WorldPosition, deps: &UrbanDeps<'a>) -> (value: Urban) {
        let water_type = deps.0.get(pos);
        let terrain_feature = deps.1.get(pos);
        let biome = deps.2.get(pos);
        let detail = deps.3.get(pos);
        let flora = deps.4.get(pos);
        let value = self.noise_gen.get_urban_value(pos.x, pos.y);
        Urban::from_values(value, water_type, terrain_feature, biome, detail, flora)
    }
}

/// Generates the urban layer of a world at the given scale, over its
/// water, terrain, biome, detail and flora layers.
pub fn generate_urban_layer(
    noise_gen: &NoiseGenerator,
    scale: u32,
    water_layer: &Layer<WaterType>,
    terrain_layer: &Layer<TerrainFeature>,
    biome_layer: &Layer<Biome>,
    detail_layer: &Layer<TerrainDetail>,
    flora_layer: &Layer<Flora>,
) -> (result: Result<Layer<Urban>, ConfigError>)
    ensures
        generation_outcome(
            result,
            scale,
            |pos: WorldPosition| urban_at(
                *noise_gen,
                water_layer,
                terrain_layer,
                biome_layer,
                detail_layer,
                flora_layer,
                pos,
            ),
        ),
{
    let factory = UrbanLayerFactory::new(*noise_gen);
    let result = generate_layer(
        scale,
        (water_layer, terrain_layer, biome_layer, detail_layer, flora_layer),
        factory,
    );
    proof {
        if let Ok(layer) = &result {
            assert(layer@ =~= crate::layer::grid_cells(
                scale,
                |pos: WorldPosition| urban_at(
                    *noise_gen,
                    water_layer,
                    terrain_layer,
                    biome_layer,
                    detail_layer,
                    flora_layer,
                    pos,
                ),
            ));
        }
    }
    result
}

/// In an urban layer that was generated over a water layer, every world
/// position that lies under water holds a port or nothing, provided that
/// the scale of the water layer is a multiple of that of the urban layer.
pub proof fn lemma_urban_is_port_on_water(
    noise: NoiseGenerator,
    water_layer: Layer<WaterType>,
    terrain_layer: Layer<TerrainFeature>,
    biome_layer: Layer<Biome>,
    detail_layer: Layer<TerrainDetail>,
    flora_layer: Layer<Flora>,
    urban_layer: Layer<Urban>,
    pos: WorldPosition,
)
    requires
        water_layer.spec_scale() >= 1,
        water_layer.spec_scale() % urban_layer.spec_scale() == 0,
        urban_layer.is_generated(
            urban_layer.spec_scale(),
            |p: WorldPosition|
                urban_at(
                    noise,
                    &water_layer,
                    &terrain_layer,
                    &biome_layer,
                    &detail_layer,
                    &flora_layer,
                    p,
                ),
        ),
    ensures
        water_layer.value(pos).wet() ==> urban_layer.value(pos) == Urban::Port
            || urban_layer.value(pos) == Urban::Empty,
{
    lemma_generated_value(
        urban_layer,
        |p: WorldPosition|
            urban_at(
                noise,
                &water_layer,
                &terrain_layer,
                &biome_layer,
                &detail_layer,
                &flora_layer,
                p,
            ),
        pos,
    );
    lemma_value_on_finer_cell(water_layer, urban_layer.spec_scale(), pos);
}

} // verus!
