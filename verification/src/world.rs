//! The whole world: the seven layers, generated in the order in which they
//! depend on each other.

use crate::layer::base::NoiseGenerator;
use crate::layer::validate_scale;
use crate::layer::layers::biome::biome_at;
use crate::layer::layers::biome::generate_biome_layer;
use crate::layer::layers::biome::lemma_biome_is_desert_under_water;
use crate::layer::layers::biome::Biome;
use crate::layer::layers::detail::detail_at;
use crate::layer::layers::detail::generate_detail_layer;
use crate::layer::layers::detail::TerrainDetail;
use crate::layer::layers::flora::flora_at;
use crate::layer::layers::flora::generate_flora_layer;
use crate::layer::layers::flora::Flora;
use crate::layer::layers::special::generate_special_layer;
use crate::layer::layers::special::special_at;
use crate::layer::layers::special::Special;
use crate::layer::layers::terrain::generate_terrain_layer;
use crate::layer::layers::terrain::lemma_terrain_is_flat_under_water;
use crate::layer::layers::terrain::terrain_at;
use crate::layer::layers::terrain::TerrainFeature;
use crate::layer::layers::urban::generate_urban_layer;
use crate::layer::layers::urban::lemma_urban_is_port_on_water;
use crate::layer::layers::urban::urban_at;
use crate::layer::layers::urban::Urban;
use crate::layer::layers::water::generate_water_layer;
use crate::layer::layers::water::water_at;
use crate::layer::layers::water::WaterType;
use crate::layer::scale_fault;
use crate::layer::valid_scale;
use crate::layer::ConfigError;
use crate::layer::Layer;
use crate::layer::WorldPosition;
use vstd::prelude::*;

verus! {

/// The seven layers of one world.
pub struct World {
    pub water: Layer<WaterType>,
    pub terrain: Layer<TerrainFeature>,
    pub biome: Layer<Biome>,
    pub detail: Layer<TerrainDetail>,
    pub flora: Layer<Flora>,
    pub urban: Layer<Urban>,
    pub special: Layer<Special>,
}

impl World {
    /// Whether the world is the one that `noise` describes at the given
    /// scales: water, terrain and biome at `base_scale`, detail, flora and
    /// urban at `detail_scale`, special at `special_scale`, each layer
    /// generated by its rule over the layers before it.
    pub open spec fn generated_from(
        &self,
        noise: NoiseGenerator,
        base_scale: u32,
        detail_scale: u32,
        special_scale: u32,
    ) -> bool {
        &&& self.water.is_generated(base_scale, |pos: WorldPosition| water_at(noise, pos))
        &&& self.terrain.is_generated(
            base_scale,
            |pos: WorldPosition| terrain_at(noise, &self.water, pos),
        )
        &&& self.biome.is_generated(
            base_scale,
            |pos: WorldPosition| biome_at(noise, &self.water, &self.terrain, pos),
        )
        &&& self.detail.is_generated(
            detail_scale,
            |pos: WorldPosition| detail_at(noise, &self.water, &self.terrain, &self.biome, pos),
        )
        &&& self.flora.is_generated(
            detail_scale,
            |pos: WorldPosition|
                flora_at(noise, &self.water, &self.terrain, &self.biome, &self.detail, pos),
        )
        &&& self.urban.is_generated(
            detail_scale,
            |pos: WorldPosition|
                urban_at(
                    noise,
                    &self.water,
                    &self.terrain,
                    &self.biome,
                    &self.detail,
                    &self.flora,
                    pos,
                ),
        )
        &&& self.special.is_generated(
            special_scale,
            |pos: WorldPosition|
                special_at(
                    noise,
                    &self.water,
                    &self.terrain,
                    &self.biome,
                    &self.detail,
                    &self.flora,
                    &self.urban,
                    pos,
                ),
        )
    }
}

/// The fault of the first of three scales that no layer can be generated
/// at, if there is one.
pub open spec fn first_fault(base_scale: u32, detail_scale: u32, special_scale: u32) -> Option<
    ConfigError,
> {
    if !valid_scale(base_scale) {
        Some(scale_fault(base_scale))
    } else if !valid_scale(detail_scale) {
        Some(scale_fault(detail_scale))
    } else if !valid_scale(special_scale) {
        Some(scale_fault(special_scale))
    } else {
        None
    }
}

/// Generates the seven layers of the world that `noise_gen` describes, in
/// the order water, terrain, biome, detail, flora, urban, special, so that
/// each layer finds the layers it reads complete. All three scales are
/// tested before the first sample is taken.
pub fn generate_world(
    noise_gen: &NoiseGenerator,
    base_scale: u32,
    detail_scale: u32,
    special_scale: u32,
) -> (result: Result<World, ConfigError>)
    ensures
        match result {
            Ok(world) => {
                &&& first_fault(base_scale, detail_scale, special_scale) is None
                &&& world.generated_from(*noise_gen, base_scale, detail_scale, special_scale)
            },
            Err(error) => first_fault(base_scale, detail_scale, special_scale) == Some(error),
        },
{
    validate_scale(base_scale)?;
    validate_scale(detail_scale)?;
    validate_scale(special_scale)?;
    let water = generate_water_layer(noise_gen, base_scale)?;
    let terrain = generate_terrain_layer(noise_gen, base_scale, &water)?;
    let biome = generate_biome_layer(noise_gen, base_scale, &water, &terrain)?;
    let detail = generate_detail_layer(noise_gen, detail_scale, &water, &terrain, &biome)?;
    let flora = generate_flora_layer(noise_gen, detail_scale, &water, &terrain, &biome, &detail)?;
    let urban = generate_urban_layer(
        noise_gen,
        detail_scale,
        &water,
        &terrain,
        &biome,
        &detail,
        &flora,
    )?;
    let special = generate_special_layer(
        noise_gen,
        special_scale,
        &water,
        &terrain,
        &biome,
        &detail,
        &flora,
        &urban,
    )?;
    Ok(World { water, terrain, biome, detail, flora, urban, special })
}

/// Wherever a generated world holds water, its terrain is plains and its
/// biome is desert. Where the base scale is a multiple of the detail scale,
/// so that no cell of the urban layer reaches across two cells of water,
/// nothing but a port is built there either.
pub proof fn lemma_world_is_consistent(
    world: World,
    noise: NoiseGenerator,
    base_scale: u32,
    detail_scale: u32,
    special_scale: u32,
    pos: WorldPosition,
)
    requires
        world.generated_from(noise, base_scale, detail_scale, special_scale),
        detail_scale >= 1,
    ensures
        world.water.value(pos).wet() ==> world.terrain.value(pos) == TerrainFeature::Plains,
        world.water.value(pos).wet() ==> world.biome.value(pos) == Biome::Desert,
        world.water.value(pos).wet() && base_scale % detail_scale == 0 ==> world.urban.value(pos)
            == Urban::Port || world.urban.value(pos) == Urban::Empty,
{
    lemma_terrain_is_flat_under_water(noise, world.water, world.terrain, pos);
    lemma_biome_is_desert_under_water(noise, world.water, world.terrain, world.biome, pos);
    if base_scale % detail_scale == 0 {
        lemma_urban_is_port_on_water(
            noise,
            world.water,
            world.terrain,
            world.biome,
            world.detail,
            world.flora,
            world.urban,
            pos,
        );
    }
}

} // verus!
