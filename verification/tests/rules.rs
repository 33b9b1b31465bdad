use playground::layer::layers::biome::Biome;
use playground::layer::layers::detail::TerrainDetail;
use playground::layer::layers::flora::Flora;
use playground::layer::layers::special::Special;
use playground::layer::layers::terrain::TerrainFeature;
use playground::layer::layers::urban::Urban;
use playground::layer::layers::water::WaterType;
use playground::layer::tint::Tint;
use playground::layer::LayerValue;

/// The largest raw sample that is not above `percent` hundredths.
fn up_to(percent: u64) -> u32 {
    (percent * u32::MAX as u64 / 100) as u32
}

/// The smallest raw sample that is above `percent` hundredths.
fn over(percent: u64) -> u32 {
    up_to(percent) + 1
}

const WATERS: [WaterType; 5] =
    [WaterType::Empty, WaterType::Ocean, WaterType::Lake, WaterType::River, WaterType::Swamp];

const WET: [WaterType; 4] =
    [WaterType::Ocean, WaterType::Lake, WaterType::River, WaterType::Swamp];

const TERRAINS: [TerrainFeature; 5] = [
    TerrainFeature::Plains,
    TerrainFeature::Mountain,
    TerrainFeature::Valley,
    TerrainFeature::Canyon,
    TerrainFeature::Cliff,
];

const BIOMES: [Biome; 6] =
    [Biome::Desert, Biome::Grassland, Biome::Forest, Biome::Jungle, Biome::Tundra, Biome::Snow];

const DETAILS: [TerrainDetail; 6] = [
    TerrainDetail::Empty,
    TerrainDetail::Rock,
    TerrainDetail::Sand,
    TerrainDetail::Mud,
    TerrainDetail::Snow,
    TerrainDetail::Ice,
];

const FLORAS: [Flora; 8] = [
    Flora::Empty,
    Flora::Tree,
    Flora::Palm,
    Flora::Cactus,
    Flora::Bush,
    Flora::Flower,
    Flora::Mushroom,
    Flora::Seaweed,
];

const URBANS: [Urban; 8] = [
    Urban::Empty,
    Urban::House,
    Urban::Farm,
    Urban::City,
    Urban::Port,
    Urban::Mine,
    Urban::Temple,
    Urban::Ruin,
];

/// Raw samples spread over the whole range, the cut-offs included.
fn sweep() -> Vec<u32> {
    let mut values = vec![0, 1, u32::MAX - 1, u32::MAX];
    for percent in 0..=100u64 {
        values.push(up_to(percent));
        if percent < 100 {
            values.push(over(percent));
        }
    }
    values
}

#[test]
fn edge_samples_are_exact() {
    assert_eq!(up_to(20), 858993459);
    assert_eq!(up_to(40), 1717986918);
    assert_eq!(up_to(60), 2576980377);
    assert_eq!(up_to(80), 3435973836);
    assert_eq!(over(50), 2147483648);
    assert_eq!(over(95), 4080218931);
    assert_eq!(up_to(100), u32::MAX);
}

#[test]
fn water_from_value_cutoffs() {
    assert_eq!(WaterType::from_value(0), WaterType::Empty);
    assert_eq!(WaterType::from_value(up_to(20)), WaterType::Empty);
    assert_eq!(WaterType::from_value(over(20)), WaterType::Swamp);
    assert_eq!(WaterType::from_value(up_to(40)), WaterType::Swamp);
    assert_eq!(WaterType::from_value(over(40)), WaterType::River);
    assert_eq!(WaterType::from_value(up_to(60)), WaterType::River);
    assert_eq!(WaterType::from_value(over(60)), WaterType::Lake);
    assert_eq!(WaterType::from_value(up_to(80)), WaterType::Lake);
    assert_eq!(WaterType::from_value(over(80)), WaterType::Ocean);
    assert_eq!(WaterType::from_value(u32::MAX), WaterType::Ocean);
}

#[test]
fn water_is_water_unless_empty() {
    assert!(!WaterType::Empty.is_water());
    for water in WET {
        assert!(water.is_water());
    }
}

#[test]
fn water_gets_no_drier_as_the_sample_rises() {
    fn rank(water: WaterType) -> u8 {
        match water {
            WaterType::Empty => 0,
            WaterType::Swamp => 1,
            WaterType::River => 2,
            WaterType::Lake => 3,
            WaterType::Ocean => 4,
        }
    }
    let mut values = sweep();
    values.sort();
    let mut last = 0;
    for value in values {
        let now = rank(WaterType::from_value(value));
        assert!(now >= last);
        last = now;
    }
    assert_eq!(last, 4);
}

#[test]
fn terrain_from_values_cutoffs() {
    let dry = WaterType::Empty;
    assert_eq!(TerrainFeature::from_values(0, dry), TerrainFeature::Canyon);
    assert_eq!(TerrainFeature::from_values(up_to(20), dry), TerrainFeature::Canyon);
    assert_eq!(TerrainFeature::from_values(over(20), dry), TerrainFeature::Valley);
    assert_eq!(TerrainFeature::from_values(up_to(40), dry), TerrainFeature::Valley);
    assert_eq!(TerrainFeature::from_values(over(40), dry), TerrainFeature::Plains);
    assert_eq!(TerrainFeature::from_values(up_to(60), dry), TerrainFeature::Plains);
    assert_eq!(TerrainFeature::from_values(over(60), dry), TerrainFeature::Cliff);
    assert_eq!(TerrainFeature::from_values(up_to(80), dry), TerrainFeature::Cliff);
    assert_eq!(TerrainFeature::from_values(over(80), dry), TerrainFeature::Mountain);
    assert_eq!(TerrainFeature::from_values(u32::MAX, dry), TerrainFeature::Mountain);
}

#[test]
fn terrain_is_plains_under_the_ocean_for_all_noise() {
    for value in sweep() {
        assert_eq!(TerrainFeature::from_values(value, WaterType::Ocean), TerrainFeature::Plains);
    }
}

#[test]
fn terrain_is_plains_under_any_water() {
    for water in WET {
        for value in sweep() {
            assert_eq!(TerrainFeature::from_values(value, water), TerrainFeature::Plains);
        }
    }
}

#[test]
fn biome_from_values_cutoffs() {
    let dry = WaterType::Empty;
    let mountain = TerrainFeature::Mountain;
    assert_eq!(Biome::from_values(up_to(50), dry, mountain), Biome::Tundra);
    assert_eq!(Biome::from_values(over(50), dry, mountain), Biome::Snow);
    let plains = TerrainFeature::Plains;
    assert_eq!(Biome::from_values(0, dry, plains), Biome::Forest);
    assert_eq!(Biome::from_values(up_to(40), dry, plains), Biome::Forest);
    assert_eq!(Biome::from_values(over(40), dry, plains), Biome::Grassland);
    assert_eq!(Biome::from_values(up_to(70), dry, plains), Biome::Grassland);
    assert_eq!(Biome::from_values(over(70), dry, plains), Biome::Desert);
    for other in [TerrainFeature::Valley, TerrainFeature::Canyon, TerrainFeature::Cliff] {
        assert_eq!(Biome::from_values(0, dry, other), Biome::Grassland);
        assert_eq!(Biome::from_values(up_to(30), dry, other), Biome::Grassland);
        assert_eq!(Biome::from_values(over(30), dry, other), Biome::Forest);
        assert_eq!(Biome::from_values(up_to(60), dry, other), Biome::Forest);
        assert_eq!(Biome::from_values(over(60), dry, other), Biome::Jungle);
    }
}

#[test]
fn biome_is_desert_under_any_water() {
    for water in WET {
        for terrain in TERRAINS {
            for value in sweep() {
                assert_eq!(Biome::from_values(value, water, terrain), Biome::Desert);
            }
        }
    }
}

#[test]
fn detail_from_values_cutoffs() {
    let dry = WaterType::Empty;
    for terrain in TERRAINS {
        for water in WET {
            for biome in BIOMES {
                assert_eq!(
                    TerrainDetail::from_values(up_to(70), water, terrain, biome),
                    TerrainDetail::Empty
                );
                assert_eq!(
                    TerrainDetail::from_values(over(70), water, terrain, biome),
                    TerrainDetail::Ice
                );
            }
        }
        assert_eq!(
            TerrainDetail::from_values(up_to(60), dry, terrain, Biome::Desert),
            TerrainDetail::Empty
        );
        assert_eq!(
            TerrainDetail::from_values(over(60), dry, terrain, Biome::Desert),
            TerrainDetail::Sand
        );
        for cold in [Biome::Tundra, Biome::Snow] {
            assert_eq!(
                TerrainDetail::from_values(up_to(30), dry, terrain, cold),
                TerrainDetail::Empty
            );
            assert_eq!(
                TerrainDetail::from_values(over(30), dry, terrain, cold),
                TerrainDetail::Rock
            );
            assert_eq!(
                TerrainDetail::from_values(up_to(60), dry, terrain, cold),
                TerrainDetail::Rock
            );
            assert_eq!(
                TerrainDetail::from_values(over(60), dry, terrain, cold),
                TerrainDetail::Snow
            );
        }
        for other in [Biome::Grassland, Biome::Forest, Biome::Jungle] {
            assert_eq!(
                TerrainDetail::from_values(up_to(50), dry, terrain, other),
                TerrainDetail::Empty
            );
            assert_eq!(
                TerrainDetail::from_values(over(50), dry, terrain, other),
                TerrainDetail::Mud
            );
            assert_eq!(
                TerrainDetail::from_values(up_to(70), dry, terrain, other),
                TerrainDetail::Mud
            );
            assert_eq!(
                TerrainDetail::from_values(over(70), dry, terrain, other),
                TerrainDetail::Rock
            );
        }
    }
}

#[test]
fn flora_from_values_on_water() {
    let terrain = TerrainFeature::Plains;
    let detail = TerrainDetail::Empty;
    for biome in BIOMES {
        assert_eq!(
            Flora::from_values(up_to(70), WaterType::Ocean, terrain, biome, detail),
            Flora::Empty
        );
        assert_eq!(
            Flora::from_values(over(70), WaterType::Ocean, terrain, biome, detail),
            Flora::Seaweed
        );
        for water in [WaterType::Lake, WaterType::River, WaterType::Swamp] {
            for value in sweep() {
                assert_eq!(Flora::from_values(value, water, terrain, biome, detail), Flora::Empty);
            }
        }
    }
}

#[test]
fn flora_from_values_on_land() {
    let dry = WaterType::Empty;
    for terrain in TERRAINS {
        for detail in DETAILS {
            let grow = |value: u32, biome: Biome| {
                Flora::from_values(value, dry, terrain, biome, detail)
            };
            assert_eq!(grow(up_to(60), Biome::Desert), Flora::Empty);
            assert_eq!(grow(over(60), Biome::Desert), Flora::Bush);
            assert_eq!(grow(up_to(80), Biome::Desert), Flora::Bush);
            assert_eq!(grow(over(80), Biome::Desert), Flora::Cactus);

            assert_eq!(grow(up_to(40), Biome::Forest), Flora::Empty);
            assert_eq!(grow(over(40), Biome::Forest), Flora::Flower);
            assert_eq!(grow(up_to(60), Biome::Forest), Flora::Flower);
            assert_eq!(grow(over(60), Biome::Forest), Flora::Bush);
            assert_eq!(grow(up_to(80), Biome::Forest), Flora::Bush);
            assert_eq!(grow(over(80), Biome::Forest), Flora::Tree);

            assert_eq!(grow(up_to(30), Biome::Jungle), Flora::Empty);
            assert_eq!(grow(over(30), Biome::Jungle), Flora::Flower);
            assert_eq!(grow(up_to(50), Biome::Jungle), Flora::Flower);
            assert_eq!(grow(over(50), Biome::Jungle), Flora::Bush);
            assert_eq!(grow(up_to(70), Biome::Jungle), Flora::Bush);
            assert_eq!(grow(over(70), Biome::Jungle), Flora::Tree);

            assert_eq!(grow(up_to(60), Biome::Tundra), Flora::Empty);
            assert_eq!(grow(over(60), Biome::Tundra), Flora::Flower);
            assert_eq!(grow(up_to(80), Biome::Tundra), Flora::Flower);
            assert_eq!(grow(over(80), Biome::Tundra), Flora::Bush);

            for other in [Biome::Grassland, Biome::Snow] {
                assert_eq!(grow(up_to(40), other), Flora::Empty);
                assert_eq!(grow(over(40), other), Flora::Flower);
                assert_eq!(grow(up_to(60), other), Flora::Flower);
                assert_eq!(grow(over(60), other), Flora::Bush);
                assert_eq!(grow(up_to(80), other), Flora::Bush);
                assert_eq!(grow(over(80), other), Flora::Tree);
            }
        }
    }
}

#[test]
fn urban_from_values_cutoffs() {
    let dry = WaterType::Empty;
    let biome = Biome::Grassland;
    let detail = TerrainDetail::Empty;
    let flora = Flora::Empty;
    let build = |value: u32, water: WaterType, terrain: TerrainFeature| {
        Urban::from_values(value, water, terrain, biome, detail, flora)
    };
    assert_eq!(build(up_to(70), dry, TerrainFeature::Mountain), Urban::Empty);
    assert_eq!(build(over(70), dry, TerrainFeature::Mountain), Urban::Mine);
    assert_eq!(build(up_to(50), dry, TerrainFeature::Plains), Urban::Empty);
    assert_eq!(build(over(50), dry, TerrainFeature::Plains), Urban::House);
    assert_eq!(build(up_to(70), dry, TerrainFeature::Plains), Urban::House);
    assert_eq!(build(over(70), dry, TerrainFeature::Plains), Urban::Farm);
    assert_eq!(build(up_to(90), dry, TerrainFeature::Plains), Urban::Farm);
    assert_eq!(build(over(90), dry, TerrainFeature::Plains), Urban::City);
    for other in [TerrainFeature::Valley, TerrainFeature::Canyon, TerrainFeature::Cliff] {
        for value in sweep() {
            assert_eq!(build(value, dry, other), Urban::Empty);
        }
    }
    for water in WET {
        for terrain in TERRAINS {
            assert_eq!(build(up_to(80), water, terrain), Urban::Empty);
            assert_eq!(build(over(80), water, terrain), Urban::Port);
        }
    }
}

#[test]
fn urban_on_water_is_port_or_nothing() {
    for water in WET {
        for terrain in TERRAINS {
            for biome in BIOMES {
                for value in sweep() {
                    let urban = Urban::from_values(
                        value,
                        water,
                        terrain,
                        biome,
                        TerrainDetail::Rock,
                        Flora::Bush,
                    );
                    assert!(urban == Urban::Port || urban == Urban::Empty);
                }
            }
        }
    }
}

#[test]
fn special_from_values_cutoffs() {
    let biome = Biome::Forest;
    let detail = TerrainDetail::Mud;
    let flora = Flora::Tree;
    let find = |value: u32, water: WaterType, terrain: TerrainFeature, urban: Urban| {
        Special::from_values(value, water, terrain, biome, detail, flora, urban)
    };
    for water in WATERS {
        for terrain in TERRAINS {
            for urban in URBANS {
                assert_eq!(find(0, water, terrain, urban), Special::Empty);
                assert_eq!(find(up_to(85), water, terrain, urban), Special::Empty);
                assert_eq!(find(over(85), water, terrain, urban), Special::Dungeon);
                assert_eq!(find(up_to(90), water, terrain, urban), Special::Dungeon);
                let relic = match urban {
                    Urban::Temple => Special::Temple,
                    Urban::Ruin => Special::Ruins,
                    _ => Special::Portal,
                };
                assert_eq!(find(over(90), water, terrain, urban), relic);
                assert_eq!(find(up_to(95), water, terrain, urban), relic);
                let wonder = if terrain == TerrainFeature::Mountain {
                    Special::Volcano
                } else if water != WaterType::Empty {
                    Special::Geyser
                } else {
                    Special::Crystal
                };
                assert_eq!(find(over(95), water, terrain, urban), wonder);
                assert_eq!(find(u32::MAX, water, terrain, urban), wonder);
            }
        }
    }
}

#[test]
fn unread_layers_do_not_change_the_value() {
    for value in sweep() {
        for terrain in TERRAINS {
            assert_eq!(
                TerrainDetail::from_values(value, WaterType::Empty, terrain, Biome::Forest),
                TerrainDetail::from_values(
                    value,
                    WaterType::Empty,
                    TerrainFeature::Plains,
                    Biome::Forest
                )
            );
        }
        for flora in FLORAS {
            for detail in DETAILS {
                assert_eq!(
                    Urban::from_values(
                        value,
                        WaterType::Empty,
                        TerrainFeature::Plains,
                        Biome::Snow,
                        detail,
                        flora
                    ),
                    Urban::from_values(
                        value,
                        WaterType::Empty,
                        TerrainFeature::Plains,
                        Biome::Desert,
                        TerrainDetail::Empty,
                        Flora::Empty
                    )
                );
            }
        }
    }
}

#[test]
fn defaults_are_the_empty_variants() {
    assert_eq!(WaterType::default(), WaterType::Empty);
    assert_eq!(TerrainFeature::default(), TerrainFeature::Plains);
    assert_eq!(Biome::default(), Biome::Desert);
    assert_eq!(TerrainDetail::default(), TerrainDetail::Empty);
    assert_eq!(Flora::default(), Flora::Empty);
    assert_eq!(Urban::default(), Urban::Empty);
    assert_eq!(Special::default(), Special::Empty);
    assert_eq!(<WaterType as LayerValue>::empty(), WaterType::Empty);
    assert_eq!(<TerrainFeature as LayerValue>::empty(), TerrainFeature::Plains);
    assert_eq!(<Biome as LayerValue>::empty(), Biome::Desert);
    assert_eq!(<TerrainDetail as LayerValue>::empty(), TerrainDetail::Empty);
    assert_eq!(<Flora as LayerValue>::empty(), Flora::Empty);
    assert_eq!(<Urban as LayerValue>::empty(), Urban::Empty);
    assert_eq!(<Special as LayerValue>::empty(), Special::Empty);
}

#[test]
fn only_the_default_is_default() {
    for water in WATERS {
        assert_eq!(water.is_default(), water == WaterType::Empty);
    }
    for terrain in TERRAINS {
        assert_eq!(terrain.is_default(), terrain == TerrainFeature::Plains);
    }
    for biome in BIOMES {
        assert_eq!(biome.is_default(), biome == Biome::Desert);
    }
    for detail in DETAILS {
        assert_eq!(detail.is_default(), detail == TerrainDetail::Empty);
    }
    for flora in FLORAS {
        assert_eq!(flora.is_default(), flora == Flora::Empty);
    }
    for urban in URBANS {
        assert_eq!(urban.is_default(), urban == Urban::Empty);
    }
}

fn solid(red: u8, green: u8, blue: u8) -> Tint {
    Tint { red, green, blue, alpha: 10 }
}

const CLEAR: Tint = Tint { red: 0, green: 0, blue: 0, alpha: 0 };

#[test]
fn tint_constructors() {
    assert_eq!(Tint::none(), CLEAR);
    assert!(Tint::none().is_transparent());
    assert_eq!(Tint::srgb(1, 2, 3), solid(1, 2, 3));
    assert!(!Tint::srgb(0, 0, 0).is_transparent());
}

#[test]
fn water_colors() {
    assert_eq!(WaterType::Empty.get_color(), CLEAR);
    assert_eq!(WaterType::Ocean.get_color(), solid(0, 2, 8));
    assert_eq!(WaterType::Lake.get_color(), solid(0, 4, 8));
    assert_eq!(WaterType::River.get_color(), solid(0, 6, 8));
    assert_eq!(WaterType::Swamp.get_color(), solid(0, 5, 3));
}

#[test]
fn terrain_colors() {
    assert_eq!(TerrainFeature::Plains.get_color(), solid(5, 5, 5));
    assert_eq!(TerrainFeature::Mountain.get_color(), solid(7, 7, 7));
    assert_eq!(TerrainFeature::Valley.get_color(), solid(3, 3, 3));
    assert_eq!(TerrainFeature::Canyon.get_color(), solid(2, 2, 2));
    assert_eq!(TerrainFeature::Cliff.get_color(), solid(6, 6, 6));
}

#[test]
fn biome_colors() {
    assert_eq!(Biome::Desert.get_color(), solid(9, 8, 3));
    assert_eq!(Biome::Grassland.get_color(), solid(4, 8, 2));
    assert_eq!(Biome::Forest.get_color(), solid(2, 6, 1));
    assert_eq!(Biome::Jungle.get_color(), solid(1, 5, 1));
    assert_eq!(Biome::Tundra.get_color(), solid(8, 8, 8));
    assert_eq!(Biome::Snow.get_color(), solid(10, 10, 10));
}

#[test]
fn detail_colors() {
    assert_eq!(TerrainDetail::Empty.get_color(), CLEAR);
    assert_eq!(TerrainDetail::Rock.get_color(), solid(5, 5, 5));
    assert_eq!(TerrainDetail::Sand.get_color(), solid(9, 8, 3));
    assert_eq!(TerrainDetail::Mud.get_color(), solid(4, 3, 2));
    assert_eq!(TerrainDetail::Snow.get_color(), solid(10, 10, 10));
    assert_eq!(TerrainDetail::Ice.get_color(), solid(8, 9, 10));
}

#[test]
fn flora_colors() {
    assert_eq!(Flora::Empty.get_color(), CLEAR);
    assert_eq!(Flora::Tree.get_color(), solid(2, 5, 2));
    assert_eq!(Flora::Palm.get_color(), solid(3, 6, 3));
    assert_eq!(Flora::Cactus.get_color(), solid(3, 7, 3));
    assert_eq!(Flora::Bush.get_color(), solid(3, 6, 3));
    assert_eq!(Flora::Flower.get_color(), solid(8, 4, 8));
    assert_eq!(Flora::Mushroom.get_color(), solid(7, 7, 7));
    assert_eq!(Flora::Seaweed.get_color(), solid(2, 4, 2));
}

#[test]
fn urban_colors() {
    assert_eq!(Urban::Empty.get_color(), CLEAR);
    assert_eq!(Urban::House.get_color(), solid(7, 7, 7));
    assert_eq!(Urban::Farm.get_color(), solid(8, 8, 6));
    assert_eq!(Urban::City.get_color(), solid(5, 5, 5));
    assert_eq!(Urban::Port.get_color(), solid(6, 6, 8));
    assert_eq!(Urban::Mine.get_color(), solid(4, 4, 4));
    assert_eq!(Urban::Temple.get_color(), solid(8, 8, 4));
    assert_eq!(Urban::Ruin.get_color(), solid(6, 6, 6));
}

#[test]
fn special_colors() {
    assert_eq!(Special::Empty.get_color(), CLEAR);
    assert_eq!(Special::Volcano.get_color(), solid(8, 2, 0));
    assert_eq!(Special::Geyser.get_color(), solid(0, 8, 8));
    assert_eq!(Special::Crystal.get_color(), solid(8, 8, 10));
    assert_eq!(Special::Portal.get_color(), solid(8, 0, 8));
    assert_eq!(Special::Ruins.get_color(), solid(6, 6, 6));
    assert_eq!(Special::Temple.get_color(), solid(8, 8, 6));
    assert_eq!(Special::Dungeon.get_color(), solid(4, 4, 4));
}
