use playground::layer::base::above;
use playground::layer::base::combine;
use playground::layer::base::sample;
use playground::layer::base::NoiseGenerator;
use playground::layer::layers::water::generate_water_layer;
use playground::layer::layers::water::WaterType;
use playground::layer::WorldPosition;
use rand::RngCore;
use rand::SeedableRng;

#[test]
fn golden_sample_at_origin_for_seed_42() {
    assert_eq!(sample(0, 0, 0, 42), 572990626);
    assert_eq!(NoiseGenerator::new(42).get_water_value(0, 0), 572990626);
}

#[test]
fn golden_water_at_origin_for_seed_42() {
    let noise = NoiseGenerator::new(42);
    let layer = generate_water_layer(&noise, 1).unwrap();
    assert_eq!(layer.scale(), 1);
    assert_eq!(layer.get(WorldPosition { x: 0, y: 0 }), WaterType::Empty);
    assert!(layer.render().is_empty());
}

#[test]
fn golden_water_field_for_seed_42() {
    let expected = [
        (0u32, 0u32, 572990626u32, WaterType::Empty),
        (0, 1, 3645361032, WaterType::Ocean),
        (1, 0, 2126386779, WaterType::River),
        (1, 1, 3993091924, WaterType::Ocean),
        (2, 0, 2457230892, WaterType::River),
        (2, 1, 1551388359, WaterType::Swamp),
        (3, 0, 3433208666, WaterType::Lake),
        (3, 1, 1176634035, WaterType::Swamp),
    ];
    for (x, y, value, water) in expected {
        assert_eq!(sample(x, y, 0, 42), value);
        assert_eq!(WaterType::from_value(value), water);
    }
}

#[test]
fn golden_samples_of_every_salt() {
    let expected: [u32; 7] =
        [2858222822, 230993815, 533776729, 918372290, 3438603034, 2171312132, 69637952];
    for salt in 0..7u8 {
        assert_eq!(sample(3, 4, salt, 7), expected[salt as usize]);
    }
}

#[test]
fn sample_is_not_its_key() {
    for seed in [0u64, 1, 42, u64::MAX] {
        let key = combine(0, 0, 0, seed);
        assert_eq!(key, seed);
        assert_ne!(sample(0, 0, 0, seed) as u64, key);
    }
}

#[test]
fn sample_repeats() {
    for x in 0..16u32 {
        for y in 0..16u32 {
            for salt in 0..7u8 {
                assert_eq!(sample(x, y, salt, 99), sample(x, y, salt, 99));
            }
        }
    }
    let one = NoiseGenerator::new(5);
    let other = NoiseGenerator::new(5);
    assert_eq!(one.get_flora_value(10, 20), other.get_flora_value(10, 20));
}

#[test]
fn sample_is_first_output_of_seeded_generator() {
    for (x, y, salt, seed) in [(0u32, 0u32, 0u8, 42u64), (7, 9, 3, 1), (65535, 1, 6, u64::MAX)] {
        let mut rng = rand::rngs::StdRng::seed_from_u64(combine(x, y, salt, seed));
        assert_eq!(sample(x, y, salt, seed), rng.next_u32());
    }
}

#[test]
fn key_folds_salt_and_seed_over_the_scrambled_place() {
    assert_eq!(combine(0, 0, 0, 0), 0);
    assert_eq!(combine(0, 0, 1, 0), 1 << 56);
    assert_eq!(combine(0, 0, 6, 0), 6 << 56);
    assert_eq!(combine(0, 0, 0, 1), 1);
    assert_eq!(combine(0, 0, 0, u64::MAX), u64::MAX);
    assert_eq!(combine(0, 1, 0, 0), 11400714836765684190);
    assert_eq!(combine(1, 0, 0, 0), 2126250766678479462);
    assert_eq!(combine(u32::MAX, u32::MAX, 0, 0), 9274464070254993240);
    assert_eq!(combine(1, 2, 3, 4), 6552993934788279856);
    for (x, y) in [(0u32, 1u32), (1, 0), (77, 1234), (u32::MAX, 5)] {
        let place = combine(x, y, 0, 0);
        assert_eq!(combine(x, y, 3, 0), place ^ (3 << 56));
        assert_eq!(combine(x, y, 0, 99), place ^ 99);
        assert_eq!(combine(x, y, 3, 99), place ^ (3 << 56) ^ 99);
    }
}

#[test]
fn key_scrambles_the_place() {
    let spread: u64 = 0x9E37_79B9_7F4A_7C15;
    for (x, y) in [(0u32, 1u32), (1, 0), (5, 5), (65535, 65536), (u32::MAX, u32::MAX)] {
        let place = ((x as u64) << 32) | y as u64;
        let folded = place ^ (place >> 32);
        let product = folded.wrapping_mul(spread);
        assert_eq!(combine(x, y, 0, 0), product ^ (product >> 29));
    }
    let near = combine(100, 100, 0, 0) ^ combine(100, 101, 0, 0);
    assert!(near.count_ones() >= 16);
    let far = combine(100, 100, 0, 0) ^ combine(101, 100, 0, 0);
    assert!(far.count_ones() >= 16);
}

#[test]
fn no_field_is_another_one_moved_along_x() {
    for salt_a in 0..7u8 {
        for salt_b in 0..7u8 {
            if salt_a == salt_b {
                continue;
            }
            let shift = ((salt_a ^ salt_b) as u32) << 24;
            let mut shared = 0;
            for x in 0..16u32 {
                for y in 0..16u32 {
                    if combine(x, y, salt_a, 42) == combine(x ^ shift, y, salt_b, 42) {
                        shared += 1;
                    }
                }
            }
            assert_eq!(shared, 0);
        }
    }
    assert_ne!(sample(0, 0, 0, 42), sample(16777216, 0, 1, 42));
}

#[test]
fn no_world_is_another_one_moved_along_y() {
    let mut differ = 0;
    for x in 0..16u32 {
        for y in 0..16u32 {
            if sample(x, y, 0, 43) != sample(x, y ^ 1, 0, 42) {
                differ += 1;
            }
        }
    }
    assert!(differ >= 250);
}

#[test]
fn key_tells_places_and_salts_apart() {
    let mut keys = Vec::new();
    for x in 0..8u32 {
        for y in 0..8u32 {
            for salt in 0..7u8 {
                keys.push(combine(x, y, salt, 42));
            }
        }
    }
    let count = keys.len();
    keys.sort();
    keys.dedup();
    assert_eq!(keys.len(), count);
    assert_ne!(combine(1, 2, 0, 42), combine(2, 1, 0, 42));
    assert_ne!(combine(3, 3, 0, 42), combine(0, 0, 0, 42));
}

#[test]
fn salts_give_different_fields() {
    let mut differ = 0;
    let mut total = 0;
    for x in 0..32u32 {
        for y in 0..32u32 {
            for salt in 1..7u8 {
                total += 1;
                if sample(x, y, 0, 42) != sample(x, y, salt, 42) {
                    differ += 1;
                }
            }
        }
    }
    assert!(differ * 100 >= total * 99);
}

#[test]
fn field_is_not_mirrored() {
    let mut differ = 0;
    for x in 0..16u32 {
        for y in 0..x {
            if sample(x, y, 0, 42) != sample(y, x, 0, 42) {
                differ += 1;
            }
        }
    }
    assert!(differ >= 119);
}

#[test]
fn generator_samples_each_layer_with_its_salt() {
    let noise = NoiseGenerator::new(1234);
    for (x, y) in [(0u32, 0u32), (5, 9), (4096, 12), (u32::MAX, u32::MAX)] {
        assert_eq!(noise.get_water_value(x, y), sample(x, y, 0, 1234));
        assert_eq!(noise.get_terrain_value(x, y), sample(x, y, 1, 1234));
        assert_eq!(noise.get_biome_value(x, y), sample(x, y, 2, 1234));
        assert_eq!(noise.get_detail_value(x, y), sample(x, y, 3, 1234));
        assert_eq!(noise.get_flora_value(x, y), sample(x, y, 4, 1234));
        assert_eq!(noise.get_urban_value(x, y), sample(x, y, 5, 1234));
        assert_eq!(noise.get_special_value(x, y), sample(x, y, 6, 1234));
        assert_eq!(noise.get_noise_value(x, y, 200), sample(x, y, 200, 1234));
    }
}

#[test]
fn threshold_is_strict_and_exact() {
    assert!(!above(0, 0));
    assert!(above(1, 0));
    assert!(!above(858993459, 20));
    assert!(above(858993460, 20));
    assert!(!above(2147483647, 50));
    assert!(above(2147483648, 50));
    assert!(!above(3435973836, 80));
    assert!(above(3435973837, 80));
    assert!(!above(4080218930, 95));
    assert!(above(4080218931, 95));
    assert!(!above(u32::MAX, 100));
    assert!(above(u32::MAX, 99));
    assert!(!above(u32::MAX, 255));
}

#[test]
fn threshold_agrees_with_division_in_floating_point() {
    let cuts: [(u8, f64); 13] = [
        (20, 0.2),
        (30, 0.3),
        (40, 0.4),
        (50, 0.5),
        (60, 0.6),
        (70, 0.7),
        (80, 0.8),
        (85, 0.85),
        (90, 0.9),
        (95, 0.95),
        (0, 0.0),
        (100, 1.0),
        (10, 0.1),
    ];
    for (percent, fraction) in cuts {
        let edge = (percent as u64 * u32::MAX as u64 / 100) as u32;
        let mut values = vec![0u32, 1, u32::MAX - 1, u32::MAX, edge];
        for step in 1..4u32 {
            values.push(edge.saturating_sub(step));
            values.push(edge.saturating_add(step));
        }
        for index in 0..200u32 {
            values.push(sample(index, percent as u32, 0, 3));
        }
        for value in values {
            let normalized = value as f64 / u32::MAX as f64;
            assert_eq!(above(value, percent), normalized > fraction);
        }
    }
}
