//! The noise sampler: one reproducible pseudo-random value for each
//! combination of world coordinates, salt and seed.

use rand::Rng;
use rand::SeedableRng;
use vstd::prelude::*;

verus! {

/// Salt of the water layer's noise field.
pub const WATER_SALT: u8 = 0;

/// Salt of the terrain layer's noise field.
pub const TERRAIN_SALT: u8 = 1;

/// Salt of the biome layer's noise field.
pub const BIOME_SALT: u8 = 2;

/// Salt of the detail layer's noise field.
pub const DETAIL_SALT: u8 = 3;

/// Salt of the flora layer's noise field.
pub const FLORA_SALT: u8 = 4;

/// Salt of the urban layer's noise field.
pub const URBAN_SALT: u8 = 5;

/// Salt of the special layer's noise field.
pub const SPECIAL_SALT: u8 = 6;

/// The first 32-bit output of `rand`'s standard generator after it has been
/// seeded with `key` through `seed_from_u64`.
pub uninterp spec fn seeded_draw(key: u64) -> u32;

/// The odd multiplier of the scramble: two to the power of 64, divided by
/// the golden ratio.
pub const SCRAMBLER: u64 = 0x9E37_79B9_7F4A_7C15;

/// The two coordinates of a place side by side, `x` in the upper half and
/// `y` in the lower.
pub open spec fn packed(x: u32, y: u32) -> u64 {
    ((x as u64) << 32) | (y as u64)
}

/// The scramble of a packed place: the upper half is folded onto the lower,
/// the result is multiplied by the odd multiplier modulo two to the power
/// of 64, and the upper bits of the product are folded down. Each of the
/// three steps can be undone, so no two places scramble alike; the carries
/// of the product tie every bit of the result to many bits of the place.
pub open spec fn scramble(place: u64) -> u64 {
    let folded = place ^ (place >> 32);
    let spread = ((folded * SCRAMBLER) % 0x1_0000_0000_0000_0000) as u64;
    spread ^ (spread >> 29)
}

/// The generator key of a sample: the scrambled place, folded by exclusive
/// or with the salt in the top byte and with the seed.
pub open spec fn noise_key(x: u32, y: u32, salt: u8, seed: u64) -> u64 {
    scramble(packed(x, y)) ^ ((salt as u64) << 56) ^ seed
}

/// The noise value at world coordinates `(x, y)` for `salt` and `seed`.
pub open spec fn noise_value(x: u32, y: u32, salt: u8, seed: u64) -> u32 {
    seeded_draw(noise_key(x, y, salt, seed))
}

/// Whether a raw sample, read as the fraction `value / u32::MAX` of the
/// unit interval, lies strictly above `percent / 100`. The largest sample
/// stands for the whole, which lies above every cut-off below it.
pub open spec fn exceeds(value: u32, percent: int) -> bool {
    value * 100 > percent * u32::MAX
}

/// Calls `StdRng::seed_from_u64(key)` of `rand` and draws one `u32` from the
/// fresh generator with `Rng::gen`. The generator is built from the key
/// alone and shares no state with any other, so the value drawn is a
/// function of the key; the contract gives that function its name and
/// claims nothing else of it.
#[verifier::external_body]
fn draw_seeded(key: u64) -> (value: u32)
    ensures
        value == seeded_draw(key),
{
    let mut rng = rand::rngs::StdRng::seed_from_u64(key);
    rng.gen()
}

/// Scrambles a packed place.
fn scrambled(place: u64) -> (mixed: u64)
    ensures
        mixed == scramble(place),
{
    let folded: u64 = place ^ (place >> 32);
    assert(folded * SCRAMBLER <= 0xffff_ffff_ffff_ffff * 0xffff_ffff_ffff_ffff)
        by (nonlinear_arith)
        requires
            0 <= folded <= 0xffff_ffff_ffff_ffff,
            0 <= SCRAMBLER <= 0xffff_ffff_ffff_ffff,
    ;
    let product: u128 = (folded as u128) * (SCRAMBLER as u128);
    let spread: u64 = (product % 0x1_0000_0000_0000_0000u128) as u64;
    spread ^ (spread >> 29)
}

/// Computes the generator key of a sample.
pub fn combine(x: u32, y: u32, salt: u8, seed: u64) -> (key: u64)
    ensures
        key == noise_key(x, y, salt, seed),
{
    let place: u64 = ((x as u64) << 32) | (y as u64);
    let salted: u64 = (salt as u64) << 56;
    scrambled(place) ^ salted ^ seed
}

/// Samples the noise field `salt` of the world `seed` at world coordinates
/// `(x, y)`. The result depends on the four arguments and on nothing else.
///
/// Within one world, two samples that differ in the place alone, or in the
/// salt alone, are drawn under different keys. A place and a salt together
/// hold more bits than a key, so somewhere two samples that differ in both
/// must share a key. Which ones do is decided by the scramble; no contract
/// says where they lie.
pub fn sample(x: u32, y: u32, salt: u8, seed: u64) -> (value: u32)
    ensures
        value == noise_value(x, y, salt, seed),
{
    draw_seeded(combine(x, y, salt, seed))
}

/// Tests a raw sample against a threshold given in hundredths.
pub fn above(value: u32, percent: u8) -> (result: bool)
    ensures
        result == exceeds(value, percent as int),
{
    (value as u64) * 100 > (percent as u64) * (u32::MAX as u64)
}

/// The source of every noise field of one world. It holds the world's seed
/// and no other state, so it can be copied freely and sampled in any order.
#[derive(Clone, Copy, Debug)]
pub struct NoiseGenerator {
    seed: u64,
}

impl NoiseGenerator {
    /// The seed that the generator was made with.
    pub closed spec fn seed_value(&self) -> u64 {
        self.seed
    }

    /// The value of the noise field `salt` of this world at `(x, y)`.
    pub open spec fn field(&self, x: u32, y: u32, salt: u8) -> u32 {
        noise_value(x, y, salt, self.seed_value())
    }

    /// The generator of the world with the given seed.
    pub fn new(seed: u64) -> (generator: Self)
        ensures
            generator.seed_value() == seed,
    {
        Self { seed }
    }

    /// Samples the noise field of the water layer at `(x, y)`.
    pub fn get_water_value(&self, x: u32, y: u32) -> (value: u32)
        ensures
            value == self.field(x, y, WATER_SALT),
    {
        self.get_noise_value(x, y, WATER_SALT)
    }

    /// Samples the noise field of the terrain layer at `(x, y)`.
    pub fn get_terrain_value(&self, x: u32, y: u32) -> (value: u32)
        ensures
            value == self.field(x, y, TERRAIN_SALT),
    {
        self.get_noise_value(x, y, TERRAIN_SALT)
    }

    /// Samples the noise field of the biome layer at `(x, y)`.
    pub fn get_biome_value(&self, x: u32, y: u32) -> (value: u32)
        ensures
            value == self.field(x, y, BIOME_SALT),
    {
        self.get_noise_value(x, y, BIOME_SALT)
    }

    /// Samples the noise field of the detail layer at `(x, y)`.
    pub fn get_detail_value(&self, x: u32, y: u32) -> (value: u32)
        ensures
            value == self.field(x, y, DETAIL_SALT),
    {
        self.get_noise_value(x, y, DETAIL_SALT)
    }

    /// Samples the noise field of the flora layer at `(x, y)`.
    pub fn get_flora_value(&self, x: u32, y: u32) -> (value: u32)
        ensures
            value == self.field(x, y, FLORA_SALT),
    {
        self.get_noise_value(x, y, FLORA_SALT)
    }

    /// Samples the noise field of the urban layer at `(x, y)`.
    pub fn get_urban_value(&self, x: u32, y: u32) -> (value: u32)
        ensures
            value == self.field(x, y, URBAN_SALT),
    {
        self.get_noise_value(x, y, URBAN_SALT)
    }

    /// Samples the noise field of the special layer at `(x, y)`.
    pub fn get_special_value(&self, x: u32, y: u32) -> (value: u32)
        ensures
            value == self.field(x, y, SPECIAL_SALT),
    {
        self.get_noise_value(x, y, SPECIAL_SALT)
    }

    /// Samples the noise field `layer` of this world at `(x, y)`.
    pub fn get_noise_value(&self, x: u32, y: u32, layer: u8) -> (value: u32)
        ensures
            value == self.field(x, y, layer),
    {
        sample(x, y, layer, self.seed)
    }
}

/// The multiplication of the scramble can be undone: multiplying the
/// product by the inverse of the multiplier, again modulo two to the power
/// of 64, gives the factor back.
proof fn lemma_product_leads_back(factor: u64)
    ensures
        ((((factor * SCRAMBLER) % 0x1_0000_0000_0000_0000) * 0xF1DE_83E1_9937_733D)
            % 0x1_0000_0000_0000_0000) == factor,
{
    let f = factor as int;
    let c = SCRAMBLER as int;
    let d = 0xF1DE_83E1_9937_733D as int;
    let m = 0x1_0000_0000_0000_0000 as int;
    let q = 0x957B_BF35_006E_D677 as int;
    let u = (f * c) % m;
    let k = (f * c) / m;
    assert(c * d == q * m + 1);
    vstd::arithmetic::div_mod::lemma_fundamental_div_mod(f * c, m);
    assert(u * d == (f * q - k * d) * m + f) by (nonlinear_arith)
        requires
            f * c == m * k + u,
            c * d == q * m + 1,
    ;
    vstd::arithmetic::div_mod::lemma_fundamental_div_mod_converse(u * d, m, f * q - k * d, f);
}

/// No two places scramble alike.
pub proof fn lemma_scramble_is_injective(one: u64, other: u64)
    requires
        scramble(one) == scramble(other),
    ensures
        one == other,
{
    let folded_one = one ^ (one >> 32);
    let folded_other = other ^ (other >> 32);
    let spread_one = ((folded_one * SCRAMBLER) % 0x1_0000_0000_0000_0000) as u64;
    let spread_other = ((folded_other * SCRAMBLER) % 0x1_0000_0000_0000_0000) as u64;
    assert(spread_one == spread_other) by (bit_vector)
        requires
            spread_one ^ (spread_one >> 29) == spread_other ^ (spread_other >> 29),
    ;
    lemma_product_leads_back(folded_one);
    lemma_product_leads_back(folded_other);
    assert(folded_one == folded_other);
    assert(one == other) by (bit_vector)
        requires
            one ^ (one >> 32) == other ^ (other >> 32),
    ;
}

/// Two samples taken at the same place of the same world under different
/// salts never share a generator key.
pub proof fn lemma_salts_have_distinct_keys(x: u32, y: u32, seed: u64, salt_a: u8, salt_b: u8)
    requires
        salt_a != salt_b,
    ensures
        noise_key(x, y, salt_a, seed) != noise_key(x, y, salt_b, seed),
{
    let place = scramble(packed(x, y));
    assert(place ^ ((salt_a as u64) << 56) ^ seed != place ^ ((salt_b as u64) << 56) ^ seed)
        by (bit_vector)
        requires
            salt_a != salt_b,
    ;
}

/// Within one noise field of one world, two different places never share a
/// generator key: no two places of a field are tied to the same draw.
pub proof fn lemma_places_have_distinct_keys(
    xa: u32,
    ya: u32,
    xb: u32,
    yb: u32,
    salt: u8,
    seed: u64,
)
    requires
        xa != xb || ya != yb,
    ensures
        noise_key(xa, ya, salt, seed) != noise_key(xb, yb, salt, seed),
{
    let place_a = packed(xa, ya);
    let place_b = packed(xb, yb);
    assert(place_a != place_b) by (bit_vector)
        requires
            xa != xb || ya != yb,
            place_a == ((xa as u64) << 32) | (ya as u64),
            place_b == ((xb as u64) << 32) | (yb as u64),
    ;
    if scramble(place_a) == scramble(place_b) {
        lemma_scramble_is_injective(place_a, place_b);
    }
    let mixed_a = scramble(place_a);
    let mixed_b = scramble(place_b);
    assert(mixed_a ^ ((salt as u64) << 56) ^ seed != mixed_b ^ ((salt as u64) << 56) ^ seed)
        by (bit_vector)
        requires
            mixed_a != mixed_b,
    ;
}

/// Two worlds never sample the same place of the same noise field under the
/// same generator key.
pub proof fn lemma_seeds_have_distinct_keys(x: u32, y: u32, salt: u8, seed_a: u64, seed_b: u64)
    requires
        seed_a != seed_b,
    ensures
        noise_key(x, y, salt, seed_a) != noise_key(x, y, salt, seed_b),
{
    let salted = scramble(packed(x, y)) ^ ((salt as u64) << 56);
    assert(salted ^ seed_a != salted ^ seed_b) by (bit_vector)
        requires
            seed_a != seed_b,
    ;
}

} // verus!
