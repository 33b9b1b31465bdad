//! Coordinates, the sparse layer store and the generation driver.

pub mod base;
pub mod layers;
pub mod tint;

use crate::layer::tint::Tint;
use std::collections::HashMap;
use vstd::arithmetic::power2::pow2;
use vstd::prelude::*;
use vstd::std_specs::iter::IteratorSpec;

verus! {

broadcast use vstd::std_specs::hash::group_hash_axioms;

/// The largest scale that a layer can be generated at: the origin of every
/// cell of the grid must be a world position.
pub const MAX_SCALE: u32 = 65536;

/// Why a resolution was turned down.
#[derive(Clone, Copy, Debug, PartialEq, Eq, Structural)]
pub enum ConfigError {
    /// The scale is zero: there is no cell to divide the world into.
    ZeroScale,
    /// The scale is beyond what the coordinates can represent.
    ScaleTooLarge,
}

/// A position relative to the entire world.
#[derive(Clone, Copy, Debug, PartialEq, Eq, Structural)]
pub struct WorldPosition {
    pub x: u32,
    pub y: u32,
}

/// A cell that gets filled in relative to the world: the square of side
/// `cell_size` whose corner of least coordinates is `position`.
#[derive(Clone, Copy, Debug, PartialEq, Eq, Structural)]
pub struct WorldCell {
    pub position: WorldPosition,
    pub cell_size: u32,
}

/// A value that a layer can hold in a cell.
///
/// Every such type is a small closed set of variants, one of which stands
/// for "nothing here". A layer never stores that variant: a cell without an
/// entry holds it by definition.
pub trait LayerValue: Copy {
    /// The variant that an empty cell holds.
    spec fn default_value() -> Self;

    /// The display colour of the value.
    spec fn color(&self) -> Tint;

    /// The variant that an empty cell holds.
    fn empty() -> (value: Self)
        ensures
            value == Self::default_value(),
    ;

    /// Whether the value is the one that an empty cell holds, so that it is
    /// neither stored nor drawn.
    fn is_default(&self) -> (result: bool)
        ensures
            result == (*self == Self::default_value()),
    ;

    /// The display colour of the value.
    fn get_color(&self) -> (tint: Tint)
        ensures
            tint == self.color(),
            tint.in_range(),
    ;
}

/// A factory that creates values for a layer: a rule that gives every world
/// position its value, reading the layers in `deps` and nothing else.
pub trait LayerFactory<T: LayerValue, D> {
    /// The value that the rule gives to `pos`.
    spec fn value_at(&self, pos: WorldPosition, deps: &D) -> T;

    /// Computes the value that the rule gives to `pos`.
    fn create_value(&self, pos: WorldPosition, deps: &D) -> (value: T)
        ensures
            value == self.value_at(pos, deps),
    ;
}

/// A position relative to the grid, i.e., subdivisions of the world. Two
/// grid positions are the same only if they were taken at the same scale.
#[derive(Clone, Copy, Debug, PartialEq, Eq, Structural)]
pub struct GridPosition {
    pub x: u32,
    pub y: u32,
    pub scale: u32,
}

impl GridPosition {
    /// Whether the position lies in the square grid of `scale` by `scale`
    /// cells that starts at the origin.
    pub open spec fn in_grid(self) -> bool {
        self.x < self.scale && self.y < self.scale
    }

    /// Whether the corner of the cell is a world position.
    pub open spec fn fits_world(self) -> bool {
        self.x * self.scale <= u32::MAX && self.y * self.scale <= u32::MAX
    }

    /// The corner of least coordinates of the cell, in world space.
    pub open spec fn origin(self) -> WorldPosition
        recommends
            self.fits_world(),
    {
        WorldPosition { x: (self.x * self.scale) as u32, y: (self.y * self.scale) as u32 }
    }

    /// Whether the position comes before `other` when a grid is walked row
    /// by row, each row from left to right.
    pub open spec fn precedes(self, other: GridPosition) -> bool {
        self.y < other.y || (self.y == other.y && self.x < other.x)
    }

    /// The position one step further along the row, or at the start of the
    /// next row where the row ends.
    pub open spec fn stepped(self) -> GridPosition
        recommends
            self.y < self.scale,
    {
        if self.x + 1 < self.scale {
            GridPosition { x: (self.x + 1) as u32, y: self.y, scale: self.scale }
        } else {
            GridPosition { x: 0, y: (self.y + 1) as u32, scale: self.scale }
        }
    }

    /// Where the walk that starts at the origin of the grid of the given
    /// scale stands after `steps` steps.
    pub open spec fn walked(scale: u32, steps: nat) -> GridPosition
        decreases steps,
    {
        if steps == 0 {
            GridPosition { x: 0, y: 0, scale }
        } else {
            Self::walked(scale, (steps - 1) as nat).stepped()
        }
    }

    /// The cell `(x, y)` of the grid of the given scale.
    pub fn new(x: u32, y: u32, scale: u32) -> (position: Self)
        ensures
            position == (GridPosition { x, y, scale }),
    {
        Self { x, y, scale }
    }

    /// Hands out the cell under the cursor and moves the cursor one step
    /// along the walk of the grid, row by row and each row from left to
    /// right. Once the cursor has left the last row the walk is over: the
    /// result is `None` and the cursor stays where it is.
    pub fn next(&mut self) -> (result: Option<GridPosition>)
        ensures
            result == if old(self).y < old(self).scale {
                Some(*old(self))
            } else {
                None
            },
            *final(self) == if old(self).y < old(self).scale {
                old(self).stepped()
            } else {
                *old(self)
            },
    {
        if self.y >= self.scale {
            return None;
        }
        let current = *self;
        if self.x < self.scale - 1 {
            self.x = self.x + 1;
        } else {
            self.x = 0;
            self.y = self.y + 1;
        }
        Some(current)
    }
}

/// The walk from the origin visits the cells of the grid row by row: after
/// `steps` steps, with `steps` no more than the number of cells, it stands
/// at column `steps % scale` of row `steps / scale`. So calling `next` on
/// `GridPosition::new(0, 0, scale)` hands out every cell of the grid once,
/// `scale * scale` cells from `(0, 0)` to `(scale - 1, scale - 1)`, and
/// `None` after them.
pub proof fn lemma_walk_covers_grid(scale: u32, steps: nat)
    requires
        scale >= 1,
        steps <= scale * scale,
    ensures
        GridPosition::walked(scale, steps) == (GridPosition {
            x: (steps % scale as nat) as u32,
            y: (steps / scale as nat) as u32,
            scale,
        }),
        steps < scale * scale <==> GridPosition::walked(scale, steps).in_grid(),
        steps < scale * scale <==> GridPosition::walked(scale, steps).y < scale,
    decreases steps,
{
    let width = scale as int;
    let count = steps as int;
    assert(count / width <= width && (count < width * width <==> count / width < width)
        && 0 <= count % width < width && count == width * (count / width) + count % width)
        by (nonlinear_arith)
        requires
            width >= 1,
            0 <= count <= width * width,
    ;
    if steps > 0 {
        let before = (steps - 1) as nat;
        let earlier = count - 1;
        lemma_walk_covers_grid(scale, before);
        assert(earlier / width < width && 0 <= earlier % width < width && earlier == width * (
        earlier / width) + earlier % width) by (nonlinear_arith)
            requires
                width >= 1,
                0 <= earlier < width * width,
        ;
        if earlier % width + 1 < width {
            assert(count == (earlier / width) * width + (earlier % width + 1))
                by (nonlinear_arith)
                requires
                    earlier == width * (earlier / width) + earlier % width,
                    count == earlier + 1,
            ;
            vstd::arithmetic::div_mod::lemma_fundamental_div_mod_converse(
                count,
                width,
                earlier / width,
                earlier % width + 1,
            );
        } else {
            assert(count == (earlier / width + 1) * width + 0) by (nonlinear_arith)
                requires
                    earlier == width * (earlier / width) + earlier % width,
                    earlier % width + 1 == width,
                    count == earlier + 1,
            ;
            vstd::arithmetic::div_mod::lemma_fundamental_div_mod_converse(
                count,
                width,
                earlier / width + 1,
                0,
            );
        }
    }
}

impl WorldPosition {
    /// The representative world position of a grid cell: its corner of
    /// least coordinates.
    pub fn from(grid_position: GridPosition) -> (position: WorldPosition)
        requires
            grid_position.fits_world(),
        ensures
            position == grid_position.origin(),
    {
        WorldPosition {
            x: grid_position.x * grid_position.scale,
            y: grid_position.y * grid_position.scale,
        }
    }
}

impl WorldCell {
    /// The square of world space that a grid cell covers.
    pub fn from(grid_position: GridPosition) -> (cell: WorldCell)
        requires
            grid_position.fits_world(),
        ensures
            cell.position == grid_position.origin(),
            cell.cell_size == grid_position.scale,
    {
        WorldCell { position: WorldPosition::from(grid_position), cell_size: grid_position.scale }
    }
}

/// The key under which a layer stores a grid position: the three numbers
/// side by side, 32 bits each.
spec fn cell_key(position: GridPosition) -> u128 {
    ((position.x as u128) << 64) | ((position.y as u128) << 32) | (position.scale as u128)
}

/// The grid position that is stored under a key.
spec fn key_cell(key: u128) -> GridPosition {
    GridPosition {
        x: ((key >> 64) & 0xffff_ffff) as u32,
        y: ((key >> 32) & 0xffff_ffff) as u32,
        scale: (key & 0xffff_ffff) as u32,
    }
}

/// A grid position can be read back from its key, so no two positions
/// share a key.
proof fn lemma_key_leads_back(position: GridPosition)
    ensures
        key_cell(cell_key(position)) == position,
        cell_key(position) >> 96 == 0,
{
    let x = position.x;
    let y = position.y;
    let scale = position.scale;
    let key = cell_key(position);
    assert(((key >> 64) & 0xffff_ffff) as u32 == x && ((key >> 32) & 0xffff_ffff) as u32 == y && (
    key & 0xffff_ffff) as u32 == scale && key >> 96 == 0) by (bit_vector)
        requires
            key == ((x as u128) << 64) | ((y as u128) << 32) | (scale as u128),
    ;
}

/// A key of no more than 96 bits is the key of the position that is read
/// from it.
proof fn lemma_cell_leads_back(key: u128)
    requires
        key >> 96 == 0,
    ensures
        cell_key(key_cell(key)) == key,
{
    let x = ((key >> 64) & 0xffff_ffff) as u32;
    let y = ((key >> 32) & 0xffff_ffff) as u32;
    let scale = (key & 0xffff_ffff) as u32;
    assert(((x as u128) << 64) | ((y as u128) << 32) | (scale as u128) == key) by (bit_vector)
        requires
            key >> 96 == 0,
            x == ((key >> 64) & 0xffff_ffff) as u32,
            y == ((key >> 32) & 0xffff_ffff) as u32,
            scale == (key & 0xffff_ffff) as u32,
    ;
}

/// Computes the key of a grid position.
fn key_of(position: GridPosition) -> (key: u128)
    ensures
        key == cell_key(position),
{
    ((position.x as u128) << 64) | ((position.y as u128) << 32) | (position.scale as u128)
}

/// Reads the grid position that is stored under a key.
fn cell_of(key: u128) -> (position: GridPosition)
    ensures
        position == key_cell(key),
{
    let x: u128 = (key >> 64) & 0xffff_ffff;
    let y: u128 = (key >> 32) & 0xffff_ffff;
    let scale: u128 = key & 0xffff_ffff;
    assert(x <= 0xffff_ffff && y <= 0xffff_ffff && scale <= 0xffff_ffff) by (bit_vector)
        requires
            x == (key >> 64) & 0xffff_ffff,
            y == (key >> 32) & 0xffff_ffff,
            scale == key & 0xffff_ffff,
    ;
    GridPosition { x: x as u32, y: y as u32, scale: scale as u32 }
}

/// A layer contains a grid of values.
///
/// The grid is sparse: only cells whose value differs from the default of
/// `T` have an entry, and a cell without an entry holds that default.
pub struct Layer<T: LayerValue> {
    data: HashMap<u128, T>,
    scale: u32,
}

impl<T: LayerValue> View for Layer<T> {
    type V = Map<GridPosition, T>;

    /// The stored entries of the layer.
    closed spec fn view(&self) -> Map<GridPosition, T> {
        Map::new(
            |position: GridPosition| self.data@.contains_key(cell_key(position)),
            |position: GridPosition| self.data@[cell_key(position)],
        )
    }
}

impl<T: LayerValue> Layer<T> {
    #[verifier::type_invariant]
    spec fn inv(&self) -> bool {
        &&& self.scale >= 1
        &&& forall|key: u128| #[trigger]
            self.data@.contains_key(key) ==> key >> 96 == 0 && self.data@[key]
                != T::default_value()
    }

    /// The scale of the layer.
    pub closed spec fn spec_scale(&self) -> u32 {
        self.scale
    }

    /// What every layer upholds: the scale is not zero, and no entry holds
    /// the default value.
    pub open spec fn well_formed(&self) -> bool {
        &&& self.spec_scale() >= 1
        &&& forall|position: GridPosition| #[trigger]
            self@.contains_key(position) ==> self@[position] != T::default_value()
    }

    /// The grid position of this layer that a world position falls into.
    pub open spec fn grid_of(&self, position: WorldPosition) -> GridPosition {
        GridPosition {
            x: position.x / self.spec_scale(),
            y: position.y / self.spec_scale(),
            scale: self.spec_scale(),
        }
    }

    /// The value of a grid cell: the stored one, or the default where
    /// nothing is stored.
    pub open spec fn value_at(&self, position: GridPosition) -> T {
        if self@.contains_key(position) {
            self@[position]
        } else {
            T::default_value()
        }
    }

    /// The value of the layer at a world position.
    pub open spec fn value(&self, position: WorldPosition) -> T {
        self.value_at(self.grid_of(position))
    }

    /// Whether the layer is what generation at `scale` by `rule` gives: it
    /// has that scale, and its entries are those of the grid filled in by
    /// the rule.
    pub open spec fn is_generated(&self, scale: u32, rule: spec_fn(WorldPosition) -> T) -> bool {
        &&& self.spec_scale() == scale
        &&& self@ == grid_cells(scale, rule)
        &&& self.well_formed()
    }

    /// An empty layer whose scale is two to the power of `scale_factor`.
    pub fn new_base32(scale_factor: u32) -> (result: Result<Self, ConfigError>)
        ensures
            match result {
                Ok(layer) => {
                    &&& scale_factor < 32
                    &&& layer.spec_scale() == pow2(scale_factor as nat)
                    &&& layer@ == Map::<GridPosition, T>::empty()
                    &&& layer.well_formed()
                },
                Err(error) => scale_factor >= 32 && error == ConfigError::ScaleTooLarge,
            },
    {
        if scale_factor >= 32 {
            return Err(ConfigError::ScaleTooLarge);
        }
        proof {
            vstd::bits::lemma_u32_pow2_no_overflow(scale_factor as nat);
            vstd::bits::lemma_u32_shl_is_mul(1u32, scale_factor);
        }
        let scale: u32 = 1u32 << scale_factor;
        let layer = Self { data: HashMap::new(), scale };
        assert(layer@ =~= Map::<GridPosition, T>::empty());
        Ok(layer)
    }

    /// An empty layer of the given scale.
    pub fn new(scale: u32) -> (result: Result<Self, ConfigError>)
        ensures
            match result {
                Ok(layer) => {
                    &&& scale >= 1
                    &&& layer.spec_scale() == scale
                    &&& layer@ == Map::<GridPosition, T>::empty()
                    &&& layer.well_formed()
                },
                Err(error) => scale == 0 && error == ConfigError::ZeroScale,
            },
    {
        if scale == 0 {
            return Err(ConfigError::ZeroScale);
        }
        let layer = Self { data: HashMap::new(), scale };
        assert(layer@ =~= Map::<GridPosition, T>::empty());
        Ok(layer)
    }

    /// Gets the grid position for the given [WorldPosition].
    pub fn get_grid_position(&self, position: WorldPosition) -> (grid_position: GridPosition)
        ensures
            grid_position == self.grid_of(position),
    {
        proof {
            use_type_invariant(self);
        }
        GridPosition { x: position.x / self.scale, y: position.y / self.scale, scale: self.scale }
    }

    /// Get the value at the given [GridPosition].
    pub fn get_grid(&self, position: GridPosition) -> (value: T)
        ensures
            value == self.value_at(position),
    {
        let key = key_of(position);
        match self.data.get(&key) {
            Some(stored) => *stored,
            None => T::empty(),
        }
    }

    /// Get the value at the given [WorldPosition].
    pub fn get(&self, position: WorldPosition) -> (value: T)
        ensures
            value == self.value(position),
    {
        let grid_position = self.get_grid_position(position);
        self.get_grid(grid_position)
    }

    /// Set the value at the given [GridPosition]. The default value is not
    /// stored: setting it leaves the layer as it is.
    pub fn set_grid(&mut self, position: GridPosition, value: T)
        ensures
            final(self).spec_scale() == old(self).spec_scale(),
            final(self)@ == if value == T::default_value() {
                old(self)@
            } else {
                old(self)@.insert(position, value)
            },
            final(self).well_formed(),
    {
        proof {
            use_type_invariant(&*self);
        }
        if !value.is_default() {
            let key = key_of(position);
            proof {
                lemma_key_leads_back(position);
                assert forall|other: GridPosition| cell_key(other) == key implies other
                    == position by {
                    lemma_key_leads_back(other);
                }
            }
            let mut data: HashMap<u128, T> = HashMap::new();
            core::mem::swap(&mut self.data, &mut data);
            data.insert(key, value);
            core::mem::swap(&mut self.data, &mut data);
            assert(self@ =~= old(self)@.insert(position, value));
        }
    }

    /// Set the value at the given [WorldPosition]. The default value is
    /// not stored: setting it leaves the layer as it is.
    pub fn set(&mut self, position: WorldPosition, value: T)
        ensures
            final(self).spec_scale() == old(self).spec_scale(),
            final(self)@ == if value == T::default_value() {
                old(self)@
            } else {
                old(self)@.insert(old(self).grid_of(position), value)
            },
            final(self).well_formed(),
    {
        let grid_position = self.get_grid_position(position);
        self.set_grid(grid_position, value);
    }

    /// The layer has as many entries as its map has keys, and finitely
    /// many.
    proof fn lemma_as_many_cells_as_keys(&self)
        requires
            forall|key: u128| #[trigger] self.data@.contains_key(key) ==> key >> 96 == 0,
            self.data@.dom().finite(),
        ensures
            self@.dom().finite(),
            self@.len() == self.data@.len(),
    {
        let keys = self.data@.dom();
        let read = |key: u128| key_cell(key);
        assert forall|a: u128, b: u128|
            keys.contains(a) && keys.contains(b) && #[trigger] read(a) == #[trigger] read(
                b,
            ) implies a == b by {
            lemma_cell_leads_back(a);
            lemma_cell_leads_back(b);
        }
        assert(vstd::relations::injective_on(read, keys));
        assert forall|position: GridPosition| self@.dom().contains(position) implies keys.map(
            read,
        ).contains(position) by {
            lemma_key_leads_back(position);
            assert(keys.contains(cell_key(position)));
        }
        assert forall|position: GridPosition| keys.map(read).contains(
            position,
        ) implies self@.dom().contains(position) by {
            let key = choose|key: u128| keys.contains(key) && read(key) == position;
            lemma_cell_leads_back(key);
        }
        assert(keys.map(read) =~= self@.dom());
        vstd::set_lib::lemma_map_size(keys, self@.dom(), read);
    }

    /// Lists the stored entries of the layer, each exactly once and in no
    /// particular order: the cells that a renderer has to draw.
    pub fn render(&self) -> (cells: Vec<(GridPosition, T)>)
        ensures
            forall|i: int|
                0 <= i < cells@.len() ==> self@.contains_key(#[trigger] cells@[i].0)
                    && self@[cells@[i].0] == cells@[i].1,
            forall|position: GridPosition| #[trigger]
                self@.contains_key(position) ==> exists|i: int|
                    0 <= i < cells@.len() && cells@[i].0 == position,
            forall|i: int, j: int|
                0 <= i < j < cells@.len() ==> cells@[i].0 != cells@[j].0,
            forall|i: int| 0 <= i < cells@.len() ==> (#[trigger] cells@[i]).1 != T::default_value(),
            self@.dom().finite(),
            cells@.len() == self@.len(),
    {
        proof {
            use_type_invariant(self);
        }
        let mut cells: Vec<(GridPosition, T)> = Vec::new();
        let ghost entries = vstd::std_specs::hash::spec_hash_map_iter(&self.data).remaining();
        for entry in iter: self.data.iter()
            invariant
                iter.seq() == entries,
                entries.no_duplicates(),
                cells@.len() == iter.index(),
                forall|i: int|
                    0 <= i < cells@.len() ==> cells@[i] == (
                        key_cell(*entries[i].0),
                        *entries[i].1,
                    ),
        {
            let (key, value) = entry;
            cells.push((cell_of(*key), *value));
        }
        proof {
            vstd::std_specs::hash::axiom_spec_hash_map_iter(&self.data);
            assert(cells@.len() == entries.len());
            self.lemma_as_many_cells_as_keys();
            assert forall|i: int| 0 <= i < cells@.len() implies self@.contains_key(
                #[trigger] cells@[i].0,
            ) && self@[cells@[i].0] == cells@[i].1 by {
                let key = *entries[i].0;
                assert(self.data@.contains_key(key));
                lemma_cell_leads_back(key);
            }
            assert forall|position: GridPosition| #[trigger]
                self@.contains_key(position) implies exists|i: int|
                0 <= i < cells@.len() && cells@[i].0 == position by {
                let key = cell_key(position);
                lemma_key_leads_back(position);
                assert(self.data@.contains_key(key));
                let entry = (&key, &self.data@[key]);
                let i = choose|i: int| 0 <= i < entries.len() && entries[i] == entry;
                assert(cells@[i].0 == position);
            }
            assert forall|i: int, j: int| 0 <= i < j < cells@.len() implies cells@[i].0
                != cells@[j].0 by {
                let key_i = *entries[i].0;
                let key_j = *entries[j].0;
                assert(self.data@.contains_key(key_i));
                assert(self.data@.contains_key(key_j));
                lemma_cell_leads_back(key_i);
                lemma_cell_leads_back(key_j);
                if cells@[i].0 == cells@[j].0 {
                    assert(key_i == key_j);
                    assert(entries[i] == entries[j]);
                }
            }
            assert forall|i: int| 0 <= i < cells@.len() implies (#[trigger] cells@[i]).1
                != T::default_value() by {
                assert(self.data@.contains_key(*entries[i].0));
            }
        }
        cells
    }

    /// Get the scale of the layer.
    #[verifier::when_used_as_spec(spec_scale)]
    pub fn scale(&self) -> (scale: u32)
        ensures
            scale == self.spec_scale(),
            scale >= 1,
            self.well_formed(),
    {
        proof {
            use_type_invariant(self);
        }
        self.scale
    }
}

/// An iterator over all grid positions in the layer: the walk of the grid
/// of `scale` by `scale` cells, row by row from the origin, that hands out
/// the representative world position of each cell.
pub struct AllGridPositions {
    grid_position: GridPosition,
}

impl AllGridPositions {
    #[verifier::type_invariant]
    spec fn inv(&self) -> bool {
        &&& 1 <= self.grid_position.scale <= MAX_SCALE
        &&& self.grid_position.x < self.grid_position.scale
        &&& self.grid_position.y <= self.grid_position.scale
    }

    /// The cell that the walk hands out next. The walk is over once the
    /// cursor has left the grid.
    pub closed spec fn cursor(&self) -> GridPosition {
        self.grid_position
    }

    /// What every walk upholds: its scale can be generated at, and its
    /// cursor is in the grid or at the start of the row below the last.
    pub open spec fn well_formed(&self) -> bool {
        &&& valid_scale(self.cursor().scale)
        &&& self.cursor().x < self.cursor().scale
        &&& self.cursor().y <= self.cursor().scale
    }

    /// The walk of the grid of the given scale, from its first cell. A
    /// scale of zero, or one whose grid reaches beyond the world, is turned
    /// down.
    pub fn new(scale: u32) -> (result: Result<Self, ConfigError>)
        ensures
            match result {
                Ok(positions) => {
                    &&& valid_scale(scale)
                    &&& positions.cursor() == (GridPosition { x: 0, y: 0, scale })
                    &&& positions.well_formed()
                },
                Err(error) => !valid_scale(scale) && error == scale_fault(scale),
            },
    {
        match validate_scale(scale) {
            Ok(()) => Ok(Self { grid_position: GridPosition::new(0, 0, scale) }),
            Err(error) => Err(error),
        }
    }

    /// Hands out the world position of the cell under the cursor and moves
    /// the cursor one step on, or returns `None` once the grid is used up.
    pub fn next(&mut self) -> (result: Option<WorldPosition>)
        ensures
            final(self).well_formed(),
            match result {
                Some(position) => {
                    &&& old(self).cursor().in_grid()
                    &&& position == old(self).cursor().origin()
                    &&& final(self).cursor() == old(self).cursor().stepped()
                },
                None => !old(self).cursor().in_grid() && final(self).cursor() == old(
                    self,
                ).cursor(),
            },
    {
        proof {
            use_type_invariant(&*self);
        }
        let mut cursor = self.grid_position;
        let handed = cursor.next();
        self.grid_position = cursor;
        match handed {
            Some(cell) => {
                proof {
                    lemma_grid_fits_world(cell);
                }
                Some(WorldPosition::from(cell))
            },
            None => None,
        }
    }
}

/// Whether a layer can be generated at the scale: it is not zero, and the
/// origin of every cell of its grid is a world position.
pub open spec fn valid_scale(scale: u32) -> bool {
    1 <= scale <= MAX_SCALE
}

/// The fault of a scale that no layer can be generated at.
pub open spec fn scale_fault(scale: u32) -> ConfigError {
    if scale == 0 {
        ConfigError::ZeroScale
    } else {
        ConfigError::ScaleTooLarge
    }
}

/// Tests a scale before anything is generated at it.
pub fn validate_scale(scale: u32) -> (result: Result<(), ConfigError>)
    ensures
        result is Ok <==> valid_scale(scale),
        result matches Err(error) ==> error == scale_fault(scale),
{
    if scale == 0 {
        Err(ConfigError::ZeroScale)
    } else if scale > MAX_SCALE {
        Err(ConfigError::ScaleTooLarge)
    } else {
        Ok(())
    }
}

/// The fault of a resolution that stands for no scale: above 64 the grid
/// would have less than one cell, and up to 32 the scale is beyond what the
/// coordinates can represent.
pub open spec fn resolution_fault(resolution: u32) -> ConfigError {
    if resolution > 64 {
        ConfigError::ZeroScale
    } else {
        ConfigError::ScaleTooLarge
    }
}

/// The scale that a resolution stands for. A resolution is an exponent
/// counted down from 64: the resolution `64 - n` stands for the scale two
/// to the power of `n`, so a higher resolution gives a smaller scale.
pub fn scale_of_resolution(resolution: u32) -> (result: Result<u32, ConfigError>)
    ensures
        match result {
            Ok(scale) => 32 < resolution <= 64 && scale == pow2((64 - resolution) as nat),
            Err(error) => !(32 < resolution <= 64) && error == resolution_fault(resolution),
        },
{
    if resolution > 64 {
        return Err(ConfigError::ZeroScale);
    }
    if resolution <= 32 {
        return Err(ConfigError::ScaleTooLarge);
    }
    let exponent: u32 = 64 - resolution;
    proof {
        vstd::bits::lemma_u32_pow2_no_overflow(exponent as nat);
        vstd::bits::lemma_u32_shl_is_mul(1u32, exponent);
    }
    Ok(1u32 << exponent)
}

/// Every cell of a grid whose scale can be generated at has its origin in
/// the world, and the origin leads back to the cell.
pub proof fn lemma_grid_fits_world(position: GridPosition)
    requires
        position.in_grid(),
        position.scale <= MAX_SCALE,
    ensures
        position.fits_world(),
        position.origin().x / position.scale == position.x,
        position.origin().y / position.scale == position.y,
{
    let scale = position.scale as int;
    let x = position.x as int;
    let y = position.y as int;
    assert(0 <= x * scale <= 65535 * 65536 && (x * scale) / scale == x) by (nonlinear_arith)
        requires
            0 <= x < scale <= 65536,
    ;
    assert(0 <= y * scale <= 65535 * 65536 && (y * scale) / scale == y) by (nonlinear_arith)
        requires
            0 <= y < scale <= 65536,
    ;
}

/// The entries of a layer of the given scale in which every cell of the
/// grid holds the value that `rule` gives to the cell's origin: the cells
/// for which that is the default have no entry, and there is no entry
/// outside the grid.
pub open spec fn grid_cells<T: LayerValue>(scale: u32, rule: spec_fn(WorldPosition) -> T) -> Map<
    GridPosition,
    T,
> {
    Map::new(
        |position: GridPosition|
            position.scale == scale && position.in_grid() && rule(position.origin())
                != T::default_value(),
        |position: GridPosition| rule(position.origin()),
    )
}

/// How the generation of a layer at `scale` ends: with a layer of that
/// scale whose entries are those that `rule` gives, or, if and only if the
/// scale is zero or too large, with the fault of the scale.
pub open spec fn generation_outcome<T: LayerValue>(
    result: Result<Layer<T>, ConfigError>,
    scale: u32,
    rule: spec_fn(WorldPosition) -> T,
) -> bool {
    match result {
        Ok(layer) => valid_scale(scale) && layer.is_generated(scale, rule),
        Err(error) => !valid_scale(scale) && error == scale_fault(scale),
    }
}

/// The entries that generation has produced once its walk has reached
/// `cursor`: those of the cells before the cursor.
spec fn generated_before<T: LayerValue, D, F: LayerFactory<T, D>>(
    cursor: GridPosition,
    deps: D,
    factory: F,
) -> Map<GridPosition, T> {
    Map::new(
        |position: GridPosition|
            position.scale == cursor.scale && position.in_grid() && position.precedes(cursor)
                && factory.value_at(position.origin(), &deps) != T::default_value(),
        |position: GridPosition| factory.value_at(position.origin(), &deps),
    )
}

/// A generated layer answers for every world position: inside the grid
/// with the value that the rule gives to the origin of the position's cell,
/// outside the grid with the default.
pub proof fn lemma_generated_value<T: LayerValue>(
    layer: Layer<T>,
    rule: spec_fn(WorldPosition) -> T,
    position: WorldPosition,
)
    requires
        layer.is_generated(layer.spec_scale(), rule),
    ensures
        layer.value(position) == if layer.grid_of(position).in_grid() {
            rule(layer.grid_of(position).origin())
        } else {
            T::default_value()
        },
{
}

/// Generates the layer of the given scale: walks every cell of the grid,
/// asks the factory for the value at the cell's origin and stores it. A
/// scale of zero, or one whose grid reaches beyond the world, is turned
/// down before the factory is asked for anything.
pub fn generate_layer<T: LayerValue, D, F: LayerFactory<T, D>>(
    scale: u32,
    deps: D,
    factory: F,
) -> (result: Result<Layer<T>, ConfigError>)
    ensures
        generation_outcome(
            result,
            scale,
            |position: WorldPosition| factory.value_at(position, &deps),
        ),
{
    let mut positions = match AllGridPositions::new(scale) {
        Ok(positions) => positions,
        Err(error) => {
            return Err(error);
        },
    };
    let mut layer = match Layer::new(scale) {
        Ok(layer) => layer,
        Err(error) => {
            return Err(error);
        },
    };
    assert(layer@ =~= generated_before(positions.cursor(), deps, factory));
    loop
        invariant
            1 <= scale <= MAX_SCALE,
            positions.well_formed(),
            positions.cursor().scale == scale,
            layer.spec_scale() == scale,
            layer.well_formed(),
            layer@ == generated_before(positions.cursor(), deps, factory),
        ensures
            !positions.cursor().in_grid(),
        decreases scale - positions.cursor().y, scale - positions.cursor().x,
    {
        let ghost before = positions.cursor();
        match positions.next() {
            Some(pos) => {
                let value = factory.create_value(pos, &deps);
                proof {
                    lemma_grid_fits_world(before);
                    assert(layer.grid_of(pos) == before);
                }
                layer.set(pos, value);
                assert(layer@ =~= generated_before(positions.cursor(), deps, factory));
            },
            None => {
                break ;
            },
        }
    }
    assert(layer@ =~= grid_cells(
        scale,
        |position: WorldPosition| factory.value_at(position, &deps),
    ));
    Ok(layer)
}

/// A cell either has an entry or holds the default, never both: absence
/// and the default value are one and the same.
pub proof fn lemma_default_elision<T: LayerValue>(layer: Layer<T>, position: GridPosition)
    requires
        layer.well_formed(),
    ensures
        layer@.contains_key(position) <==> layer.value_at(position) != T::default_value(),
{
}

/// Generation is a function of the scale and the rule: two runs over the
/// same scale and rule end alike, with the same entries or the same fault.
pub proof fn lemma_generation_repeats<T: LayerValue>(
    first: Result<Layer<T>, ConfigError>,
    second: Result<Layer<T>, ConfigError>,
    scale: u32,
    rule: spec_fn(WorldPosition) -> T,
)
    requires
        generation_outcome(first, scale, rule),
        generation_outcome(second, scale, rule),
    ensures
        match (first, second) {
            (Ok(one), Ok(other)) => one@ == other@ && one.spec_scale() == other.spec_scale(),
            (Err(one), Err(other)) => one == other,
            _ => false,
        },
{
}

/// Cells of a coarser grid are unions of cells of a finer one whose scale
/// divides the coarser scale: a coordinate and the origin of its fine cell
/// fall into the same coarse cell.
pub proof fn lemma_coarser_cell(fine: u32, coarse: u32, coordinate: u32)
    requires
        fine >= 1,
        coarse >= 1,
        coarse % fine == 0,
    ensures
        ((coordinate / fine) * fine) / (coarse as int) == coordinate / coarse,
{
    let f = fine as int;
    let c = coarse as int;
    let k = c / f;
    let q = coordinate as int / f;
    vstd::arithmetic::div_mod::lemma_fundamental_div_mod(c, f);
    assert(c == f * k);
    assert(k >= 1) by (nonlinear_arith)
        requires
            c == f * k,
            c >= 1,
            f >= 1,
    ;
    vstd::arithmetic::div_mod::lemma_div_multiples_vanish_quotient(f, q, k);
    assert(q / k == (f * q) / (f * k));
    vstd::arithmetic::div_mod::lemma_div_denominator(coordinate as int, f, k);
    assert(q / k == coordinate as int / (f * k));
    assert(f * q == q * f) by (nonlinear_arith);
}

/// A layer whose scale is a multiple of `fine` gives the same value to a
/// world position and to the origin of the position's cell at scale
/// `fine`: a layer that was generated at `fine` over it reads, for every
/// position of a cell, what holds at that position.
pub proof fn lemma_value_on_finer_cell<T: LayerValue>(
    layer: Layer<T>,
    fine: u32,
    position: WorldPosition,
)
    requires
        fine >= 1,
        layer.spec_scale() >= 1,
        layer.spec_scale() % fine == 0,
    ensures
        ({
            let cell = GridPosition { x: position.x / fine, y: position.y / fine, scale: fine };
            cell.fits_world() && layer.value(cell.origin()) == layer.value(position)
        }),
{
    let cell = GridPosition { x: position.x / fine, y: position.y / fine, scale: fine };
    let f = fine as int;
    assert(0 <= (position.x as int / f) * f <= position.x) by (nonlinear_arith)
        requires
            f >= 1,
            position.x >= 0,
    ;
    assert(0 <= (position.y as int / f) * f <= position.y) by (nonlinear_arith)
        requires
            f >= 1,
            position.y >= 0,
    ;
    lemma_coarser_cell(fine, layer.spec_scale(), position.x);
    lemma_coarser_cell(fine, layer.spec_scale(), position.y);
    assert(layer.grid_of(cell.origin()) == layer.grid_of(position));
}

} // verus!
