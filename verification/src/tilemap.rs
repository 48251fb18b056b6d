//! The world's tile grid: mapping world positions to tile indices, tiles to
//! their world positions, and the spiral draw order around a viewpoint. The
//! grid is centered: tile `(world_size/2, world_size/2)` sits at the world
//! origin.

use vstd::prelude::*;
use crate::geometry::{div_trunc, trunc_div, Vec2};
use crate::util::{spiral_start, spiral_take, SpiralIterator, SPIRAL_LIMIT};
use crate::vehicle::POS_MAX;

verus! {

/// Tile texture edge in pixels.
pub const TILE_TEX_SIZE: i64 = 32;

/// On-screen scaling factor for tiles.
pub const TILE_TEXTURE_SCALING_FAC: i64 = 16;

/// Scaled tile edge in pixels: `TILE_TEX_SIZE * TILE_TEXTURE_SCALING_FAC`.
pub const TILE_TEX_SIZE_SCALED: i64 = 512;

/// Scaled tile edge in milli-units, the world's length unit.
pub const TILE_STRIDE_MILLI: i64 = 512_000;

/// Largest supported side length of the tile grid.
pub const WORLD_SIZE_MAX: usize = 1_000_000;

/// Largest draw radius `draw_order` accepts.
pub const DRAW_RADIUS_MAX: usize = 10_000;

/// A square tile grid of side `world_size`, centered on the world origin.
pub struct TileMap {
    pub world_size: usize,
}

/// A tile variant: which of the four edges carry a road connection.
pub struct TileVariant {
    pub north: bool,
    pub east: bool,
    pub south: bool,
    pub west: bool,
}

/// The column, in the tile texture strip, that draws the given variant.
/// Variants with exactly one connection have no artwork.
pub open spec fn variant_column(v: TileVariant) -> int {
    match (v.north, v.east, v.south, v.west) {
        (true, false, true, false) => 0,
        (false, true, false, true) => 1,
        (false, true, true, false) => 2,
        (false, false, true, true) => 3,
        (true, true, false, false) => 4,
        (true, false, false, true) => 5,
        (true, true, true, true) => 6,
        (true, false, true, true) => 7,
        (true, true, true, false) => 8,
        (false, true, true, true) => 9,
        (true, true, false, true) => 10,
        (false, false, false, false) => 11,
        _ => -1,
    }
}

impl TileVariant {
    /// The variant has artwork: it is not a dead end (exactly one
    /// connection).
    pub open spec fn drawable(self) -> bool {
        variant_column(self) >= 0
    }

    pub fn new(north: bool, east: bool, south: bool, west: bool) -> (r: TileVariant)
        ensures
            r == (TileVariant { north, east, south, west }),
    {
        TileVariant { north, east, south, west }
    }

    /// No connections on any edge.
    pub fn empty() -> (r: TileVariant)
        ensures
            r == (TileVariant { north: false, east: false, south: false, west: false }),
    {
        TileVariant { north: false, east: false, south: false, west: false }
    }

    /// Connections on all four edges.
    pub fn full_crossing() -> (r: TileVariant)
        ensures
            r == (TileVariant { north: true, east: true, south: true, west: true }),
    {
        TileVariant { north: true, east: true, south: true, west: true }
    }

    /// Horizontal pixel offset of this variant in the tile texture strip.
    pub fn get_x_texture_offset(&self) -> (r: i64)
        requires
            self.drawable(),
        ensures
            r == variant_column(*self) * TILE_TEX_SIZE,
    {
        let col: i64 = if self.north && !self.east && self.south && !self.west {
            0
        } else if !self.north && self.east && !self.south && self.west {
            1
        } else if !self.north && self.east && self.south && !self.west {
            2
        } else if !self.north && !self.east && self.south && self.west {
            3
        } else if self.north && self.east && !self.south && !self.west {
            4
        } else if self.north && !self.east && !self.south && self.west {
            5
        } else if self.north && self.east && self.south && self.west {
            6
        } else if self.north && !self.east && self.south && self.west {
            7
        } else if self.north && self.east && self.south && !self.west {
            8
        } else if !self.north && self.east && self.south && self.west {
            9
        } else if self.north && self.east && !self.south && self.west {
            10
        } else {
            11
        };
        col * TILE_TEX_SIZE
    }
}

impl From<(bool, bool, bool, bool)> for TileVariant {
    /// Builds a variant from its four edge flags, in north, east, south,
    /// west order.
    fn from(value: (bool, bool, bool, bool)) -> (r: TileVariant)
        ensures
            r == (TileVariant { north: value.0, east: value.1, south: value.2, west: value.3 }),
    {
        TileVariant { north: value.0, east: value.1, south: value.2, west: value.3 }
    }
}

impl vstd::std_specs::convert::FromSpecImpl<(bool, bool, bool, bool)> for TileVariant {
    open spec fn obeys_from_spec() -> bool {
        true
    }

    open spec fn from_spec(value: (bool, bool, bool, bool)) -> TileVariant {
        TileVariant { north: value.0, east: value.1, south: value.2, west: value.3 }
    }
}

impl TileMap {
    /// The grid's side length stays within the supported bound.
    pub open spec fn wf(self) -> bool {
        self.world_size <= WORLD_SIZE_MAX
    }

    pub fn new(world_length_tiles: usize) -> (r: TileMap)
        requires
            world_length_tiles <= WORLD_SIZE_MAX,
        ensures
            r.world_size == world_length_tiles,
            r.wf(),
    {
        TileMap { world_size: world_length_tiles }
    }

    /// The tile index a world position falls into, before bounds checking:
    /// the position divided by the tile stride (truncating toward zero, so
    /// the four tiles around the origin share it), recentered by half the
    /// grid.
    pub open spec fn tile_index_spec(self, world_pos: Vec2) -> (int, int) {
        (
            trunc_div(world_pos.x as int, TILE_STRIDE_MILLI as int) + (self.world_size as int) / 2,
            trunc_div(world_pos.y as int, TILE_STRIDE_MILLI as int) + (self.world_size as int) / 2,
        )
    }

    /// Maps a world position to the tile containing it, `None` when the
    /// position falls outside the grid.
    pub fn to_tile_index_pos(&self, world_pos: Vec2) -> (r: Option<(usize, usize)>)
        requires
            self.wf(),
            -POS_MAX <= world_pos.x <= POS_MAX,
            -POS_MAX <= world_pos.y <= POS_MAX,
        ensures
            ({
                let (ix, iy) = self.tile_index_spec(world_pos);
                if 0 <= ix < self.world_size && 0 <= iy < self.world_size {
                    r == Some(((ix as usize), (iy as usize)))
                } else {
                    r == None::<(usize, usize)>
                }
            }),
    {
        let half = self.world_size / 2;
        let x = div_trunc(world_pos.x, TILE_STRIDE_MILLI) + half as i64;
        let y = div_trunc(world_pos.y, TILE_STRIDE_MILLI) + half as i64;
        if 0 <= x && x < self.world_size as i64 && 0 <= y && y < self.world_size as i64 {
            Some((x as usize, y as usize))
        } else {
            None
        }
    }

    /// The world position of a tile's top-left corner: the tile index
    /// recentered by half the grid, scaled by the tile stride.
    pub fn tile_world_pos(&self, x_tile: usize, y_tile: usize) -> (r: Vec2)
        requires
            self.wf(),
            x_tile <= self.world_size,
            y_tile <= self.world_size,
        ensures
            r.x == (x_tile - (self.world_size as int) / 2) * TILE_STRIDE_MILLI,
            r.y == (y_tile - (self.world_size as int) / 2) * TILE_STRIDE_MILLI,
    {
        let half = (self.world_size / 2) as i64;
        Vec2 {
            x: (x_tile as i64 - half) * TILE_STRIDE_MILLI,
            y: (y_tile as i64 - half) * TILE_STRIDE_MILLI,
        }
    }

    /// The cells to draw around a viewpoint, nearest first: the center cell,
    /// then up to `radius * radius` cells of the square spiral around it
    /// (fewer when the spiral leaves the quadrant and ends).
    pub fn draw_order(&self, center: (usize, usize), radius: usize) -> (r: Vec<(usize, usize)>)
        requires
            center.0 <= SPIRAL_LIMIT as usize,
            center.1 <= SPIRAL_LIMIT as usize,
            radius <= DRAW_RADIUS_MAX,
        ensures
            r@ == spiral_take(
                spiral_start(center.0, center.1),
                (radius * radius) as nat,
                seq![center],
            ),
            r@.len() >= 1,
            r@[0] == center,
    {
        let mut v: Vec<(usize, usize)> = Vec::new();
        v.push(center);
        let mut it = SpiralIterator::new(center);
        proof {
            crate::geometry::lemma_mul_bounds_nonneg(
                radius as int,
                radius as int,
                DRAW_RADIUS_MAX as int,
                DRAW_RADIUS_MAX as int,
            );
        }
        let total = radius * radius;
        let ghost target = spiral_take(spiral_start(center.0, center.1), total as nat, seq![center]);
        let mut i: usize = 0;
        let mut ended = false;
        while i < total
            invariant
                i <= total,
                it.wf(),
                target == spiral_take(spiral_start(center.0, center.1), total as nat, seq![center]),
                !ended ==> spiral_take(it, (total - i) as nat, v@) == target,
                ended ==> v@ == target,
                v@.len() >= 1,
                v@[0] == center,
            decreases total - i,
        {
            if !ended {
                match it.next() {
                    Some(p) => {
                        v.push(p);
                    },
                    None => {
                        ended = true;
                    },
                }
            }
            i = i + 1;
        }
        v
    }
}

} // verus!
