//! The tile map of the current stage, as far as entity behaviour edits it.

use vstd::prelude::*;

verus! {

/// Index of tile `(x, y)` in a map `width` tiles wide.
pub open spec fn tile_index(width: usize, x: usize, y: usize) -> int {
    y * width + x
}

/// The map after `change_tile(x, y, t)`, and whether a tile changed: only a
/// tile inside the map that differs from `t` is rewritten.
pub open spec fn spec_change_tile(width: usize, tiles: Seq<u8>, x: usize, y: usize, t: u8) -> (
    Seq<u8>,
    bool,
) {
    let i = tile_index(width, x, y);
    if x < width && 0 <= i < tiles.len() && tiles[i] != t {
        (tiles.update(i, t), true)
    } else {
        (tiles, false)
    }
}

/// Tile map, row by row.
pub struct Stage {
    pub width: usize,
    pub height: usize,
    pub tiles: Vec<u8>,
}

impl Stage {
    /// Sets tile `(x, y)` to `tile_type`; true when a tile was changed.
    pub fn change_tile(&mut self, x: usize, y: usize, tile_type: u8) -> (r: bool)
        ensures
            final(self).width == old(self).width,
            final(self).height == old(self).height,
            (final(self).tiles@, r) == spec_change_tile(
                old(self).width,
                old(self).tiles@,
                x,
                y,
                tile_type,
            ),
    {
        let len = self.tiles.len();
        if x >= self.width {
            return false;
        }
        let row = match y.checked_mul(self.width) {
            Some(v) => v,
            None => {
                proof {
                    let w = self.width;
                    assert(y * w == w * y) by (nonlinear_arith);
                    assert(self.tiles@.len() == len);
                }
                return false;
            },
        };
        let idx = match row.checked_add(x) {
            Some(v) => v,
            None => {
                assert(self.tiles@.len() == len);
                return false;
            },
        };
        if idx >= len {
            return false;
        }
        if self.tiles[idx] != tile_type {
            self.tiles.set(idx, tile_type);
            return true;
        }
        false
    }
}

} // verus!
