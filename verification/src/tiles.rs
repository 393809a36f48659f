//! The tile canvas: the set of placed tile sprites and its
//! point-containment queries.
//!
//! A placed tile occupies the closed axis-aligned box centered at its world
//! position with its render size as extent; a point on the border counts as
//! inside (the tie-break rule for edge-touching placements). Placement is
//! refused while any existing tile's box contains the target point, and
//! removal takes out every tile whose box contains the point, not just the
//! first found.
use vstd::prelude::*;

use crate::atlas::{AtlasRegion, CaveAtlases};
use crate::fixed::{Vec2i, WORLD_INPUT_LIMIT};

verus! {

/// World milli-units of render size per atlas pixel: the fixed one-fifth
/// scale-down applied to placed tiles.
pub const TILE_DISPLAY_SCALE: i64 = 200;

/// Largest render size a tile can have: the largest atlas region scaled by
/// `TILE_DISPLAY_SCALE`.
pub const TILE_SIZE_LIMIT: i64 = 0xFFFF_FFFF * 200;

/// One placed tile: world position of its center, the atlas region it
/// shows, and its render size in world milli-units.
#[derive(Clone, Copy, PartialEq, Eq, Structural, Debug)]
pub struct Tile {
    pub world_position: Vec2i,
    pub atlas_index: usize,
    pub render_size: Vec2i,
}

impl Tile {
    /// A tile sits within the world and has a nonnegative, bounded size.
    pub open spec fn wf(self) -> bool {
        &&& self.world_position.within(WORLD_INPUT_LIMIT)
        &&& 0 <= self.render_size.x <= TILE_SIZE_LIMIT
        &&& 0 <= self.render_size.y <= TILE_SIZE_LIMIT
    }
}

/// Whether the closed box of tile `t` contains the world point `p`
/// (distances doubled to keep the half-extent arithmetic exact).
pub open spec fn tile_contains(t: Tile, p: Vec2i) -> bool {
    &&& -t.render_size.x <= 2 * (p.x - t.world_position.x) <= t.render_size.x
    &&& -t.render_size.y <= 2 * (p.y - t.world_position.y) <= t.render_size.y
}

/// Whether any tile of `tiles` contains `p`.
pub open spec fn spec_occupied(tiles: Seq<Tile>, p: Vec2i) -> bool {
    exists|i: int| 0 <= i < tiles.len() && tile_contains(tiles[i], p)
}

/// The tile that placing at `p` with the region `region` of the atlas
/// creates: centered at `p`, sized by the region scaled down to one fifth.
pub open spec fn spec_new_tile(p: Vec2i, atlas_index: usize, region: AtlasRegion) -> Tile {
    Tile {
        world_position: p,
        atlas_index,
        render_size: Vec2i {
            x: (region.width as int * TILE_DISPLAY_SCALE as int) as i64,
            y: (region.height as int * TILE_DISPLAY_SCALE as int) as i64,
        },
    }
}

/// `tiles` with every tile whose box contains `p` removed.
pub open spec fn spec_remove_hits(tiles: Seq<Tile>, p: Vec2i) -> Seq<Tile>
    decreases tiles.len(),
{
    if tiles.len() == 0 {
        Seq::empty()
    } else {
        let rest = spec_remove_hits(tiles.drop_last(), p);
        if tile_contains(tiles.last(), p) {
            rest
        } else {
            rest.push(tiles.last())
        }
    }
}

/// Why a placement did not happen.
#[derive(Clone, Copy, PartialEq, Eq, Structural, Debug)]
pub enum PlaceError {
    /// The UI overlay holds the pointer this tick.
    PointerCaptured,
    /// An existing tile's box contains the target point.
    Occupied,
    /// The selected index names no region of the atlas.
    IndexOutOfRange,
}

/// The set of placed tiles of one editor session.
#[derive(Clone, PartialEq, Eq, Debug)]
pub struct TileCanvas {
    pub tiles: Vec<Tile>,
}

impl View for TileCanvas {
    type V = Seq<Tile>;

    open spec fn view(&self) -> Seq<Tile> {
        self.tiles@
    }
}

impl TileCanvas {
    /// Every placed tile is well-formed.
    pub open spec fn wf(self) -> bool {
        forall|i: int| 0 <= i < self@.len() ==> self@[i].wf()
    }

    /// An empty canvas.
    pub fn new() -> (r: TileCanvas)
        ensures
            r@ == Seq::<Tile>::empty(),
            r.wf(),
    {
        let r = TileCanvas { tiles: Vec::new() };
        proof {
            assert(r@ =~= Seq::<Tile>::empty());
        }
        r
    }

    /// How many tiles are placed.
    pub fn len(&self) -> (r: usize)
        ensures
            r == self@.len(),
    {
        self.tiles.len()
    }

    /// The tile at index `i`.
    pub fn get(&self, i: usize) -> (r: Tile)
        requires
            i < self@.len(),
        ensures
            r == self@[i as int],
    {
        self.tiles[i]
    }

    /// Whether any placed tile's box contains the world point `p`.
    pub fn occupied_at(&self, p: Vec2i) -> (r: bool)
        requires
            self.wf(),
            p.within(WORLD_INPUT_LIMIT),
        ensures
            r == spec_occupied(self@, p),
    {
        let n: usize = self.tiles.len();
        let mut i: usize = 0;
        while i < n
            invariant
                0 <= i <= n == self@.len(),
                self.wf(),
                p.within(WORLD_INPUT_LIMIT),
                forall|j: int| 0 <= j < i ==> !tile_contains(self@[j], p),
            decreases n - i,
        {
            let t: Tile = self.tiles[i];
            let dx: i64 = 2 * (p.x - t.world_position.x);
            let dy: i64 = 2 * (p.y - t.world_position.y);
            if -t.render_size.x <= dx && dx <= t.render_size.x && -t.render_size.y <= dy && dy
                <= t.render_size.y {
                proof {
                    assert(tile_contains(self@[i as int], p));
                }
                return true;
            }
            i = i + 1;
        }
        false
    }

    /// Attempts to place a tile of region `selected_index` at `p`: refused
    /// while the UI overlay holds the pointer, while any existing tile's
    /// box contains `p`, or while the index names no region. Otherwise the
    /// new tile — sized to one fifth of its region — is appended and
    /// returned.
    pub fn try_place(
        &mut self,
        p: Vec2i,
        selected_index: usize,
        atlas: &CaveAtlases,
        ui_captured: bool,
    ) -> (r: Result<Tile, PlaceError>)
        requires
            old(self).wf(),
            p.within(WORLD_INPUT_LIMIT),
        ensures
            final(self).wf(),
            ui_captured ==> r == Result::<Tile, PlaceError>::Err(PlaceError::PointerCaptured)
                && final(self)@ == old(self)@,
            !ui_captured && spec_occupied(old(self)@, p) ==> r == Result::<
                Tile,
                PlaceError,
            >::Err(PlaceError::Occupied) && final(self)@ == old(self)@,
            !ui_captured && !spec_occupied(old(self)@, p) && selected_index
                >= atlas.regions@.len() ==> r == Result::<Tile, PlaceError>::Err(
                PlaceError::IndexOutOfRange,
            ) && final(self)@ == old(self)@,
            !ui_captured && !spec_occupied(old(self)@, p) && selected_index
                < atlas.regions@.len() ==> ({
                let t = spec_new_tile(p, selected_index, atlas.regions@[selected_index as int]);
                r == Result::<Tile, PlaceError>::Ok(t) && final(self)@ == old(self)@.push(t)
            }),
    {
        if ui_captured {
            return Err(PlaceError::PointerCaptured);
        }
        if self.occupied_at(p) {
            return Err(PlaceError::Occupied);
        }
        if selected_index >= atlas.regions.len() {
            return Err(PlaceError::IndexOutOfRange);
        }
        let region: AtlasRegion = atlas.regions[selected_index];
        let t = Tile {
            world_position: p,
            atlas_index: selected_index,
            render_size: Vec2i {
                x: (region.width as i64) * TILE_DISPLAY_SCALE,
                y: (region.height as i64) * TILE_DISPLAY_SCALE,
            },
        };
        self.tiles.push(t);
        Ok(t)
    }

    /// Removes every tile whose box contains the world point `p`; refused
    /// while the UI overlay holds the pointer. Returns how many tiles were
    /// removed.
    pub fn try_remove_at(&mut self, p: Vec2i, ui_captured: bool) -> (removed: usize)
        requires
            old(self).wf(),
            p.within(WORLD_INPUT_LIMIT),
        ensures
            final(self).wf(),
            ui_captured ==> final(self)@ == old(self)@ && removed == 0,
            !ui_captured ==> final(self)@ == spec_remove_hits(old(self)@, p) && removed == old(
                self,
            )@.len() - final(self)@.len(),
    {
        if ui_captured {
            return 0;
        }
        let n: usize = self.tiles.len();
        let mut kept: Vec<Tile> = Vec::new();
        let mut i: usize = 0;
        while i < n
            invariant
                0 <= i <= n == self@.len(),
                self.wf(),
                p.within(WORLD_INPUT_LIMIT),
                kept@ == spec_remove_hits(self@.subrange(0, i as int), p),
                kept@.len() <= i,
                forall|k: int| 0 <= k < kept@.len() ==> kept@[k].wf(),
            decreases n - i,
        {
            let t: Tile = self.tiles[i];
            proof {
                assert(self@.subrange(0, i as int + 1).drop_last() =~= self@.subrange(
                    0,
                    i as int,
                ));
                assert(self@.subrange(0, i as int + 1).last() == self@[i as int]);
            }
            let dx: i64 = 2 * (p.x - t.world_position.x);
            let dy: i64 = 2 * (p.y - t.world_position.y);
            if !(-t.render_size.x <= dx && dx <= t.render_size.x && -t.render_size.y <= dy && dy
                <= t.render_size.y) {
                kept.push(t);
            }
            i = i + 1;
        }
        proof {
            assert(self@.subrange(0, n as int) =~= self@);
        }
        let removed: usize = n - kept.len();
        self.tiles = kept;
        removed
    }
}

/// Law: placing twice at the same point rejects the second placement. Once
/// a placement at `p` has succeeded, the canvas is occupied at `p`, so an
/// immediate second placement at `p` — with any selected index — is
/// refused.
pub proof fn lemma_place_then_place_rejects(
    tiles: Seq<Tile>,
    p: Vec2i,
    atlas_index: usize,
    region: AtlasRegion,
)
    requires
        !spec_occupied(tiles, p),
    ensures
        spec_occupied(tiles.push(spec_new_tile(p, atlas_index, region)), p),
{
    let t = spec_new_tile(p, atlas_index, region);
    let tiles2 = tiles.push(t);
    assert(tile_contains(tiles2[tiles.len() as int], p));
}

/// No tile left by a removal at `p` contains `p`.
pub proof fn lemma_remove_clears_point(tiles: Seq<Tile>, p: Vec2i)
    ensures
        forall|i: int|
            0 <= i < spec_remove_hits(tiles, p).len() ==> !tile_contains(
                spec_remove_hits(tiles, p)[i],
                p,
            ),
    decreases tiles.len(),
{
    if tiles.len() > 0 {
        lemma_remove_clears_point(tiles.drop_last(), p);
        let rest = spec_remove_hits(tiles.drop_last(), p);
        let all = spec_remove_hits(tiles, p);
        assert forall|i: int| 0 <= i < all.len() implies !tile_contains(all[i], p) by {
            if !tile_contains(tiles.last(), p) && i == rest.len() {
                assert(all[i] == tiles.last());
            } else {
                assert(all[i] == rest[i]);
                assert(!tile_contains(rest[i], p));
            }
        }
    }
}

/// Law: placing and then removing at the same point leaves no tile at that
/// point. After a successful placement at `p` followed by a removal at
/// `p`, no remaining tile's box contains `p`.
pub proof fn lemma_place_then_remove_clears(
    tiles: Seq<Tile>,
    p: Vec2i,
    atlas_index: usize,
    region: AtlasRegion,
)
    ensures
        ({
            let after = spec_remove_hits(tiles.push(spec_new_tile(p, atlas_index, region)), p);
            forall|i: int| 0 <= i < after.len() ==> !tile_contains(after[i], p)
        }),
{
    lemma_remove_clears_point(tiles.push(spec_new_tile(p, atlas_index, region)), p);
}

} // verus!
