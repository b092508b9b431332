//! Procedural zone generation.
//!
//! Each player starts in their own 30x30 tile zone with procedurally
//! generated terrain.  Generation is a pure function of the seed, so the
//! whole landscape is pinned down by the contracts below.

use vstd::prelude::*;

verus! {

/// Size of each zone in tiles
pub const ZONE_SIZE: usize = 30;

/// Surface types that can appear in a zone
#[derive(Debug, Clone, Copy, PartialEq, Eq, Structural)]
pub enum SurfaceType {
    /// Plain surface - walkable, standard movement
    Plain,
    /// Swamp surface - walkable, slower movement
    Swamp,
    /// Obstacle - not walkable, blocks movement
    Obstacle,
}

/// A single tile in a zone
#[derive(Debug, Clone, Copy, PartialEq, Eq, Structural)]
pub struct Tile {
    /// X coordinate within the zone (0-29)
    pub x: usize,
    /// Y coordinate within the zone (0-29)
    pub y: usize,
    /// Surface type of this tile
    pub surface_type: SurfaceType,
}

/// Cardinal directions for exits
#[derive(Debug, Clone, Copy, PartialEq, Eq, Hash, Structural)]
pub enum ExitDirection {
    North,
    South,
    East,
    West,
}

/// An exit point from a zone
#[derive(Debug, Clone, Copy, PartialEq, Eq, Structural)]
pub struct Exit {
    /// X coordinate of the exit
    pub x: usize,
    /// Y coordinate of the exit
    pub y: usize,
    /// Direction of the exit (North, South, East, West)
    pub direction: ExitDirection,
}

/// Deterministic pseudo-random number generator (linear congruential) used
/// for zone generation.
pub struct SimpleRng {
    seed: u64,
    state: u64,
}

/// One step of the linear congruential generator.
pub open spec fn spec_rng_next(state: u64) -> u64 {
    vstd::wrapping::u64_specs::wrapping_add(
        vstd::wrapping::u64_specs::wrapping_mul(state, 6364136223846793005u64),
        1442695040888963407u64,
    )
}

impl SimpleRng {
    /// The seed this generator was created from.
    pub closed spec fn spec_seed(&self) -> u64 {
        self.seed
    }

    /// The current internal state.
    pub closed spec fn spec_state(&self) -> u64 {
        self.state
    }

    pub fn new(seed: u64) -> (r: Self)
        ensures
            r.spec_seed() == seed,
            r.spec_state() == seed,
    {
        SimpleRng { seed, state: seed }
    }

    pub fn next(&mut self) -> (r: u64)
        ensures
            final(self).spec_seed() == old(self).spec_seed(),
            final(self).spec_state() == spec_rng_next(old(self).spec_state()),
            r == final(self).spec_state(),
    {
        self.state = self.state.wrapping_mul(6364136223846793005u64).wrapping_add(
            1442695040888963407u64,
        );
        self.state
    }
}

/// Position-and-seed hash behind the terrain noise, scaled to 0..10000.
///
/// The distribution over this range drives the surface mix:
/// roughly 60% plain, 25% swamp, 15% obstacle.
pub open spec fn spec_noise(x: int, y: int, seed: u64) -> u64 {
    let h0 = vstd::wrapping::u64_specs::wrapping_add(
        vstd::wrapping::u64_specs::wrapping_add(
            vstd::wrapping::u64_specs::wrapping_mul((x % 0x1_0000_0000_0000_0000) as u64,
                374761393u64),
            vstd::wrapping::u64_specs::wrapping_mul((y % 0x1_0000_0000_0000_0000) as u64,
                668265263u64),
        ),
        seed,
    );
    let h1 = h0 ^ (h0 >> 13u64);
    let h2 = vstd::wrapping::u64_specs::wrapping_mul(h1, 1274126177u64);
    let h3 = h2 ^ (h2 >> 16u64);
    (h3 % 10000u64) as u64
}

/// The surface type generated at position `(x, y)` for a given seed.
pub open spec fn spec_surface_at(x: int, y: int, seed: u64) -> SurfaceType {
    let n = spec_noise(x, y, seed);
    if n < 6000 {
        SurfaceType::Plain
    } else if n < 8500 {
        SurfaceType::Swamp
    } else {
        SurfaceType::Obstacle
    }
}

/// An exit lies on the edge of the grid that matches its direction.
pub open spec fn exit_on_edge(e: Exit) -> bool {
    match e.direction {
        ExitDirection::North => e.y == 0 && e.x < 30,
        ExitDirection::South => e.y == 29 && e.x < 30,
        ExitDirection::East => e.x == 29 && e.y < 30,
        ExitDirection::West => e.x == 0 && e.y < 30,
    }
}

/// A procedurally generated zone
#[derive(Debug, Clone)]
pub struct Zone {
    /// Unique identifier for this zone
    pub id: String,
    /// 2D grid of tiles (30x30)
    pub tiles: Vec<Vec<Tile>>,
    /// List of exits (2-4 per zone)
    pub exits: Vec<Exit>,
}

/// Number of tiles of a given surface type in one row.
pub open spec fn row_count(row: Seq<Tile>, st: SurfaceType) -> int
    decreases row.len(),
{
    if row.len() == 0 {
        0
    } else {
        row_count(row.drop_last(), st) + if row.last().surface_type == st {
            1int
        } else {
            0int
        }
    }
}

/// Number of tiles of a given surface type in a whole grid.
pub open spec fn grid_count(tiles: Seq<Vec<Tile>>, st: SurfaceType) -> int
    decreases tiles.len(),
{
    if tiles.len() == 0 {
        0
    } else {
        grid_count(tiles.drop_last(), st) + row_count(tiles.last()@, st)
    }
}

impl Zone {
    /// The grid is well formed: 30 rows of 30 tiles, each tile knowing its
    /// own coordinates.
    pub open spec fn wf(&self) -> bool {
        &&& self.tiles@.len() == 30
        &&& forall|i: int|
            0 <= i < 30 ==> (#[trigger] self.tiles@[i])@.len() == 30
        &&& forall|i: int, j: int|
            0 <= i < 30 && 0 <= j < 30 ==> (#[trigger] self.tiles@[i]@[j]).x == j
                && self.tiles@[i]@[j].y == i
        &&& 2 <= self.exits@.len() <= 4
        &&& forall|k: int| 0 <= k < self.exits@.len() ==> exit_on_edge(#[trigger] self.exits@[k])
    }

    /// Every tile carries the surface type that the seed dictates.
    pub open spec fn generated_from(&self, seed: u64) -> bool {
        forall|i: int, j: int|
            0 <= i < 30 && 0 <= j < 30 ==> (#[trigger] self.tiles@[i]@[j]).surface_type
                == spec_surface_at(j, i, seed)
    }

    /// Generate a new zone with a procedural landscape.
    ///
    /// The tile grid is a pure function of `seed`; the exits are drawn from
    /// the generator seeded with `seed`, land on the edge that matches their
    /// direction, and have pairwise distinct directions.
    pub fn generate(zone_id: String, seed: u64) -> (r: Zone)
        ensures
            r.wf(),
            r.id@ == zone_id@,
            r.generated_from(seed),
            forall|k1: int, k2: int|
                0 <= k1 < k2 < r.exits@.len() ==> (#[trigger] r.exits@[k1]).direction != (
                #[trigger] r.exits@[k2]).direction,
    {
        let mut rng = SimpleRng::new(seed);

        let mut tiles: Vec<Vec<Tile>> = Vec::with_capacity(ZONE_SIZE);
        for y in 0..ZONE_SIZE
            invariant
                tiles@.len() == y,
                forall|i: int| 0 <= i < y ==> (#[trigger] tiles@[i])@.len() == 30,
                forall|i: int, j: int|
                    0 <= i < y && 0 <= j < 30 ==> (#[trigger] tiles@[i]@[j]) == (Tile {
                        x: j as usize,
                        y: i as usize,
                        surface_type: spec_surface_at(j, i, seed),
                    }),
                rng.spec_seed() == seed,
        {
            let mut row: Vec<Tile> = Vec::with_capacity(ZONE_SIZE);
            for x in 0..ZONE_SIZE
                invariant
                    row@.len() == x,
                    forall|j: int|
                        0 <= j < x ==> (#[trigger] row@[j]) == (Tile {
                            x: j as usize,
                            y: y as usize,
                            surface_type: spec_surface_at(j, y as int, seed),
                        }),
                    rng.spec_seed() == seed,
            {
                let surface_type = Self::generate_surface_type(x, y, &mut rng);
                row.push(Tile { x, y, surface_type });
            }
            tiles.push(row);
        }

        // Generate 2-4 exits
        let num_exits = 2 + (rng.next() % 3) as usize;  // 2, 3, or 4 exits
        let exits = Self::generate_exits(num_exits, &mut rng);

        Zone { id: zone_id, tiles, exits }
    }

    /// Surface type for a tile, driven by the position/seed noise.
    fn generate_surface_type(x: usize, y: usize, rng: &mut SimpleRng) -> (st: SurfaceType)
        ensures
            st == spec_surface_at(x as int, y as int, old(rng).spec_seed()),
            *final(rng) == *old(rng),
    {
        let noise_value = Self::noise(x, y, rng.seed);

        // Distribution: ~60% Plain, ~25% Swamp, ~15% Obstacle
        if noise_value < 6000 {
            SurfaceType::Plain
        } else if noise_value < 8500 {
            SurfaceType::Swamp
        } else {
            SurfaceType::Obstacle
        }
    }

    /// Simple 2D noise function for terrain generation, in the range
    /// 0..10000.
    fn noise(x: usize, y: usize, seed: u64) -> (n: u64)
        ensures
            n == spec_noise(x as int, y as int, seed),
            n < 10000,
    {
        // Combine position with seed for deterministic pseudo-random values
        let hash = (x as u64).wrapping_mul(374761393u64).wrapping_add(
            (y as u64).wrapping_mul(668265263u64),
        ).wrapping_add(seed);

        // Mix the bits
        let hash = hash ^ (hash >> 13u64);
        let hash = hash.wrapping_mul(1274126177u64);
        let hash = hash ^ (hash >> 16u64);

        hash % 10000
    }

    /// Generate `num_exits` exits, each on the edge matching its direction,
    /// with pairwise distinct directions.
    fn generate_exits(num_exits: usize, rng: &mut SimpleRng) -> (exits: Vec<Exit>)
        requires
            num_exits <= 4,
        ensures
            exits@.len() == num_exits,
            forall|k: int| 0 <= k < exits@.len() ==> exit_on_edge(#[trigger] exits@[k]),
            forall|k1: int, k2: int|
                0 <= k1 < k2 < exits@.len() ==> (#[trigger] exits@[k1]).direction != (
                #[trigger] exits@[k2]).direction,
    {
        let mut exits: Vec<Exit> = Vec::with_capacity(num_exits);
        let mut used: Vec<bool> = Vec::new();
        used.push(false);
        used.push(false);
        used.push(false);
        used.push(false);

        for k in 0..num_exits
            invariant
                num_exits <= 4,
                exits@.len() == k,
                used@.len() == 4,
                forall|k1: int| 0 <= k1 < k ==> exit_on_edge(#[trigger] exits@[k1]),
                forall|d: int|
                    0 <= d < 4 ==> (used@[d] <==> exists|k1: int|
                        0 <= k1 < k && direction_index((#[trigger] exits@[k1]).direction) == d),
                forall|k1: int, k2: int|
                    0 <= k1 < k2 < k ==> (#[trigger] exits@[k1]).direction != (
                    #[trigger] exits@[k2]).direction,
        {
            let ghost used0 = used@;
            let ghost exits0 = exits@;

            proof {
                dirs_pigeonhole(used@, exits@, k as int);
            }

            // Pick a random direction that has not been used yet.
            let direction = Self::pick_unused_direction(rng, &used);
            let di: usize = direction_index_exec(direction);
            used.set(di, true);

            // Place the exit on the edge given by its direction.
            let (x, y) = match direction {
                ExitDirection::North => ((rng.next() % 30) as usize, 0usize),
                ExitDirection::South => ((rng.next() % 30) as usize, ZONE_SIZE - 1),
                ExitDirection::East => (ZONE_SIZE - 1, (rng.next() % 30) as usize),
                ExitDirection::West => (0usize, (rng.next() % 30) as usize),
            };

            let e = Exit { x, y, direction };
            exits.push(e);

            proof {
                assert(exit_on_edge(e));
                let di_ = direction_index(direction);
                assert forall|k1: int|
                    0 <= k1 < exits0.len() implies (#[trigger] exits0[k1]).direction
                    != direction by {
                    assert(used0[direction_index(exits0[k1].direction)]);
                    assert(!used0[di_]);
                }
                assert forall|d: int|
                    0 <= d < 4 implies ((#[trigger] used@[d]) <==> exists|k1: int|
                        0 <= k1 < exits@.len() && direction_index(exits@[k1].direction)
                            == d) by {
                    if d == di_ {
                        assert(exits@[exits@.len() - 1] == e);
                        assert(direction_index(exits@[exits@.len() - 1].direction) == d);
                        assert(used@[d]);
                    } else {
                        if used@[d] {
                            let w = choose|k1: int|
                                0 <= k1 < exits0.len() && direction_index(
                                    exits0[k1].direction,
                                ) == d;
                            assert(exits@[w] == exits0[w]);
                            assert(direction_index(exits@[w].direction) == d);
                        }
                        if exists|k1: int|
                            0 <= k1 < exits@.len() && direction_index(exits@[k1].direction)
                                == d {
                            let w = choose|k1: int|
                                0 <= k1 < exits@.len() && direction_index(
                                    exits@[k1].direction,
                                ) == d;
                            assert(w < exits0.len());
                            assert(exits0[w] == exits@[w]);
                            assert(used0[d]);
                            assert(used@[d]);
                        }
                    }
                }
            }
        }
        exits
    }

    /// Draw a random direction; if its slot in `used` is taken, fall back
    /// to the first free slot.
    fn pick_unused_direction(rng: &mut SimpleRng, used: &Vec<bool>) -> (d: ExitDirection)
        requires
            used@.len() == 4,
            !(used@[0] && used@[1] && used@[2] && used@[3]),
        ensures
            !used@[direction_index(d)],
    {
        let roll: usize = (rng.next() % 4) as usize;
        if !used[roll] {
            return direction_of_index(roll);
        }
        for di in 0..4usize
            invariant
                used@.len() == 4,
                forall|j: int| 0 <= j < di ==> used@[j],
        {
            if !used[di] {
                return direction_of_index(di);
            }
        }
        proof {
            assert(false);
        }
        ExitDirection::North
    }

    /// Get a tile at specific coordinates.
    pub fn get_tile(&self, x: usize, y: usize) -> (r: Option<&Tile>)
        requires
            self.wf(),
        ensures
            match r {
                Some(t) => x < 30 && y < 30 && *t == self.tiles@[y as int]@[x as int],
                None => x >= 30 || y >= 30,
            },
    {
        if x < ZONE_SIZE && y < ZONE_SIZE {
            Some(&self.tiles[y][x])
        } else {
            None
        }
    }

    /// Count tiles by surface type.
    pub fn count_surface_type(&self, surface_type: SurfaceType) -> (n: usize)
        requires
            self.wf(),
        ensures
            n == grid_count(self.tiles@, surface_type),
            n <= 900,
    {
        let mut n: usize = 0;
        let nrows = self.tiles.len();
        for i in 0..nrows
            invariant
                self.wf(),
                nrows == 30,
                n == grid_count(self.tiles@.take(i as int), surface_type),
                n <= i * 30,
        {
            let row = &self.tiles[i];
            let mut m: usize = 0;
            let rlen: usize = row.len();
            for j in 0..rlen
                invariant
                    rlen == row@.len(),
                    rlen == 30,
                    m == row_count(row@.take(j as int), surface_type),
                    m <= j,
            {
                proof {
                    assert(row@.take(j + 1).drop_last() =~= row@.take(j as int));
                    assert(row@.take(j + 1).last() == row@[j as int]);
                }
                if row[j].surface_type == surface_type {
                    m = m + 1;
                }
            }
            proof {
                assert(row@.take(rlen as int) =~= row@);
                assert(self.tiles@.take(i + 1).drop_last() =~= self.tiles@.take(i as int));
                assert(self.tiles@.take(i + 1).last() == self.tiles@[i as int]);
            }
            n = n + m;
        }
        proof {
            assert(self.tiles@.take(nrows as int) =~= self.tiles@);
        }
        n
    }
}

/// Index of a direction in the `used` table of `generate_exits`.
pub open spec fn direction_index(d: ExitDirection) -> int {
    match d {
        ExitDirection::North => 0,
        ExitDirection::South => 1,
        ExitDirection::East => 2,
        ExitDirection::West => 3,
    }
}

fn direction_index_exec(d: ExitDirection) -> (i: usize)
    ensures
        i == direction_index(d),
        i < 4,
{
    match d {
        ExitDirection::North => 0,
        ExitDirection::South => 1,
        ExitDirection::East => 2,
        ExitDirection::West => 3,
    }
}

/// The direction whose `used` slot is `i`.
fn direction_of_index(i: usize) -> (d: ExitDirection)
    requires
        i < 4,
    ensures
        direction_index(d) == i,
{
    if i == 0 {
        ExitDirection::North
    } else if i == 1 {
        ExitDirection::South
    } else if i == 2 {
        ExitDirection::East
    } else {
        ExitDirection::West
    }
}

/// Fewer than four exits with pairwise distinct directions cannot fill all
/// four direction slots.
proof fn dirs_pigeonhole(used: Seq<bool>, exits: Seq<Exit>, k: int)
    requires
        used.len() == 4,
        0 <= k < 4,
        exits.len() == k,
        forall|d: int|
            0 <= d < 4 ==> ((#[trigger] used[d]) <==> exists|k1: int|
                0 <= k1 < k && direction_index((#[trigger] exits[k1]).direction) == d),
    ensures
        !(used[0] && used[1] && used[2] && used[3]),
{
    if used[0] && used[1] && used[2] && used[3] {
        let w0 = choose|k1: int| 0 <= k1 < k && direction_index(exits[k1].direction) == 0;
        let w1 = choose|k1: int| 0 <= k1 < k && direction_index(exits[k1].direction) == 1;
        let w2 = choose|k1: int| 0 <= k1 < k && direction_index(exits[k1].direction) == 2;
        let w3 = choose|k1: int| 0 <= k1 < k && direction_index(exits[k1].direction) == 3;
        assert(w0 != w1 && w0 != w2 && w0 != w3 && w1 != w2 && w1 != w3 && w2 != w3);
        assert(false);
    }
}

} // verus!
