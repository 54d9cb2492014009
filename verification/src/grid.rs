//! The tile grid: a rectangle of tiles, stored row by row.

use vstd::arithmetic::div_mod::lemma_fundamental_div_mod_converse;
use vstd::prelude::*;
use crate::geometry::Vector2;

verus! {

/// Makes `rand::XorShiftRng` known as a type whose values can be carried
/// about; nothing is known of what is inside one.
#[verifier::external_type_specification]
#[verifier::external_body]
pub struct ExXorShiftRng(rand::XorShiftRng);

/// Calls `rand::SeedableRng::from_seed` for `rand::XorShiftRng`.  The call
/// panics on a seed of four zeros, which `requires` leaves out; nothing is
/// claimed of the generator that comes back.
#[verifier::external_body]
fn seeded_generator(seed: [u32; 4]) -> (generator: rand::XorShiftRng)
    requires
        seed[0] != 0 || seed[1] != 0 || seed[2] != 0 || seed[3] != 0,
{
    rand::SeedableRng::from_seed(seed)
}

/// Calls `rand::Rng::next_u32` on a `rand::XorShiftRng`.  Nothing is claimed
/// of the word that comes back.
#[verifier::external_body]
fn next_word(generator: &mut rand::XorShiftRng) -> (word: u32) {
    rand::Rng::next_u32(generator)
}

/// The tile that a random word stands for: 0, nothing there, for an even
/// word, and 1, ground, for an odd one.
pub fn tile_of(word: u32) -> (tile: i32)
    ensures
        tile == word % 2,
{
    (word % 2) as i32
}

/// A grid of tiles.  A tile is 0 where there is nothing and 1 where there is
/// ground.
pub struct Grid {
    tiles: Vec<i32>,
    size: Vector2,
}

impl Grid {
    /// The extent of the grid: `x` columns and `y` rows.
    pub closed spec fn spec_size(&self) -> Vector2 {
        self.size
    }

    /// The tile lies inside the grid.
    pub open spec fn contains(&self, x: int, y: int) -> bool {
        0 <= x < self.spec_size().x && 0 <= y < self.spec_size().y
    }

    /// The tile at column `x` of row `y`.
    pub closed spec fn tile(&self, x: int, y: int) -> i32
        recommends
            self.contains(x, y),
    {
        self.tiles@[x + y * self.size.x]
    }

    /// The grid holds a tile, 0 or 1, for every place inside its extent.
    pub closed spec fn wf(&self) -> bool {
        &&& 0 <= self.size.x
        &&& 0 <= self.size.y
        &&& self.tiles@.len() == self.size.x * self.size.y
        &&& self.size.x * self.size.y <= i32::MAX
        &&& forall|k: int| 0 <= k < self.tiles@.len() ==> 0 <= #[trigger] self.tiles@[k] <= 1
    }

    /// A grid of the given extent, its tiles drawn from a generator that is
    /// seeded the same way every time.
    pub fn new(size: Vector2) -> (grid: Self)
        requires
            0 <= size.x,
            0 <= size.y,
            size.x * size.y <= i32::MAX,
        ensures
            grid.wf(),
            grid.spec_size() == size,
    {
        let mut generator = seeded_generator([1, 2, 3, 4]);
        assert(0 <= size.x * size.y) by (nonlinear_arith)
            requires
                0 <= size.x,
                0 <= size.y,
        ;
        let count = (size.x * size.y) as usize;
        let mut tiles: Vec<i32> = Vec::new();
        let mut n: usize = 0;
        while n < count
            invariant
                n <= count,
                tiles@.len() == n,
                forall|k: int| 0 <= k < n ==> 0 <= #[trigger] tiles@[k] <= 1,
            decreases count - n,
        {
            let word = next_word(&mut generator);
            tiles.push(tile_of(word));
            n += 1;
        }
        Grid { tiles, size }
    }

    /// The extent of the grid: `x` columns and `y` rows.
    pub fn size(&self) -> (size: Vector2)
        ensures
            size == self.spec_size(),
    {
        self.size
    }

    /// The number of columns.
    pub fn width(&self) -> (width: i32)
        ensures
            width == self.spec_size().x,
    {
        self.size.x
    }

    /// The number of rows.
    pub fn height(&self) -> (height: i32)
        ensures
            height == self.spec_size().y,
    {
        self.size.y
    }

    /// The tile at column `x` of row `y`, or nothing where the place lies
    /// outside the grid.
    pub fn get(&self, x: i32, y: i32) -> (tile: Option<i32>)
        requires
            self.wf(),
        ensures
            tile == if self.contains(x as int, y as int) {
                Some(self.tile(x as int, y as int))
            } else {
                None
            },
    {
        if x < 0 || x >= self.size.x || y < 0 || y >= self.size.y {
            return None;
        }
        proof {
            lemma_cell_index(x as int, y as int, self.size.x as int, self.size.y as int);
        }
        Some(self.tiles[(x + y * self.size.x) as usize])
    }

    /// The place that comes `k`-th when the grid is walked row by row, each
    /// row from its first column on.
    pub open spec fn cell(&self, k: int) -> Vector2 {
        Vector2 { x: (k % self.spec_size().x as int) as i32, y: (k / self.spec_size().x as int) as i32 }
    }

    /// All places of the grid, row by row.
    pub open spec fn cells(&self) -> Seq<Vector2> {
        Seq::new((self.spec_size().x * self.spec_size().y) as nat, |k: int| self.cell(k))
    }

    /// The places where there is something to draw, row by row.
    pub open spec fn occupied(&self) -> Seq<Vector2> {
        self.cells().filter(|place: Vector2| self.tile(place.x as int, place.y as int) != 0)
    }

    /// The tiles to draw, in drawing order: every place whose tile is not 0,
    /// row by row, each row from its first column on.
    pub fn occupied_tiles(&self) -> (places: Vec<Vector2>)
        requires
            self.wf(),
        ensures
            places@ == self.occupied(),
    {
        let ghost drawn = |place: Vector2| self.tile(place.x as int, place.y as int) != 0;
        let mut places: Vec<Vector2> = Vec::new();
        let mut y: i32 = 0;
        proof {
            reveal(Seq::filter);
            assert(self.cells().take(0).filter(drawn) =~= Seq::<Vector2>::empty());
        }
        while y < self.size.y
            invariant
                self.wf(),
                0 <= y <= self.size.y,
                drawn == |place: Vector2| self.tile(place.x as int, place.y as int) != 0,
                places@ == self.cells().take(y * self.size.x).filter(drawn),
            decreases self.size.y - y,
        {
            let mut x: i32 = 0;
            while x < self.size.x
                invariant
                    self.wf(),
                    0 <= y < self.size.y,
                    0 <= x <= self.size.x,
                    drawn == |place: Vector2| self.tile(place.x as int, place.y as int) != 0,
                    places@ == self.cells().take(y * self.size.x + x).filter(drawn),
                decreases self.size.x - x,
            {
                proof {
                    let k = y * self.size.x + x;
                    lemma_cell_index(x as int, y as int, self.size.x as int, self.size.y as int);
                    lemma_fundamental_div_mod_converse(k, self.size.x as int, y as int, x as int);
                    let longer = self.cells().take(k + 1);
                    assert(longer.drop_last() =~= self.cells().take(k));
                    assert(longer.last() == (Vector2 { x, y }));
                    reveal(Seq::filter);
                }
                let tile = self.tiles[(x + y * self.size.x) as usize];
                if tile != 0 {
                    places.push(Vector2 { x, y });
                }
                x += 1;
            }
            assert((y + 1) * self.size.x == y * self.size.x + self.size.x) by (nonlinear_arith);
            y += 1;
        }
        proof {
            assert(self.size.y * self.size.x == self.size.x * self.size.y) by (nonlinear_arith);
            assert(self.cells().take(self.size.y * self.size.x) =~= self.cells());
        }
        places
    }

    /// In a consistent grid the extent is not negative and every tile inside
    /// it is 0 or 1.
    pub proof fn lemma_wf(&self)
        requires
            self.wf(),
        ensures
            0 <= self.spec_size().x,
            0 <= self.spec_size().y,
            self.spec_size().x * self.spec_size().y <= i32::MAX,
            forall|x: int, y: int| self.contains(x, y) ==> 0 <= #[trigger] self.tile(x, y) <= 1,
    {
        assert forall|x: int, y: int| self.contains(x, y) implies 0 <= #[trigger] self.tile(x, y)
            <= 1 by {
            lemma_cell_index(x, y, self.size.x as int, self.size.y as int);
        }
    }
}

/// A place inside a `width` by `height` grid has an index below `width * height`.
proof fn lemma_cell_index(x: int, y: int, width: int, height: int)
    requires
        0 <= x < width,
        0 <= y < height,
    ensures
        0 <= x + y * width < width * height,
        0 <= y * width <= width * height - width,
{
    assert(y * width <= (height - 1) * width) by (nonlinear_arith)
        requires
            0 <= y <= height - 1,
            0 <= width,
    ;
    assert((height - 1) * width == width * height - width) by (nonlinear_arith);
    assert(0 <= y * width) by (nonlinear_arith)
        requires
            0 <= y,
            0 <= width,
    ;
}

} // verus!
