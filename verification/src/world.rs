//! The world: a grid without bounds, with a block in some of its cells.

use crate::blocks::Block;
use crate::blocks::BlockView;
use crate::movement::coordinate::Coordinate;
use crate::screen::screen_of;
use crate::screen::set_screen_char;
use crate::screen::styled;
use std::collections::HashMap;
use termgame::Game;
use vstd::prelude::*;

verus! {

broadcast use vstd::std_specs::hash::group_hash_axioms;

/// The number under which the cell at `x` and `y` is kept. Every cell has
/// one, and no two share one.
pub open spec fn cell_key(x: int, y: int) -> int {
    (x + 0x8000_0000) * 0x1_0000_0000 + (y + 0x8000_0000)
}

/// Cells with the same key are the same cell.
pub proof fn lemma_cell_key_is_unique(x1: i32, y1: i32, x2: i32, y2: i32)
    requires
        cell_key(x1 as int, y1 as int) == cell_key(x2 as int, y2 as int),
    ensures
        x1 == x2,
        y1 == y2,
{
}

/// The blocks of the world, by the cell they lie in.
pub struct World {
    cells: HashMap<u64, Block>,
}

impl View for World {
    type V = Map<(int, int), BlockView>;

    closed spec fn view(&self) -> Map<(int, int), BlockView> {
        Map::new(
            |at: (int, int)|
                i32::MIN <= at.0 <= i32::MAX && i32::MIN <= at.1 <= i32::MAX && self.cells@.contains_key(
                    cell_key(at.0, at.1) as u64,
                ),
            |at: (int, int)| self.cells@[cell_key(at.0, at.1) as u64]@,
        )
    }
}

/// The key of the cell `at`.
fn key_of(at: Coordinate) -> (key: u64)
    ensures
        key == cell_key(at.x as int, at.y as int),
{
    ((at.x as i64 + 0x8000_0000i64) as u64) * 0x1_0000_0000u64 + ((at.y as i64 + 0x8000_0000i64) as u64)
}

/// The cell that is kept under `key`.
fn cell_of(key: u64) -> (at: Coordinate)
    ensures
        key == cell_key(at.x as int, at.y as int),
{
    Coordinate {
        x: ((key / 0x1_0000_0000u64) as i64 - 0x8000_0000i64) as i32,
        y: ((key % 0x1_0000_0000u64) as i64 - 0x8000_0000i64) as i32,
    }
}

impl World {
    /// A world without blocks.
    pub fn new() -> (world: World)
        ensures
            world@ == Map::<(int, int), BlockView>::empty(),
    {
        let world = World { cells: HashMap::new() };
        assert(world@ =~= Map::<(int, int), BlockView>::empty());
        world
    }

    /// Puts `block` into the cell at `x` and `y`, in place of what was
    /// there.
    pub fn insert(&mut self, x: i32, y: i32, block: Block)
        ensures
            final(self)@ == old(self)@.insert((x as int, y as int), block@),
    {
        let key: u64 = key_of(Coordinate { x, y });
        self.cells.insert(key, block);
        proof {
            assert forall|at: (int, int)|
                i32::MIN <= at.0 <= i32::MAX && i32::MIN <= at.1 <= i32::MAX && cell_key(at.0, at.1)
                    == key implies at == (x as int, y as int) by {
                lemma_cell_key_is_unique(at.0 as i32, at.1 as i32, x, y);
            }
            assert(self@ =~= old(self)@.insert((x as int, y as int), block@));
        }
    }

    /// The block in the cell `at`, if there is one.
    pub fn get(&self, at: Coordinate) -> (found: Option<&Block>)
        ensures
            match found {
                Some(block) => self@.contains_key((at.x as int, at.y as int)) && block@ == self@[(
                    at.x as int,
                    at.y as int,
                )],
                None => !self@.contains_key((at.x as int, at.y as int)),
            },
    {
        let key: u64 = key_of(at);
        self.cells.get(&key)
    }
}

/// The cell that is kept under `key`, as a pair.
pub open spec fn key_cell(key: u64) -> (int, int) {
    (key / 0x1_0000_0000 - 0x8000_0000, key % 0x1_0000_0000 - 0x8000_0000)
}

impl World {
    /// Draws the blocks of the world on the screen, each in its cell.
    pub fn render(&self, game: &mut Game)
        ensures
            screen_of(final(game)) == screen_of(old(game)).with_world(self@),
    {
        let ghost before = screen_of(game);
        let ghost mut drawn: Set<(int, int)> = Set::empty();
        assert(screen_of(game).cells =~= Map::new(
            |at: (int, int)| drawn.contains(at) || before.cells.contains_key(at),
            |at: (int, int)|
                if drawn.contains(at) {
                    self@[at].glyph().look()
                } else {
                    before.cells[at]
                },
        ));
        for pair in it: self.cells.iter()
            invariant
                forall|j: int| 0 <= j < it.seq().len() ==> self.cells@.contains_key(*(#[trigger] it.seq()[j]).0)
                    && self.cells@[*it.seq()[j].0] == *it.seq()[j].1,
                forall|at: (int, int)| #[trigger]
                    self@.contains_key(at) ==> drawn.contains(at) || exists|j: int|
                        it.index() <= j < it.seq().len() && key_cell(*(#[trigger] it.seq()[j]).0) == at,
                forall|at: (int, int)| #[trigger] drawn.contains(at) ==> self@.contains_key(at),
                screen_of(game).cells == Map::new(
                    |at: (int, int)| drawn.contains(at) || before.cells.contains_key(at),
                    |at: (int, int)|
                        if drawn.contains(at) {
                            self@[at].glyph().look()
                        } else {
                            before.cells[at]
                        },
                ),
                screen_of(game).viewport == before.viewport,
                screen_of(game).message == before.message,
                screen_of(game).ending == before.ending,
        {
            let (key, block) = pair;
            let at = cell_of(*key);
            set_screen_char(game, at, Some(styled(block.glyph())));
            proof {
                let ghost earlier = drawn;
                drawn = drawn.insert((at.x as int, at.y as int));
                assert(key_cell(*key) == (at.x as int, at.y as int));
                assert(self@[(at.x as int, at.y as int)] == block@);
                assert forall|other: (int, int)| #[trigger]
                    self@.contains_key(other) implies drawn.contains(other) || exists|j: int|
                    it.index() + 1 <= j < it.seq().len() && key_cell(*(#[trigger] it.seq()[j]).0) == other by {
                    if !earlier.contains(other) {
                        let j = choose|j: int|
                            it.index() <= j < it.seq().len() && key_cell(*(#[trigger] it.seq()[j]).0) == other;
                        if j == it.index() {
                            assert(drawn.contains(other));
                        }
                    }
                }
                assert(screen_of(game).cells =~= Map::new(
                    |at: (int, int)| drawn.contains(at) || before.cells.contains_key(at),
                    |at: (int, int)|
                        if drawn.contains(at) {
                            self@[at].glyph().look()
                        } else {
                            before.cells[at]
                        },
                ));
            }
        }
        proof {
            assert(screen_of(game).cells =~= before.with_world(self@).cells);
        }
    }
}

} // verus!
